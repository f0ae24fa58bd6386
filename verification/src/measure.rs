use vstd::prelude::*;

verus! {

/// Fallback content width in pixels when the measurement is unusable.
pub const DEFAULT_CONTENT_WIDTH: u32 = 800;

/// Fallback content height in pixels when the measurement is unusable.
pub const DEFAULT_CONTENT_HEIGHT: u32 = 600;

/// Whitespace stripped around the measured value and its components.
pub open spec fn is_space(c: char) -> bool {
    c == ' ' || c == '\t' || c == '\n' || c == '\r'
}

/// A decimal digit.
pub open spec fn is_digit(c: char) -> bool {
    48 <= c as u32 && c as u32 <= 57
}

pub open spec fn space_pred() -> spec_fn(char) -> bool {
    |c: char| is_space(c)
}

pub open spec fn char_eq_pred(ch: char) -> spec_fn(char) -> bool {
    |c: char| c == ch
}

pub open spec fn char_ne_pred(ch: char) -> spec_fn(char) -> bool {
    |c: char| c != ch
}

/// How many characters at the front of `s` satisfy `p`.
pub open spec fn count_leading(s: Seq<char>, p: spec_fn(char) -> bool) -> nat
    decreases s.len(),
{
    if s.len() > 0 && p(s[0]) {
        (1 + count_leading(s.drop_first(), p)) as nat
    } else {
        0
    }
}

/// How many characters at the back of `s` satisfy `p`.
pub open spec fn count_trailing(s: Seq<char>, p: spec_fn(char) -> bool) -> nat
    decreases s.len(),
{
    if s.len() > 0 && p(s.last()) {
        (1 + count_trailing(s.drop_last(), p)) as nat
    } else {
        0
    }
}

/// `count_leading` is pinned down by its characteristic shape: `n` characters
/// satisfying `p`, then either the end or one that does not.
pub proof fn lemma_count_leading_is(s: Seq<char>, p: spec_fn(char) -> bool, n: nat)
    requires
        n <= s.len(),
        forall|i: int| 0 <= i < n ==> p(s[i]),
        n < s.len() ==> !p(s[n as int]),
    ensures
        count_leading(s, p) == n,
    decreases s.len(),
{
    if n == 0 {
        if s.len() > 0 {
            assert(!p(s[0]));
        }
    } else {
        assert(p(s[0]));
        assert forall|i: int| 0 <= i < n - 1 implies p(s.drop_first()[i]) by {
            assert(s.drop_first()[i] == s[i + 1]);
        }
        if n < s.len() {
            assert(s.drop_first()[n - 1] == s[n as int]);
        }
        lemma_count_leading_is(s.drop_first(), p, (n - 1) as nat);
    }
}

/// The mirror image of `lemma_count_leading_is` for the back of the sequence.
pub proof fn lemma_count_trailing_is(s: Seq<char>, p: spec_fn(char) -> bool, n: nat)
    requires
        n <= s.len(),
        forall|i: int| s.len() - n <= i < s.len() ==> p(s[i]),
        n < s.len() ==> !p(s[s.len() - n - 1]),
    ensures
        count_trailing(s, p) == n,
    decreases s.len(),
{
    if n == 0 {
        if s.len() > 0 {
            assert(!p(s.last()));
        }
    } else {
        assert(p(s.last()));
        assert forall|i: int| s.drop_last().len() - (n - 1) <= i < s.drop_last().len() implies p(
            s.drop_last()[i],
        ) by {
            assert(s.drop_last()[i] == s[i]);
        }
        if n < s.len() {
            assert(s.drop_last()[s.len() - n - 1] == s[s.len() - n - 1]);
        }
        lemma_count_trailing_is(s.drop_last(), p, (n - 1) as nat);
    }
}

/// `s` with its leading run of `p` characters removed.
pub open spec fn trim_leading(s: Seq<char>, p: spec_fn(char) -> bool) -> Seq<char> {
    s.skip(count_leading(s, p) as int)
}

/// `s` with its trailing run of `p` characters removed.
pub open spec fn trim_trailing(s: Seq<char>, p: spec_fn(char) -> bool) -> Seq<char> {
    s.take(s.len() - count_trailing(s, p))
}

/// `s` with whitespace stripped from both ends.
pub open spec fn spec_trim_ws(s: Seq<char>) -> Seq<char> {
    trim_trailing(trim_leading(s, space_pred()), space_pred())
}

/// The measured value with whitespace, then leading `[` and trailing `]`
/// runs, stripped away.
pub open spec fn spec_inner(s: Seq<char>) -> Seq<char> {
    trim_trailing(trim_leading(spec_trim_ws(s), char_eq_pred('[')), char_eq_pred(']'))
}

pub open spec fn all_digits(s: Seq<char>) -> bool {
    forall|i: int| 0 <= i < s.len() ==> is_digit(s[i])
}

/// The value of a digit string, most significant digit first.
pub open spec fn digits_val(s: Seq<char>) -> int
    decreases s.len(),
{
    if s.len() == 0 {
        0
    } else {
        10 * digits_val(s.drop_last()) + (s.last() as u32 - 48)
    }
}

/// The value of a digit string is nonnegative.
pub proof fn lemma_digits_val_nonneg(s: Seq<char>)
    requires
        all_digits(s),
    ensures
        digits_val(s) >= 0,
    decreases s.len(),
{
    if s.len() > 0 {
        assert forall|i: int| 0 <= i < s.drop_last().len() implies is_digit(
            s.drop_last()[i],
        ) by {
            assert(s.drop_last()[i] == s[i]);
        }
        lemma_digits_val_nonneg(s.drop_last());
        assert(is_digit(s.last()));
    }
}

/// On a digit string the value is nonnegative and never shrinks as more
/// digits are read.
pub proof fn lemma_digits_val_prefix(s: Seq<char>, j: int)
    requires
        all_digits(s),
        0 <= j <= s.len(),
    ensures
        0 <= digits_val(s.take(j)),
        digits_val(s.take(j)) <= digits_val(s),
    decreases s.len() - j,
{
    assert forall|i: int| 0 <= i < j implies is_digit(s.take(j)[i]) by {
        assert(s.take(j)[i] == s[i]);
    }
    lemma_digits_val_nonneg(s.take(j));
    if j < s.len() {
        assert(s.take(j + 1).drop_last() =~= s.take(j));
        assert(s.take(j + 1).last() == s[j]);
        assert(is_digit(s[j]));
        lemma_digits_val_prefix(s, j + 1);
    } else {
        assert(s.take(j) =~= s);
    }
}

/// One component of the measured pair: whitespace-trimmed, it must be a
/// nonempty digit string whose value fits; anything else yields the default.
pub open spec fn spec_parse_part(s: Seq<char>, default: u32) -> u32 {
    let t = spec_trim_ws(s);
    if t.len() > 0 && all_digits(t) && digits_val(t) <= u32::MAX as int {
        digits_val(t) as u32
    } else {
        default
    }
}

/// The content extent read from a measured value shaped like a bracketed
/// pair `[width, height]`. Each component falls back to its fixed default
/// when missing or unparseable; a missing second component (no comma) also
/// falls back.
pub open spec fn spec_parse_dimensions(s: Seq<char>) -> (u32, u32) {
    let inner = spec_inner(s);
    let k = count_leading(inner, char_ne_pred(',')) as int;
    if k == inner.len() {
        (spec_parse_part(inner, DEFAULT_CONTENT_WIDTH), DEFAULT_CONTENT_HEIGHT)
    } else {
        let rest = inner.skip(k + 1);
        let k2 = count_leading(rest, char_ne_pred(',')) as int;
        (
            spec_parse_part(inner.take(k), DEFAULT_CONTENT_WIDTH),
            spec_parse_part(rest.take(k2), DEFAULT_CONTENT_HEIGHT),
        )
    }
}

/// The characters of `s`, in order, as a vector.
fn chars_of(s: &str) -> (r: Vec<char>)
    ensures
        r@ == s@,
{
    let n = s.unicode_len();
    let mut v: Vec<char> = Vec::new();
    let mut i: usize = 0;
    while i < n
        invariant
            i <= n,
            n == s@.len(),
            v@ == s@.take(i as int),
        decreases n - i,
    {
        v.push(s.get_char(i));
        i += 1;
        proof {
            assert(v@ =~= s@.take(i as int));
        }
    }
    proof {
        assert(s@.take(n as int) =~= s@);
    }
    v
}

/// Length of the whitespace run at the front of `v[lo..hi]`.
fn count_leading_spaces(v: &Vec<char>, lo: usize, hi: usize) -> (n: usize)
    requires
        lo <= hi <= v@.len(),
    ensures
        n <= hi - lo,
        n as nat == count_leading(v@.subrange(lo as int, hi as int), space_pred()),
{
    let mut i = lo;
    let mut stop = false;
    while !stop && i < hi
        invariant
            lo <= i <= hi <= v@.len(),
            forall|j: int| lo <= j < i ==> is_space(v@[j]),
            stop ==> i < hi && !is_space(v@[i as int]),
        decreases hi - i, (if stop { 0int } else { 1int }),
    {
        let c = v[i];
        if c == ' ' || c == '\t' || c == '\n' || c == '\r' {
            i += 1;
        } else {
            stop = true;
        }
    }
    proof {
        let s = v@.subrange(lo as int, hi as int);
        assert forall|j: int| 0 <= j < i - lo implies space_pred()(s[j]) by {
            assert(s[j] == v@[lo + j]);
        }
        if i < hi {
            assert(s[i - lo] == v@[i as int]);
        }
        lemma_count_leading_is(s, space_pred(), (i - lo) as nat);
    }
    i - lo
}

/// Length of the whitespace run at the back of `v[lo..hi]`.
fn count_trailing_spaces(v: &Vec<char>, lo: usize, hi: usize) -> (n: usize)
    requires
        lo <= hi <= v@.len(),
    ensures
        n <= hi - lo,
        n as nat == count_trailing(v@.subrange(lo as int, hi as int), space_pred()),
{
    let mut j = hi;
    let mut stop = false;
    while !stop && j > lo
        invariant
            lo <= j <= hi <= v@.len(),
            forall|k: int| j <= k < hi ==> is_space(v@[k]),
            stop ==> j > lo && !is_space(v@[j - 1]),
        decreases j - lo, (if stop { 0int } else { 1int }),
    {
        let c = v[j - 1];
        if c == ' ' || c == '\t' || c == '\n' || c == '\r' {
            j -= 1;
        } else {
            stop = true;
        }
    }
    proof {
        let s = v@.subrange(lo as int, hi as int);
        let n = (hi - j) as nat;
        assert forall|k: int| s.len() - n <= k < s.len() implies space_pred()(s[k]) by {
            assert(s[k] == v@[lo + k]);
        }
        if n < s.len() {
            assert(s[s.len() - n - 1] == v@[j - 1]);
        }
        lemma_count_trailing_is(s, space_pred(), n);
    }
    hi - j
}

/// Length of the run of `ch` at the front of `v[lo..hi]`.
fn count_leading_eq(v: &Vec<char>, lo: usize, hi: usize, ch: char) -> (n: usize)
    requires
        lo <= hi <= v@.len(),
    ensures
        n <= hi - lo,
        n as nat == count_leading(v@.subrange(lo as int, hi as int), char_eq_pred(ch)),
{
    let mut i = lo;
    let mut stop = false;
    while !stop && i < hi
        invariant
            lo <= i <= hi <= v@.len(),
            forall|j: int| lo <= j < i ==> v@[j] == ch,
            stop ==> i < hi && v@[i as int] != ch,
        decreases hi - i, (if stop { 0int } else { 1int }),
    {
        if v[i] == ch {
            i += 1;
        } else {
            stop = true;
        }
    }
    proof {
        let s = v@.subrange(lo as int, hi as int);
        assert forall|j: int| 0 <= j < i - lo implies char_eq_pred(ch)(s[j]) by {
            assert(s[j] == v@[lo + j]);
        }
        if i < hi {
            assert(s[i - lo] == v@[i as int]);
        }
        lemma_count_leading_is(s, char_eq_pred(ch), (i - lo) as nat);
    }
    i - lo
}

/// Length of the run of `ch` at the back of `v[lo..hi]`.
fn count_trailing_eq(v: &Vec<char>, lo: usize, hi: usize, ch: char) -> (n: usize)
    requires
        lo <= hi <= v@.len(),
    ensures
        n <= hi - lo,
        n as nat == count_trailing(v@.subrange(lo as int, hi as int), char_eq_pred(ch)),
{
    let mut j = hi;
    let mut stop = false;
    while !stop && j > lo
        invariant
            lo <= j <= hi <= v@.len(),
            forall|k: int| j <= k < hi ==> v@[k] == ch,
            stop ==> j > lo && v@[j - 1] != ch,
        decreases j - lo, (if stop { 0int } else { 1int }),
    {
        if v[j - 1] == ch {
            j -= 1;
        } else {
            stop = true;
        }
    }
    proof {
        let s = v@.subrange(lo as int, hi as int);
        let n = (hi - j) as nat;
        assert forall|k: int| s.len() - n <= k < s.len() implies char_eq_pred(ch)(s[k]) by {
            assert(s[k] == v@[lo + k]);
        }
        if n < s.len() {
            assert(s[s.len() - n - 1] == v@[j - 1]);
        }
        lemma_count_trailing_is(s, char_eq_pred(ch), n);
    }
    hi - j
}

/// Length of the run of characters other than `ch` at the front of
/// `v[lo..hi]`: the distance to the first `ch`, or the whole range.
fn count_leading_ne(v: &Vec<char>, lo: usize, hi: usize, ch: char) -> (n: usize)
    requires
        lo <= hi <= v@.len(),
    ensures
        n <= hi - lo,
        n as nat == count_leading(v@.subrange(lo as int, hi as int), char_ne_pred(ch)),
{
    let mut i = lo;
    let mut stop = false;
    while !stop && i < hi
        invariant
            lo <= i <= hi <= v@.len(),
            forall|j: int| lo <= j < i ==> v@[j] != ch,
            stop ==> i < hi && v@[i as int] == ch,
        decreases hi - i, (if stop { 0int } else { 1int }),
    {
        if v[i] != ch {
            i += 1;
        } else {
            stop = true;
        }
    }
    proof {
        let s = v@.subrange(lo as int, hi as int);
        assert forall|j: int| 0 <= j < i - lo implies char_ne_pred(ch)(s[j]) by {
            assert(s[j] == v@[lo + j]);
        }
        if i < hi {
            assert(s[i - lo] == v@[i as int]);
        }
        lemma_count_leading_is(s, char_ne_pred(ch), (i - lo) as nat);
    }
    i - lo
}

/// Parses one component of the measured pair out of `v[lo..hi]`, falling
/// back to `default` when it is not a plain decimal number that fits.
fn parse_part(v: &Vec<char>, lo: usize, hi: usize, default: u32) -> (r: u32)
    requires
        lo <= hi <= v@.len(),
    ensures
        r == spec_parse_part(v@.subrange(lo as int, hi as int), default),
{
    let ghost s = v@.subrange(lo as int, hi as int);
    let a = count_leading_spaces(v, lo, hi);
    let b = count_trailing_spaces(v, lo + a, hi);
    let start = lo + a;
    let end = hi - b;
    let ghost t = spec_trim_ws(s);
    proof {
        assert(trim_leading(s, space_pred()) =~= v@.subrange(start as int, hi as int));
        assert(t =~= v@.subrange(start as int, end as int));
    }
    if start == end {
        proof {
            assert(t.len() == 0);
        }
        return default;
    }
    let mut i = start;
    let mut acc: u64 = 0;
    while i < end
        invariant
            lo <= start <= i <= end <= hi <= v@.len(),
            s == v@.subrange(lo as int, hi as int),
            t == spec_trim_ws(s),
            t == v@.subrange(start as int, end as int),
            t.len() == end - start,
            forall|j: int| 0 <= j < i - start ==> is_digit(t[j]),
            acc <= u32::MAX,
            acc as int == digits_val(t.take(i - start)),
        decreases end - i,
    {
        let c = v[i];
        let u = c as u32;
        if u < 48 || u > 57 {
            proof {
                assert(t[i - start] == v@[i as int]);
                assert(!is_digit(t[i - start]));
                assert(!all_digits(t));
            }
            return default;
        }
        let d = (u - 48) as u64;
        let next = acc * 10 + d;
        proof {
            assert(t.take(i - start + 1).drop_last() =~= t.take(i - start));
            assert(t.take(i - start + 1).last() == t[i - start]);
            assert(t[i - start] == v@[i as int]);
            assert(digits_val(t.take(i - start + 1)) == next as int);
        }
        if next > u32::MAX as u64 {
            proof {
                if all_digits(t) {
                    lemma_digits_val_prefix(t, i - start + 1);
                }
            }
            return default;
        }
        acc = next;
        i += 1;
    }
    proof {
        assert(t.take(end - start) =~= t);
        assert(all_digits(t));
    }
    acc as u32
}

/// Reads the content extent from the raw measured value. A value that is
/// not a well-shaped pair of decimal numbers yields the fixed default
/// extent, component by component.
#[verifier::rlimit(50)]
pub fn parse_dimensions(s: &str) -> (r: (u32, u32))
    ensures
        r == spec_parse_dimensions(s@),
{
    let v = chars_of(s);
    let n = v.len();
    let a = count_leading_spaces(&v, 0, n);
    let b = count_trailing_spaces(&v, a, n);
    let c = count_leading_eq(&v, a, n - b, '[');
    let d = count_trailing_eq(&v, a + c, n - b, ']');
    let lo = a + c;
    let hi = n - b - d;
    let ghost inner = spec_inner(s@);
    proof {
        assert(v@.subrange(0, n as int) =~= s@);
        assert(trim_leading(s@, space_pred()) =~= v@.subrange(a as int, n as int));
        assert(spec_trim_ws(s@) =~= v@.subrange(a as int, (n - b) as int));
        assert(trim_leading(spec_trim_ws(s@), char_eq_pred('[')) =~= v@.subrange(
            lo as int,
            (n - b) as int,
        ));
        assert(inner =~= v@.subrange(lo as int, hi as int));
    }
    let k = count_leading_ne(&v, lo, hi, ',');
    let width = parse_part(&v, lo, lo + k, DEFAULT_CONTENT_WIDTH);
    proof {
        assert(inner.take(k as int) =~= v@.subrange(lo as int, (lo + k) as int));
    }
    if lo + k == hi {
        (width, DEFAULT_CONTENT_HEIGHT)
    } else {
        let ghost rest = inner.skip(k + 1);
        proof {
            assert(rest =~= v@.subrange((lo + k + 1) as int, hi as int));
        }
        let k2 = count_leading_ne(&v, lo + k + 1, hi, ',');
        let height = parse_part(&v, lo + k + 1, lo + k + 1 + k2, DEFAULT_CONTENT_HEIGHT);
        proof {
            assert(rest.take(k2 as int) =~= v@.subrange(
                (lo + k + 1) as int,
                (lo + k + 1 + k2) as int,
            ));
        }
        (width, height)
    }
}

} // verus!
