use vstd::prelude::*;

verus! {

/// Pixels of viewport width granted per terminal column when no explicit
/// width is given.
pub const PIXELS_PER_COLUMN: u32 = 8;

/// Upper bound on the viewport width derived from terminal geometry.
pub const MAX_VIEWPORT_WIDTH: u32 = 1200;

/// The fixed initial window height: content height is unknown until measured.
pub const DEFAULT_VIEWPORT_HEIGHT: u32 = 800;

/// Upper bound on the number of terminal columns used for inline display.
pub const MAX_DISPLAY_COLS: u16 = 150;

/// The viewport width of the session: an explicit user value wins outright;
/// otherwise the width scales with the terminal and is capped.
pub open spec fn spec_viewport_width(explicit: Option<u32>, term_cols: u16) -> u32 {
    match explicit {
        Some(v) => v,
        None => if term_cols as int * PIXELS_PER_COLUMN as int <= MAX_VIEWPORT_WIDTH as int {
            (term_cols as int * PIXELS_PER_COLUMN as int) as u32
        } else {
            MAX_VIEWPORT_WIDTH
        },
    }
}

/// Resolves the viewport width in pixels from an optional explicit override
/// and the terminal width in columns.
pub fn resolve_viewport_width(explicit: Option<u32>, term_cols: u16) -> (r: u32)
    ensures
        r == spec_viewport_width(explicit, term_cols),
{
    match explicit {
        Some(v) => v,
        None => {
            let scaled = (term_cols as u32) * PIXELS_PER_COLUMN;
            if scaled <= MAX_VIEWPORT_WIDTH {
                scaled
            } else {
                MAX_VIEWPORT_WIDTH
            }
        },
    }
}

/// The number of columns an image occupies in the terminal: the reported
/// terminal width, but never more than the fixed cap.
pub fn terminal_display_width(term_cols: u16) -> (r: u16)
    ensures
        r == if term_cols <= MAX_DISPLAY_COLS {
            term_cols
        } else {
            MAX_DISPLAY_COLS
        },
        r <= MAX_DISPLAY_COLS,
{
    if term_cols <= MAX_DISPLAY_COLS {
        term_cols
    } else {
        MAX_DISPLAY_COLS
    }
}

/// The per-user location of the browser preview page: under the home
/// directory when one is known, else a fixed fallback.
pub fn browser_html_path(home: Option<&str>) -> (r: String)
    ensures
        home matches Some(h) ==> r@ == h@ + "/mdvew/preview.html"@,
        home is None ==> r@ == "/tmp/mdvew-preview.html"@,
{
    match home {
        Some(h) => {
            let mut s = String::from_str(h);
            s.append("/mdvew/preview.html");
            s
        },
        None => String::from_str("/tmp/mdvew-preview.html"),
    }
}

} // verus!
