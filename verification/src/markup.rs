use vstd::prelude::*;

verus! {

/// The markup rendered for a given markdown text: the exact output of the
/// markdown engine on that text. The rendering is a pure function of the
/// text alone; its full definition lives in the engine, so it is only named
/// here, never restated.
pub uninterp spec fn html_of(markdown: Seq<char>) -> Seq<char>;

/// Relies on pulldown_cmark's `Parser::new_ext` and `html::push_html`:
/// a deterministic text-to-text transform of the markdown input, with
/// tables, strikethrough, task lists and footnotes enabled.
#[verifier::external_body]
pub fn markdown_to_html(markdown_text: &str) -> (r: String)
    ensures
        r@ == html_of(markdown_text@),
{
    let options = pulldown_cmark::Options::ENABLE_TABLES
        | pulldown_cmark::Options::ENABLE_STRIKETHROUGH
        | pulldown_cmark::Options::ENABLE_TASKLISTS
        | pulldown_cmark::Options::ENABLE_FOOTNOTES;
    let parser = pulldown_cmark::Parser::new_ext(markdown_text, options);
    let mut html_output = String::new();
    pulldown_cmark::html::push_html(&mut html_output, parser);
    html_output
}

/// Everything of the page that stands before the base reference.
pub open spec fn page_head() -> Seq<char> {
    "<!DOCTYPE html>\n<html>\n<head>\n<meta charset=\"UTF-8\">\n"@
}

/// Everything between the base reference and the body content: the embedded
/// stylesheet (a constant asset, never fetched at runtime) and the opening
/// of the article that holds the content.
pub open spec fn page_style_and_open() -> Seq<char> {
    "<style>\nbody { box-sizing: border-box; min-width: 200px; max-width: 980px; margin: 0 auto; padding: 45px; font-family: sans-serif; line-height: 150%; color: #1f2328; background-color: #ffffff; }\npre, code { font-family: monospace; background-color: #f6f8fa; }\nh1, h2 { border-bottom: 1px solid #d1d9e0; }\n</style>\n</head>\n<body class=\"markdown-body\">\n<article>\n"@
}

/// Everything of the page that stands after the body content.
pub open spec fn page_tail() -> Seq<char> {
    "\n</article>\n</body>\n</html>\n"@
}

/// The base reference for a source whose canonical parent directory is
/// `parent`: empty when the source path resolved to no filesystem entry,
/// else exactly one reference to that directory.
pub open spec fn spec_base_tag(parent: Option<Seq<char>>) -> Seq<char> {
    match parent {
        Some(p) => "<base href=\"file://"@ + p + "/\">"@,
        None => Seq::<char>::empty(),
    }
}

/// The complete, self-contained page for a given base reference and body
/// content: fixed template pieces with the two variable parts substituted
/// once each.
pub open spec fn spec_page(base_tag: Seq<char>, content: Seq<char>) -> Seq<char> {
    page_head() + base_tag + page_style_and_open() + content + page_tail()
}

/// The view of an optional canonical parent directory.
pub open spec fn spec_parent(canonical_parent: Option<&str>) -> Option<Seq<char>> {
    match canonical_parent {
        Some(p) => Some(p@),
        None => None,
    }
}

/// Builds the base reference of the page. `canonical_parent` is the
/// canonicalized parent directory of the source path, or `None` when the
/// source does not resolve to an existing filesystem entry; in that case
/// the reference is omitted entirely.
pub fn build_base_tag(canonical_parent: Option<&str>) -> (r: String)
    ensures
        r@ == spec_base_tag(spec_parent(canonical_parent)),
{
    match canonical_parent {
        Some(p) => {
            let mut s = String::from_str("<base href=\"file://");
            s.append(p);
            s.append("/\">");
            s
        },
        None => String::new(),
    }
}

/// Builds the complete page: template, base reference, embedded stylesheet
/// and the converted body markup, each substituted exactly once. The body
/// markup is trusted pre-rendered markup; no escaping is re-applied.
pub fn build_full_html(markdown_text: &str, canonical_parent: Option<&str>) -> (r: String)
    ensures
        r@ == spec_page(spec_base_tag(spec_parent(canonical_parent)), html_of(markdown_text@)),
{
    let html_content = markdown_to_html(markdown_text);
    let base_tag = build_base_tag(canonical_parent);

    let mut page = String::from_str("<!DOCTYPE html>\n<html>\n<head>\n<meta charset=\"UTF-8\">\n");
    page.append(base_tag.as_str());
    page.append(
        "<style>\nbody { box-sizing: border-box; min-width: 200px; max-width: 980px; margin: 0 auto; padding: 45px; font-family: sans-serif; line-height: 150%; color: #1f2328; background-color: #ffffff; }\npre, code { font-family: monospace; background-color: #f6f8fa; }\nh1, h2 { border-bottom: 1px solid #d1d9e0; }\n</style>\n</head>\n<body class=\"markdown-body\">\n<article>\n",
    );
    page.append(html_content.as_str());
    page.append("\n</article>\n</body>\n</html>\n");
    page
}

/// The substitution is structural: the built page decomposes back into its
/// pieces. The body content and the base reference each occur at exactly one
/// fixed place, and cutting the page there yields them back unchanged.
pub proof fn lemma_page_round_trip(base_tag: Seq<char>, content: Seq<char>)
    ensures
        spec_page(base_tag, content).len() == page_head().len() + base_tag.len()
            + page_style_and_open().len() + content.len() + page_tail().len(),
        spec_page(base_tag, content).subrange(
            page_head().len() as int,
            (page_head().len() + base_tag.len()) as int,
        ) == base_tag,
        spec_page(base_tag, content).subrange(
            (page_head().len() + base_tag.len() + page_style_and_open().len()) as int,
            (page_head().len() + base_tag.len() + page_style_and_open().len()
                + content.len()) as int,
        ) == content,
{
    let page = spec_page(base_tag, content);
    assert(page.subrange(
        page_head().len() as int,
        (page_head().len() + base_tag.len()) as int,
    ) =~= base_tag);
    assert(page.subrange(
        (page_head().len() + base_tag.len() + page_style_and_open().len()) as int,
        (page_head().len() + base_tag.len() + page_style_and_open().len() + content.len()) as int,
    ) =~= content);
}

} // verus!
