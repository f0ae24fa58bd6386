use mdvew::geometry::{browser_html_path, resolve_viewport_width, terminal_display_width};

#[test]
fn viewport_width_scales_with_terminal() {
    assert_eq!(resolve_viewport_width(None, 100), 800);
    assert_eq!(resolve_viewport_width(None, 80), 640);
}

#[test]
fn viewport_width_is_capped() {
    assert_eq!(resolve_viewport_width(None, 200), 1200);
    assert_eq!(resolve_viewport_width(None, 150), 1200);
    assert_eq!(resolve_viewport_width(None, 151), 1200);
    assert_eq!(resolve_viewport_width(None, u16::MAX), 1200);
}

#[test]
fn explicit_viewport_width_wins() {
    assert_eq!(resolve_viewport_width(Some(999), 50), 999);
    assert_eq!(resolve_viewport_width(Some(5000), 50), 5000);
    assert_eq!(resolve_viewport_width(Some(1), u16::MAX), 1);
}

#[test]
fn display_width_never_exceeds_cap() {
    assert_eq!(terminal_display_width(80), 80);
    assert_eq!(terminal_display_width(150), 150);
    assert_eq!(terminal_display_width(151), 150);
    assert_eq!(terminal_display_width(u16::MAX), 150);
}

#[test]
fn preview_path_under_home() {
    assert_eq!(
        browser_html_path(Some("/home/someone")),
        "/home/someone/mdvew/preview.html"
    );
}

#[test]
fn preview_path_fallback_without_home() {
    assert_eq!(browser_html_path(None), "/tmp/mdvew-preview.html");
}
