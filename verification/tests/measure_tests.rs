use mdvew::measure::parse_dimensions;

#[test]
fn plain_pair_parses() {
    assert_eq!(parse_dimensions("[800, 600]"), (800, 600));
    assert_eq!(parse_dimensions("[1024,768]"), (1024, 768));
}

#[test]
fn surrounding_whitespace_is_ignored() {
    assert_eq!(parse_dimensions("  [ 12 , 34 ]  "), (12, 34));
    assert_eq!(parse_dimensions("\n[7,9]\t"), (7, 9));
}

#[test]
fn unparseable_value_falls_back_to_default() {
    assert_eq!(parse_dimensions("garbage"), (800, 600));
    assert_eq!(parse_dimensions(""), (800, 600));
    assert_eq!(parse_dimensions("[]"), (800, 600));
    assert_eq!(parse_dimensions("[,]"), (800, 600));
}

#[test]
fn each_component_falls_back_independently() {
    assert_eq!(parse_dimensions("[800]"), (800, 600));
    assert_eq!(parse_dimensions("[, 600]"), (800, 600));
    assert_eq!(parse_dimensions("[x, 480]"), (800, 480));
    assert_eq!(parse_dimensions("[640, y]"), (640, 600));
}

#[test]
fn negative_or_fractional_components_fall_back() {
    assert_eq!(parse_dimensions("[-5, 7]"), (800, 7));
    assert_eq!(parse_dimensions("[3.5, 7]"), (800, 7));
}

#[test]
fn oversized_component_falls_back() {
    assert_eq!(parse_dimensions("[99999999999999999999, 5]"), (800, 5));
    assert_eq!(parse_dimensions("[4294967295, 4294967296]"), (4294967295, 600));
}

#[test]
fn extra_components_are_ignored() {
    assert_eq!(parse_dimensions("[800, 600, 700]"), (800, 600));
}

#[test]
fn zero_components_parse() {
    assert_eq!(parse_dimensions("[0, 0]"), (0, 0));
}
