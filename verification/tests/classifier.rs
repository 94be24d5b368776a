use orange_classifier::orange::{determine_orange, orange_hex, orange_rgb};

#[test]
fn orange_triple_is_orange() {
    assert_eq!(determine_orange(200, 50, 50), true);
}

#[test]
fn black_is_not_orange() {
    assert_eq!(determine_orange(0, 0, 0), false);
}

#[test]
fn red_boundary_is_not_orange() {
    assert_eq!(determine_orange(150, 50, 50), false);
}

#[test]
fn just_inside_all_boundaries_is_orange() {
    assert_eq!(determine_orange(151, 169, 99), true);
}

#[test]
fn green_boundary_is_not_orange() {
    assert_eq!(determine_orange(200, 170, 50), false);
}

#[test]
fn blue_boundary_is_not_orange() {
    assert_eq!(determine_orange(200, 50, 100), false);
}

#[test]
fn classifier_is_idempotent() {
    let first = determine_orange(255, 165, 0);
    let second = determine_orange(255, 165, 0);
    assert_eq!(first, second);
    let hex_first = orange_hex(String::from("FFA500")).unwrap();
    let hex_second = orange_hex(String::from("FFA500")).unwrap();
    assert_eq!(hex_first.color, hex_second.color);
    assert_eq!(hex_first.is_orange, hex_second.is_orange);
}

#[test]
fn rgb_echoes_input_and_verdict() {
    let res = orange_rgb(255, 165, 0);
    assert_eq!(res.color, "r255 g165 b0");
    assert_eq!(res.is_orange, true);
}

#[test]
fn rgb_single_digit_channels() {
    let res = orange_rgb(7, 8, 9);
    assert_eq!(res.color, "r7 g8 b9");
    assert_eq!(res.is_orange, false);
}

#[test]
fn rgb_two_digit_channels() {
    let res = orange_rgb(151, 42, 10);
    assert_eq!(res.color, "r151 g42 b10");
    assert_eq!(res.is_orange, true);
}

#[test]
fn display_line_matches_format() {
    let res = orange_rgb(255, 165, 0);
    assert_eq!(res.display(), "color r255 g165 b0 is_orange true");
    let not = orange_rgb(0, 0, 0);
    assert_eq!(not.display(), "color r0 g0 b0 is_orange false");
}
