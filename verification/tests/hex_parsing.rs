use orange_classifier::orange::{determine_orange, orange_hex};

#[test]
fn valid_hex_is_classified() {
    let res = orange_hex(String::from("FFA500")).unwrap();
    assert_eq!(res.color, "#FFA500");
    assert_eq!(res.is_orange, true);
}

#[test]
fn lowercase_hex_is_accepted() {
    let res = orange_hex(String::from("ffa500")).unwrap();
    assert_eq!(res.color, "#ffa500");
    assert_eq!(res.is_orange, true);
}

#[test]
fn black_hex_is_not_orange() {
    let res = orange_hex(String::from("000000")).unwrap();
    assert_eq!(res.color, "#000000");
    assert_eq!(res.is_orange, false);
}

#[test]
fn hex_round_trip_matches_rgb_classification() {
    // C83232 encodes (200, 50, 50); 969664 encodes (150, 150, 100).
    let hex = orange_hex(String::from("C83232")).unwrap();
    assert_eq!(hex.is_orange, determine_orange(200, 50, 50));
    let hex2 = orange_hex(String::from("969664")).unwrap();
    assert_eq!(hex2.is_orange, determine_orange(150, 150, 100));
}

#[test]
fn hex_channels_are_read_high_digit_first() {
    // 103070 encodes (16, 48, 112): each pair must not collapse or swap.
    let res = orange_hex(String::from("103070")).unwrap();
    assert_eq!(res.color, "#103070");
    assert_eq!(res.is_orange, false);
    let res2 = orange_hex(String::from("FF00FF")).unwrap();
    assert_eq!(res2.is_orange, determine_orange(255, 0, 255));
}

#[test]
fn too_short_hex_is_rejected() {
    assert!(matches!(orange_hex(String::from("FFA50")), Err("invalid input hex")));
}

#[test]
fn too_long_hex_is_rejected() {
    assert!(matches!(orange_hex(String::from("FFA5000")), Err("invalid input hex")));
}

#[test]
fn empty_hex_is_rejected() {
    assert!(matches!(orange_hex(String::from("")), Err("invalid input hex")));
}

#[test]
fn non_hex_characters_are_rejected() {
    assert!(matches!(orange_hex(String::from("GGGGGG")), Err("invalid input hex")));
    assert!(matches!(orange_hex(String::from("+FA500")), Err("invalid input hex")));
    assert!(matches!(orange_hex(String::from("FFA50 ")), Err("invalid input hex")));
}

#[test]
fn non_ascii_input_is_rejected() {
    assert!(matches!(orange_hex(String::from("ééé")), Err("invalid input hex")));
}
