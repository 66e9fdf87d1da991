use widget_core::degrees::Degrees;
use widget_core::text::{ends_with, same_text};
use widget_core::transform::{
    first_unsupported, is_rotate, numeric_text, rotation_texts, rotations_match, Attribute,
    Transform,
};

fn degrees(number: f32) -> Degrees {
    Degrees::from_bits(number.to_bits())
}

fn read_number(text: &str) -> Option<Degrees> {
    text.parse::<f32>().ok().map(degrees)
}

fn rotate(text: &str) -> Attribute {
    Attribute { name: "rotate".to_string(), text: Some(text.to_string()) }
}

fn resolve(transform: &mut Transform, text: &str) -> bool {
    let attributes = vec![rotate(text)];
    assert_eq!(first_unsupported(&attributes), None);
    transform.update(&attributes, read_number)
}

fn resolved(text: &str) -> Option<f32> {
    let mut transform = Transform::default();
    resolve(&mut transform, text);
    transform.rotate_degs.map(|angle| f32::from_bits(angle.to_bits()))
}

#[test]
fn plain_decimals_resolve_to_their_value() {
    assert_eq!(resolved("45deg"), Some(45.0));
    assert_eq!(resolved("0deg"), Some(0.0));
    assert_eq!(resolved("-12.5deg"), Some(-12.5));
    assert_eq!(resolved("007deg"), Some(7.0));
    assert_eq!(resolved("360.25deg"), Some(360.25));
    assert_eq!(resolved("-0.001deg"), Some(-0.001));
}

#[test]
fn stored_pattern_is_that_of_the_number() {
    let mut transform = Transform::default();
    resolve(&mut transform, "10deg");
    assert_eq!(transform.rotate_degs.map(Degrees::to_bits), Some(0x4120_0000));
    resolve(&mut transform, "-1deg");
    assert_eq!(transform.rotate_degs.map(Degrees::to_bits), Some(0xbf80_0000));
}

#[test]
fn text_without_the_unit_is_unset() {
    assert_eq!(resolved("10px"), None);
    assert_eq!(resolved("10"), None);
    assert_eq!(resolved(""), None);
    assert_eq!(resolved("deg10"), None);
    assert_eq!(resolved("10deg "), None);
    assert_eq!(resolved("10DEG"), None);
    assert_eq!(resolved("10de"), None);
    assert_eq!(resolved("eg"), None);
}

#[test]
fn text_that_is_no_number_is_unset() {
    assert_eq!(resolved("abcdeg"), None);
    assert_eq!(resolved("deg"), None);
    assert_eq!(resolved("degdeg"), None);
    assert_eq!(resolved("1deg2deg"), None);
    assert_eq!(resolved(" 10deg"), None);
    assert_eq!(resolved("10 deg"), None);
    assert_eq!(resolved("--1deg"), None);
    assert_eq!(resolved("1.2.3deg"), None);
    assert_eq!(resolved("½deg"), None);
}

#[test]
fn other_spellings_of_a_number_resolve_too() {
    assert_eq!(resolved("1e2deg"), Some(100.0));
    assert_eq!(resolved(".5deg"), Some(0.5));
    assert_eq!(resolved("5.deg"), Some(5.0));
    assert_eq!(resolved("+90deg"), Some(90.0));
    assert_eq!(resolved("infdeg"), Some(f32::INFINITY));
    assert_eq!(resolved("-infinitydeg"), Some(f32::NEG_INFINITY));
}

#[test]
fn same_text_twice_reports_no_change() {
    for text in ["20deg", "-3.5deg", "0deg", "abcdeg", "10px", "", "1e2deg", "infdeg"] {
        let mut transform = Transform::default();
        resolve(&mut transform, text);
        let kept = transform;
        assert!(!resolve(&mut transform, text), "{text}");
        assert_eq!(transform.rotate_degs.map(Degrees::to_bits), kept.rotate_degs.map(Degrees::to_bits));
    }
}

#[test]
fn same_text_twice_after_another_reports_no_change() {
    let mut transform = Transform::default();
    assert!(resolve(&mut transform, "90deg"));
    assert!(resolve(&mut transform, "45deg"));
    assert!(!resolve(&mut transform, "45deg"));
    assert!(!resolve(&mut transform, "45.0deg"));
    assert!(!resolve(&mut transform, "4.5e1deg"));
}

#[test]
fn ten_after_twenty_is_a_change() {
    let mut transform = Transform::default();
    assert!(resolve(&mut transform, "20deg"));
    assert_eq!(transform.rotate_degs.map(Degrees::to_bits), Some(20.0f32.to_bits()));
    assert!(resolve(&mut transform, "10deg"));
    assert_eq!(transform.rotate_degs.map(Degrees::to_bits), Some(10.0f32.to_bits()));
    assert_eq!(transform, Transform { rotate_degs: Some(degrees(10.0)) });
}

#[test]
fn first_resolution_of_an_unrotated_node() {
    let mut transform = Transform::default();
    assert_eq!(transform.rotate_degs.map(Degrees::to_bits), None);
    assert!(!resolve(&mut transform, "10px"));
    assert!(!transform.update(&Vec::new(), read_number));
    assert!(resolve(&mut transform, "0deg"));
}

#[test]
fn losing_the_rotation_is_a_change() {
    let mut transform = Transform::default();
    assert!(resolve(&mut transform, "20deg"));
    assert!(resolve(&mut transform, "abcdeg"));
    assert_eq!(transform.rotate_degs.map(Degrees::to_bits), None);
    assert!(resolve(&mut transform, "20deg"));
    assert!(transform.update(&Vec::new(), read_number));
    assert_eq!(transform, Transform::default());
}

#[test]
fn not_a_number_always_counts_as_a_change() {
    let mut transform = Transform::default();
    assert!(resolve(&mut transform, "NaNdeg"));
    assert!(transform.rotate_degs.map_or(false, Degrees::not_a_number));
    assert!(resolve(&mut transform, "NaNdeg"));
    assert!(resolve(&mut transform, "-nandeg"));
    assert!(transform != transform);
}

#[test]
fn the_two_zeros_are_one_rotation() {
    let mut transform = Transform::default();
    assert!(resolve(&mut transform, "0deg"));
    assert!(!resolve(&mut transform, "-0deg"));
    assert_eq!(transform.rotate_degs.map(Degrees::to_bits), Some(0x8000_0000));
    assert!(!resolve(&mut transform, "0.0deg"));
    assert_eq!(transform.rotate_degs.map(Degrees::to_bits), Some(0));
}

#[test]
fn value_that_is_no_text_is_unset() {
    let mut transform = Transform { rotate_degs: Some(degrees(5.0)) };
    let attributes = vec![Attribute { name: "rotate".to_string(), text: None }];
    assert!(transform.update(&attributes, read_number));
    assert_eq!(transform.rotate_degs.map(Degrees::to_bits), None);
}

#[test]
fn last_attribute_that_reads_wins() {
    let mut transform = Transform::default();
    assert!(transform.update(&vec![rotate("10deg"), rotate("20deg")], read_number));
    assert_eq!(transform.rotate_degs.map(Degrees::to_bits), Some(20.0f32.to_bits()));
    assert!(transform.update(&vec![rotate("10deg"), rotate("abcdeg"), rotate("7px")], read_number));
    assert_eq!(transform.rotate_degs.map(Degrees::to_bits), Some(10.0f32.to_bits()));
    assert!(transform.update(&vec![rotate("xdeg"), rotate("ydeg")], read_number));
    assert_eq!(transform.rotate_degs.map(Degrees::to_bits), None);
}

#[test]
fn reader_sees_the_numeric_parts_in_order() {
    let attributes = vec![
        rotate("10deg"),
        rotate("10px"),
        Attribute { name: "rotate".to_string(), text: None },
        rotate("abcdeg"),
        rotate("deg"),
        rotate("1deg2deg"),
    ];
    assert_eq!(rotation_texts(&attributes), vec!["10", "abc", "", "1deg2"]);
    assert_eq!(rotation_texts(&Vec::new()), Vec::<&str>::new());
}

#[test]
fn reader_alone_decides_what_a_number_is() {
    let mut transform = Transform::default();
    let attributes = vec![rotate("onedeg"), rotate("2deg")];
    let words = |text: &str| if text == "one" { Some(Degrees::from_bits(1)) } else { None };
    assert!(transform.update(&attributes, words));
    assert_eq!(transform.rotate_degs.map(Degrees::to_bits), Some(1));
}

#[test]
fn apply_takes_the_last_reading_that_gave_a_number() {
    let mut transform = Transform::default();
    assert!(!transform.apply(&Vec::new()));
    assert!(!transform.apply(&vec![None, None]));
    assert!(transform.apply(&vec![Some(degrees(1.0)), None, Some(degrees(2.0)), None]));
    assert_eq!(transform.rotate_degs.map(Degrees::to_bits), Some(2.0f32.to_bits()));
    assert!(!transform.apply(&vec![Some(degrees(2.0))]));
    assert!(transform.apply(&vec![Some(degrees(2.0)), Some(degrees(3.0))]));
    assert!(transform.apply(&vec![None]));
    assert_eq!(transform.rotate_degs.map(Degrees::to_bits), None);
}

#[test]
fn unit_comes_off_the_end_only() {
    assert_eq!(numeric_text("10deg"), Some("10"));
    assert_eq!(numeric_text("deg"), Some(""));
    assert_eq!(numeric_text("degdeg"), Some("deg"));
    assert_eq!(numeric_text("½°deg"), Some("½°"));
    assert_eq!(numeric_text("10px"), None);
    assert_eq!(numeric_text("deg10"), None);
    assert_eq!(numeric_text("10Deg"), None);
    assert_eq!(numeric_text("eg"), None);
    assert_eq!(numeric_text(""), None);
}

#[test]
fn only_rotate_is_supported() {
    assert!(is_rotate("rotate"));
    assert!(!is_rotate("Rotate"));
    assert!(!is_rotate("rotat"));
    assert!(!is_rotate("rotates"));
    assert!(!is_rotate("width"));
    assert!(!is_rotate(""));
}

#[test]
fn first_unsupported_attribute_is_found() {
    let other = |name: &str| Attribute { name: name.to_string(), text: Some("1deg".to_string()) };
    assert_eq!(first_unsupported(&Vec::new()), None);
    assert_eq!(first_unsupported(&vec![rotate("1deg"), rotate("x")]), None);
    assert_eq!(first_unsupported(&vec![other("width")]), Some(0));
    assert_eq!(first_unsupported(&vec![rotate("1deg"), other("width"), other("height")]), Some(1));
    assert_eq!(first_unsupported(&vec![rotate("1deg"), rotate("2deg"), other("Rotate")]), Some(2));
}

#[test]
fn rotations_compare_as_numbers() {
    assert!(rotations_match(None, None));
    assert!(!rotations_match(None, Some(degrees(0.0))));
    assert!(!rotations_match(Some(degrees(0.0)), None));
    assert!(rotations_match(Some(degrees(1.5)), Some(degrees(1.5))));
    assert!(!rotations_match(Some(degrees(1.5)), Some(degrees(-1.5))));
    assert!(rotations_match(Some(degrees(0.0)), Some(degrees(-0.0))));
    assert!(!rotations_match(Some(degrees(f32::NAN)), Some(degrees(f32::NAN))));
    assert!(rotations_match(Some(degrees(f32::INFINITY)), Some(degrees(f32::INFINITY))));
    assert!(!rotations_match(Some(degrees(f32::INFINITY)), Some(degrees(f32::NEG_INFINITY))));
}

#[test]
fn angles_compare_as_the_numbers_do() {
    let samples = [
        0.0f32,
        -0.0,
        1.0,
        -1.0,
        10.0,
        f32::MIN_POSITIVE,
        1.0e-45,
        f32::MAX,
        f32::MIN,
        f32::INFINITY,
        f32::NEG_INFINITY,
        f32::NAN,
        -f32::NAN,
        f32::from_bits(0x7f80_0001),
        f32::from_bits(0xffff_ffff),
    ];
    for a in samples {
        assert_eq!(degrees(a).not_a_number(), a.is_nan());
        assert_eq!(degrees(a).to_bits(), a.to_bits());
        for b in samples {
            assert_eq!(degrees(a) == degrees(b), a == b, "{a} {b}");
        }
    }
}

#[test]
fn transform_copies_and_prints() {
    let transform = Transform { rotate_degs: Some(degrees(10.0)) };
    let copy = transform.clone();
    assert_eq!(copy, transform);
    assert_ne!(transform, Transform::default());
    assert_eq!(format!("{:?}", Transform::default()), "Transform { rotate_degs: None }");
}

#[test]
fn suffixes_and_equal_texts() {
    assert!(ends_with("10deg", "deg"));
    assert!(ends_with("deg", "deg"));
    assert!(ends_with("deg", ""));
    assert!(ends_with("", ""));
    assert!(!ends_with("eg", "deg"));
    assert!(!ends_with("degree", "deg"));
    assert!(ends_with("naïve", "ïve"));
    assert!(!ends_with("naive", "ïve"));
    assert!(same_text("rotate", "rotate"));
    assert!(same_text("", ""));
    assert!(!same_text("rotate", "rotat"));
    assert!(!same_text("otate", "rotate"));
    assert!(!same_text("é", "e"));
}
