use ogcapi_features::BboxParseError;
use ogcapi_features::is_float_text;
use ogcapi_features::parse_bbox_text;
use ogcapi_features::parse_i32;
use ogcapi_features::split_commas;
use ogcapi_features::str_eq;
use ogcapi_features::u64_to_string;

#[test]
fn integers_render_in_decimal() {
    assert_eq!(u64_to_string(0), "0");
    assert_eq!(u64_to_string(7), "7");
    assert_eq!(u64_to_string(10), "10");
    assert_eq!(u64_to_string(907), "907");
    assert_eq!(u64_to_string(u64::MAX), "18446744073709551615");
}

#[test]
fn feature_ids_parse_like_standard_integers() {
    assert_eq!(parse_i32("0"), Some(0));
    assert_eq!(parse_i32("42"), Some(42));
    assert_eq!(parse_i32("+0009"), Some(9));
    assert_eq!(parse_i32("-17"), Some(-17));
    assert_eq!(parse_i32("2147483647"), Some(i32::MAX));
    assert_eq!(parse_i32("-2147483648"), Some(i32::MIN));
    assert_eq!(parse_i32("2147483648"), None);
    assert_eq!(parse_i32("-2147483649"), None);
    assert_eq!(parse_i32("99999999999999999999"), None);
    assert_eq!(parse_i32(""), None);
    assert_eq!(parse_i32("+"), None);
    assert_eq!(parse_i32("-"), None);
    assert_eq!(parse_i32("abc"), None);
    assert_eq!(parse_i32("12a"), None);
    assert_eq!(parse_i32(" 5"), None);
    assert_eq!(parse_i32("1.5"), None);
}

#[test]
fn string_equality_compares_characters() {
    assert!(str_eq("countries", "countries"));
    assert!(!str_eq("countries", "countrie"));
    assert!(!str_eq("countries", "Countries"));
    assert!(str_eq("", ""));
}

#[test]
fn splitting_keeps_every_comma_separated_part() {
    let parts = split_commas("a,b,,c");
    assert_eq!(parts, vec!["a", "b", "", "c"]);
    assert_eq!(split_commas(""), vec![""]);
    assert_eq!(split_commas(","), vec!["", ""]);
    assert_eq!(split_commas("5.3"), vec!["5.3"]);
}

#[test]
fn float_texts_follow_the_standard_grammar() {
    assert!(is_float_text("0"));
    assert!(is_float_text("5.3"));
    assert!(is_float_text("-43.2"));
    assert!(is_float_text("+13.8"));
    assert!(is_float_text(".5"));
    assert!(is_float_text("5."));
    assert!(is_float_text("1e5"));
    assert!(is_float_text("1.5e-3"));
    assert!(is_float_text("2E+10"));
    assert!(is_float_text("inf"));
    assert!(is_float_text("-Inf"));
    assert!(is_float_text("infinity"));
    assert!(is_float_text("NaN"));
    assert!(!is_float_text(""));
    assert!(!is_float_text("."));
    assert!(!is_float_text("+"));
    assert!(!is_float_text("e5"));
    assert!(!is_float_text("1e"));
    assert!(!is_float_text("1e+"));
    assert!(!is_float_text("--1"));
    assert!(!is_float_text("1,5"));
    assert!(!is_float_text("abc"));
    assert!(!is_float_text("1.5 "));
}

#[test]
fn float_text_agrees_with_the_standard_parse() {
    let cases = [
        "0", "5.3", "-43.2", "+13.8", ".5", "5.", "1e5", "1.5e-3", "2E+10", "inf", "-Inf",
        "infinity", "NaN", "", ".", "+", "e5", "1e", "1e+", "--1", "1,5", "abc", "1.5 ", "0x1",
        "1_000", "infin",
    ];
    for case in cases {
        assert_eq!(
            is_float_text(case),
            case.parse::<f64>().is_ok(),
            "disagreement on {:?}",
            case
        );
    }
}

#[test]
fn bbox_of_four_floats_parses_to_trimmed_components() {
    let parts = parse_bbox_text("5.3,43.2,13.8,51.6").unwrap();
    assert_eq!(parts, vec!["5.3", "43.2", "13.8", "51.6"]);
    let spaced = parse_bbox_text(" 5.3 , 43.2 ,\t13.8 , 51.6 ").unwrap();
    assert_eq!(spaced, vec!["5.3", "43.2", "13.8", "51.6"]);
}

#[test]
fn bbox_of_six_floats_parses_too() {
    let parts = parse_bbox_text("1,2,3,4,5,6").unwrap();
    assert_eq!(parts.len(), 6);
}

#[test]
fn bbox_with_wrong_count_is_rejected() {
    assert_eq!(
        parse_bbox_text("1,2,3").unwrap_err(),
        BboxParseError::WrongCount(3)
    );
    assert_eq!(
        parse_bbox_text("1,2,3,4,5").unwrap_err(),
        BboxParseError::WrongCount(5)
    );
}

#[test]
fn bbox_with_a_bad_component_is_rejected_first() {
    assert_eq!(
        parse_bbox_text("a,2,3").unwrap_err(),
        BboxParseError::BadComponent(0)
    );
    assert_eq!(
        parse_bbox_text("1,2,x,4").unwrap_err(),
        BboxParseError::BadComponent(2)
    );
    assert_eq!(
        parse_bbox_text("").unwrap_err(),
        BboxParseError::BadComponent(0)
    );
}
