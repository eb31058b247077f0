use julia_fractal::config::{parse_args, ArgError, Dimensions, DEFAULT_ITERATIONS};
use julia_fractal::decimal::parse_u32;

fn line(words: &[&str]) -> Vec<String> {
    words.iter().map(|w| w.to_string()).collect()
}

#[test]
fn parse_u32_reads_plain_digits() {
    assert_eq!(parse_u32("0"), Some(0));
    assert_eq!(parse_u32("1024"), Some(1024));
    assert_eq!(parse_u32("007"), Some(7));
}

#[test]
fn parse_u32_accepts_one_plus_sign() {
    assert_eq!(parse_u32("+42"), Some(42));
    assert_eq!(parse_u32("++42"), None);
    assert_eq!(parse_u32("+"), None);
}

#[test]
fn parse_u32_rejects_non_digits() {
    assert_eq!(parse_u32(""), None);
    assert_eq!(parse_u32("-1"), None);
    assert_eq!(parse_u32("12a"), None);
    assert_eq!(parse_u32(" 12"), None);
    assert_eq!(parse_u32("1.5"), None);
    assert_eq!(parse_u32("١٢"), None);
}

#[test]
fn parse_u32_bounds() {
    assert_eq!(parse_u32("4294967295"), Some(u32::MAX));
    assert_eq!(parse_u32("4294967296"), None);
    assert_eq!(parse_u32("99999999999999999999"), None);
    assert_eq!(parse_u32("00000000004294967295"), Some(u32::MAX));
}

#[test]
fn parse_u32_agrees_with_std() {
    for s in ["", "+", "-", "-0", "+0", "0", "12", "4294967295", "4294967296", "1_000", "x", "+-1", "0012"] {
        assert_eq!(parse_u32(s), s.parse::<u32>().ok(), "{}", s);
    }
}

#[test]
fn too_few_args() {
    assert_eq!(parse_args(&line(&[])).err(), Some(ArgError::TooFewArgs));
    assert_eq!(parse_args(&line(&["prog"])).err(), Some(ArgError::TooFewArgs));
    assert_eq!(parse_args(&line(&["prog", "out.png", "10"])).err(), Some(ArgError::TooFewArgs));
}

#[test]
fn bad_width() {
    assert_eq!(parse_args(&line(&["prog", "out.png", "wide", "10"])).err(), Some(ArgError::BadWidth));
    assert_eq!(parse_args(&line(&["prog", "out.png", "-4", "x"])).err(), Some(ArgError::BadWidth));
}

#[test]
fn bad_height() {
    assert_eq!(parse_args(&line(&["prog", "out.png", "10", "1e3"])).err(), Some(ArgError::BadHeight));
}

#[test]
fn required_args_only_use_defaults() {
    let c = parse_args(&line(&["prog", "out.png", "1024", "768"])).ok().unwrap();
    assert_eq!(c.path, "out.png");
    assert_eq!(c.dimensions, Dimensions { x: 1024, y: 768 });
    assert_eq!(c.creal, None);
    assert_eq!(c.cimag, None);
    assert_eq!(c.iterations, DEFAULT_ITERATIONS);
    assert_eq!(c.iterations, 50);
}

#[test]
fn all_args_given() {
    let c = parse_args(&line(&["prog", "img.jpg", "3", "3", "-1", "0", "200", "extra"])).ok().unwrap();
    assert_eq!(c.path, "img.jpg");
    assert_eq!(c.dimensions, Dimensions { x: 3, y: 3 });
    assert_eq!(c.creal.as_deref(), Some("-1"));
    assert_eq!(c.cimag.as_deref(), Some("0"));
    assert_eq!(c.iterations, 200);
}

#[test]
fn unreadable_iterations_fall_back() {
    let c = parse_args(&line(&["prog", "a.png", "2", "2", "0", "0", "many"])).ok().unwrap();
    assert_eq!(c.iterations, 50);
    let c = parse_args(&line(&["prog", "a.png", "2", "2", "0", "0", "-5"])).ok().unwrap();
    assert_eq!(c.iterations, 50);
    let c = parse_args(&line(&["prog", "a.png", "2", "2", "0", "0", "1"])).ok().unwrap();
    assert_eq!(c.iterations, 1);
}

#[test]
fn float_parts_are_passed_as_text() {
    let c = parse_args(&line(&["prog", "a.png", "2", "2", "not-a-number"])).ok().unwrap();
    assert_eq!(c.creal.as_deref(), Some("not-a-number"));
    assert_eq!(c.cimag, None);
    assert_eq!(c.iterations, 50);
}
