//! Conversion of host values and the argument map.

use std::borrow::Cow;

use fluent_i18n::{Args, PathBytes, ToFluentValue, Value};

#[test]
fn text_converts_to_text() {
    assert_eq!("reading".to_fluent_value(), Value::Text(String::from("reading")));
    assert_eq!(String::from("Orhun").to_fluent_value(), Value::Text(String::from("Orhun")));
    assert_eq!("".to_fluent_value(), Value::Text(String::new()));
    let borrowed: Cow<'static, str> = Cow::Borrowed("writing");
    assert_eq!(borrowed.to_fluent_value(), Value::Text(String::from("writing")));
    let owned: Cow<'static, str> = Cow::Owned(String::from("closing"));
    assert_eq!(owned.to_fluent_value(), Value::Text(String::from("closing")));
}

#[test]
fn integers_convert_to_numbers() {
    assert_eq!(5usize.to_fluent_value(), Value::Number(5));
    assert_eq!(u8::MAX.to_fluent_value(), Value::Number(255));
    assert_eq!(u16::MAX.to_fluent_value(), Value::Number(65535));
    assert_eq!(u32::MAX.to_fluent_value(), Value::Number(4294967295));
    assert_eq!(u64::MAX.to_fluent_value(), Value::Number(18446744073709551615));
    assert_eq!(i8::MIN.to_fluent_value(), Value::Number(-128));
    assert_eq!(i16::MIN.to_fluent_value(), Value::Number(-32768));
    assert_eq!((-1i32).to_fluent_value(), Value::Number(-1));
    assert_eq!(i64::MIN.to_fluent_value(), Value::Number(-9223372036854775808));
    assert_eq!((-7isize).to_fluent_value(), Value::Number(-7));
}

#[test]
fn absent_is_not_empty_text() {
    let absent: Option<String> = None;
    assert_eq!(absent.to_fluent_value(), Value::Absent);
    assert_ne!(absent.to_fluent_value(), Value::Text(String::new()));
    assert_eq!(Some(String::new()).to_fluent_value(), Value::Text(String::new()));
    assert_eq!(Some(7u32).to_fluent_value(), Value::Number(7));
    let nested: Option<Option<i32>> = Some(None);
    assert_eq!(nested.to_fluent_value(), Value::Absent);
}

#[test]
fn value_converts_to_itself() {
    let value = Value::Text(String::from("x"));
    assert_eq!(value.to_fluent_value(), value);
    assert_eq!(value.clone(), value);
    assert_eq!(Value::Number(-3).clone(), Value::Number(-3));
    assert_eq!(Value::Absent.to_fluent_value(), Value::Absent);
}

#[test]
fn valid_path_converts_to_its_text() {
    let path = PathBytes::from_text("/some/path/to/file.txt");
    assert_eq!(path.to_text_lossy(), "/some/path/to/file.txt");
    assert_eq!(path.to_fluent_value(), Value::Text(String::from("/some/path/to/file.txt")));
    assert_eq!(path, PathBytes::new(b"/some/path/to/file.txt".to_vec()));
    let path = PathBytes::from_text("/données/été");
    assert_eq!(path.to_fluent_value(), Value::Text(String::from("/données/été")));
}

#[test]
fn invalid_path_bytes_are_replaced() {
    let path = PathBytes::new(vec![b'f', 0x80, b'o']);
    assert_eq!(path.to_fluent_value(), Value::Text(String::from("f\u{fffd}o")));
    let path = PathBytes::new(vec![0xe2, 0x82]);
    assert_eq!(path.to_text_lossy(), "\u{fffd}");
    let absent: Option<PathBytes> = None;
    assert_eq!(absent.to_fluent_value(), Value::Absent);
}

#[test]
fn args_keep_one_value_per_name() {
    let mut args = Args::new();
    assert_eq!(args.len(), 0);
    assert_eq!(args.get("name"), None);

    args.insert("name", Value::Text(String::from("first")));
    args.insert("count", Value::Number(1));
    assert_eq!(args.len(), 2);

    args.insert("name", Value::Absent);
    assert_eq!(args.len(), 2);
    assert_eq!(args.get("name"), Some(&Value::Absent));
    assert_eq!(args.get("count"), Some(&Value::Number(1)));

    args.set("count", &9u64);
    args.set("path", &Some("x"));
    assert_eq!(args.len(), 3);
    assert_eq!(args.get("count"), Some(&Value::Number(9)));
    assert_eq!(args.get("path"), Some(&Value::Text(String::from("x"))));
    assert_eq!(args.get("Name"), None);

    let names: Vec<&str> = args.entries().iter().map(|(name, _)| name.as_str()).collect();
    assert_eq!(names, vec!["name", "count", "path"]);
    assert_eq!(args.entries()[0].1, Value::Absent);
}
