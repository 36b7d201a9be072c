use bitable_sync::cell::{CellValue, Entry};
use bitable_sync::decimal::Decimal;
use bitable_sync::decode::{
    extract_attachment_url, extract_bool, extract_i32, extract_link_record_id, extract_link_text,
    extract_number, extract_phone, extract_select, extract_text, extract_url,
};

fn text(s: &str) -> CellValue {
    CellValue::Text(s.to_string())
}

fn obj(members: Vec<(&str, CellValue)>) -> CellValue {
    CellValue::Object(members.into_iter().map(|(k, v)| Entry { key: k.to_string(), value: v }).collect())
}

fn record(fields: Vec<(&str, CellValue)>) -> Vec<Entry> {
    fields.into_iter().map(|(k, v)| Entry { key: k.to_string(), value: v }).collect()
}

#[test]
fn rich_text_segments_join_in_order() {
    let f = record(vec![(
        "k",
        CellValue::Array(vec![obj(vec![("text", text("a"))]), obj(vec![("text", text("b"))])]),
    )]);
    assert_eq!(extract_text(&f, "k"), Some("ab".to_string()));
}

#[test]
fn text_shapes() {
    let f = record(vec![
        ("plain", text("hello")),
        ("num", CellValue::Number("2.5".to_string())),
        ("empty_array", CellValue::Array(vec![])),
        ("no_segments", CellValue::Array(vec![obj(vec![("type", text("text"))])])),
        ("mixed", CellValue::Array(vec![obj(vec![("text", text("x"))]), text("y"), obj(vec![("text", text("z"))])])),
        ("flag", CellValue::Bool(true)),
        ("nothing", CellValue::Null),
    ]);
    assert_eq!(extract_text(&f, "plain"), Some("hello".to_string()));
    assert_eq!(extract_text(&f, "num"), Some("2.5".to_string()));
    assert_eq!(extract_text(&f, "empty_array"), None);
    assert_eq!(extract_text(&f, "no_segments"), None);
    assert_eq!(extract_text(&f, "mixed"), Some("xz".to_string()));
    assert_eq!(extract_text(&f, "flag"), None);
    assert_eq!(extract_text(&f, "nothing"), None);
    assert_eq!(extract_text(&f, "absent"), None);
    assert_eq!(extract_phone(&f, "plain"), Some("hello".to_string()));
}

#[test]
fn number_shapes() {
    let f = record(vec![
        ("n", CellValue::Number("12.50".to_string())),
        ("s", text("-3.75")),
        ("bad", text("abc")),
        ("b", CellValue::Bool(true)),
    ]);
    let n = extract_number(&f, "n").unwrap();
    assert_eq!(n.to_text(), "12.5");
    assert_eq!(extract_number(&f, "s").unwrap().to_text(), "-3.75");
    assert!(extract_number(&f, "bad").is_none());
    assert!(extract_number(&f, "b").is_none());
    assert!(extract_number(&f, "absent").is_none());
    assert_eq!(extract_i32(&f, "s"), Some(-3));
    assert_eq!(extract_i32(&f, "n"), Some(12));
}

#[test]
fn decimal_reading() {
    assert_eq!(Decimal::parse("007.500").unwrap().to_text(), "7.5");
    assert_eq!(Decimal::parse(".5").unwrap().to_text(), "0.5");
    assert_eq!(Decimal::parse("5.").unwrap().to_text(), "5");
    assert_eq!(Decimal::parse("+42").unwrap().to_i32(), 42);
    assert!(Decimal::parse("").is_none());
    assert!(Decimal::parse(".").is_none());
    assert!(Decimal::parse("1.2.3").is_none());
    assert!(Decimal::parse(" 1").is_none());
    assert_eq!(Decimal::parse("99999999999").unwrap().to_i32(), i32::MAX);
    assert_eq!(Decimal::parse("-99999999999").unwrap().to_i32(), i32::MIN);
    assert_eq!(Decimal::parse("-0.9").unwrap().to_i64(), 0);
    assert_eq!(Decimal::parse("18446744073709551615").unwrap().to_u64(), Some(u64::MAX));
    assert_eq!(Decimal::parse("18446744073709551616").unwrap().to_u64(), None);
    assert_eq!(Decimal::parse("3.5").unwrap().to_u64(), None);
}

#[test]
fn decimal_exponents() {
    assert_eq!(Decimal::parse("1e3").unwrap().to_text(), "1000");
    assert_eq!(Decimal::parse("1.5E-2").unwrap().to_text(), "0.015");
    assert_eq!(Decimal::parse("12.5e1").unwrap().to_text(), "125");
    assert_eq!(Decimal::parse("-2e+2").unwrap().to_text(), "-200");
    assert_eq!(Decimal::parse(".5e1").unwrap().to_i32(), 5);
    assert_eq!(Decimal::parse("25e-1").unwrap().to_text(), "2.5");
    assert_eq!(Decimal::parse("1e1000").unwrap().to_i32(), i32::MAX);
    assert!(Decimal::parse("1e").is_none());
    assert!(Decimal::parse("1e+").is_none());
    assert!(Decimal::parse("e3").is_none());
    assert!(Decimal::parse("1e3e1").is_none());
    assert!(Decimal::parse("1e1.5").is_none());
    assert!(Decimal::parse("1e1001").is_none());
    let f = record(vec![("s", text("1e3")), ("n", CellValue::Number("2.5e-3".to_string()))]);
    assert_eq!(extract_number(&f, "s").unwrap().to_text(), "1000");
    assert_eq!(extract_i32(&f, "s"), Some(1000));
    assert_eq!(extract_number(&f, "n").unwrap().to_text(), "0.0025");
}

#[test]
fn bool_defaults_to_false() {
    let f = record(vec![("yes", CellValue::Bool(true)), ("word", text("true"))]);
    assert!(extract_bool(&f, "yes"));
    assert!(!extract_bool(&f, "word"));
    assert!(!extract_bool(&f, "absent"));
}

#[test]
fn select_shapes() {
    let f = record(vec![
        ("s", text("瓶")),
        ("o", obj(vec![("text", text("箱")), ("id", text("opt1"))])),
        ("o_no_text", obj(vec![("id", text("opt1"))])),
        ("n", CellValue::Number("1".to_string())),
    ]);
    assert_eq!(extract_select(&f, "s"), Some("瓶".to_string()));
    assert_eq!(extract_select(&f, "o"), Some("箱".to_string()));
    assert_eq!(extract_select(&f, "o_no_text"), None);
    assert_eq!(extract_select(&f, "n"), None);
}

#[test]
fn link_shapes() {
    let f = record(vec![
        ("l", CellValue::Array(vec![obj(vec![("text", text("古越龙山")), ("record_id", text("rec1"))]), obj(vec![("text", text("other"))])])),
        ("s", CellValue::Array(vec![text("plain")])),
        ("e", CellValue::Array(vec![])),
        ("not_array", text("x")),
    ]);
    assert_eq!(extract_link_text(&f, "l"), Some("古越龙山".to_string()));
    assert_eq!(extract_link_record_id(&f, "l"), Some("rec1".to_string()));
    assert_eq!(extract_link_text(&f, "s"), Some("plain".to_string()));
    assert_eq!(extract_link_record_id(&f, "s"), Some("plain".to_string()));
    assert_eq!(extract_link_text(&f, "e"), None);
    assert_eq!(extract_link_text(&f, "not_array"), None);
}

#[test]
fn url_shapes() {
    let f = record(vec![
        ("s", text("https://a")),
        ("both", obj(vec![("text", text("label")), ("link", text("https://b"))])),
        ("text_only", obj(vec![("text", text("https://c"))])),
        ("n", CellValue::Null),
    ]);
    assert_eq!(extract_url(&f, "s"), Some("https://a".to_string()));
    assert_eq!(extract_url(&f, "both"), Some("https://b".to_string()));
    assert_eq!(extract_url(&f, "text_only"), Some("https://c".to_string()));
    assert_eq!(extract_url(&f, "n"), None);
}

#[test]
fn attachment_url_prefers_tmp_url() {
    let f = record(vec![
        ("both", CellValue::Array(vec![obj(vec![("url", text("u")), ("tmp_url", text("t"))])])),
        ("url_only", CellValue::Array(vec![obj(vec![("url", text("u"))])])),
        ("neither", CellValue::Array(vec![obj(vec![("name", text("a.jpg"))])])),
        ("empty", CellValue::Array(vec![])),
    ]);
    assert_eq!(extract_attachment_url(&f, "both"), Some("t".to_string()));
    assert_eq!(extract_attachment_url(&f, "url_only"), Some("u".to_string()));
    assert_eq!(extract_attachment_url(&f, "neither"), None);
    assert_eq!(extract_attachment_url(&f, "empty"), None);
}

#[test]
fn first_entry_of_a_name_wins() {
    let f = record(vec![("k", text("first")), ("k", text("second"))]);
    assert_eq!(extract_text(&f, "k"), Some("first".to_string()));
}
