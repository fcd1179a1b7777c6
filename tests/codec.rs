use hyperview::errors::AppError;
use hyperview::mapping::{decode_value_mapping, encode_value_mapping, ValueMapping};
use hyperview::text::{parse_usize, render_decimal, split_text, split_text_once, text_eq};

fn vm(text: &str, value: usize) -> ValueMapping {
    ValueMapping { text: text.to_string(), value }
}

fn pairs(ms: &[ValueMapping]) -> Vec<(String, usize)> {
    ms.iter().map(|m| (m.text.clone(), m.value)).collect()
}

#[test]
fn encode_two_pairs() {
    assert_eq!(encode_value_mapping(&vec![vm("Low", 0), vm("High", 1)]), "Low:0,High:1");
}

#[test]
fn empty_mapping_both_ways() {
    assert_eq!(encode_value_mapping(&vec![]), "");
    assert_eq!(decode_value_mapping("").unwrap().len(), 0);
}

#[test]
fn decode_two_pairs() {
    let ms = decode_value_mapping("Low:0,High:1").unwrap();
    assert_eq!(pairs(&ms), vec![("Low".to_string(), 0), ("High".to_string(), 1)]);
}

#[test]
fn round_trip_keeps_order() {
    let ms = vec![vm("Z", 9), vm("", 0), vm("Alarm", 18446744073709551615), vm("A", 10)];
    let packed = encode_value_mapping(&ms);
    assert_eq!(packed, "Z:9,:0,Alarm:18446744073709551615,A:10");
    let back = decode_value_mapping(&packed).unwrap();
    assert_eq!(pairs(&back), pairs(&ms));
}

#[test]
fn decode_splits_on_first_colon_only() {
    let ms = decode_value_mapping("a:1:2");
    assert_eq!(ms, Err(AppError::InvalidValueMapping));
    let ms = decode_value_mapping("On:1,Off:0").unwrap();
    assert_eq!(pairs(&ms), vec![("On".to_string(), 1), ("Off".to_string(), 0)]);
}

#[test]
fn decode_passes_over_pieces_without_colon() {
    let ms = decode_value_mapping("Low:0,,junk,High:1").unwrap();
    assert_eq!(pairs(&ms), vec![("Low".to_string(), 0), ("High".to_string(), 1)]);
}

#[test]
fn decode_rejects_bad_values() {
    assert_eq!(decode_value_mapping("Low:x"), Err(AppError::InvalidValueMapping));
    assert_eq!(decode_value_mapping("Low:"), Err(AppError::InvalidValueMapping));
    assert_eq!(decode_value_mapping("Low:-1"), Err(AppError::InvalidValueMapping));
    assert_eq!(
        decode_value_mapping("Low:0,High:18446744073709551616"),
        Err(AppError::InvalidValueMapping)
    );
}

#[test]
fn decode_accepts_plus_sign() {
    let ms = decode_value_mapping("Low:+5").unwrap();
    assert_eq!(pairs(&ms), vec![("Low".to_string(), 5)]);
}

#[test]
fn decimal_text() {
    assert_eq!(render_decimal(0), "0");
    assert_eq!(render_decimal(10), "10");
    assert_eq!(render_decimal(4096), "4096");
    assert_eq!(render_decimal(usize::MAX), usize::MAX.to_string());
}

#[test]
fn parse_unsigned_values() {
    assert_eq!(parse_usize("0"), Some(0));
    assert_eq!(parse_usize("0042"), Some(42));
    assert_eq!(parse_usize("+7"), Some(7));
    assert_eq!(parse_usize("18446744073709551615"), Some(usize::MAX));
    assert_eq!(parse_usize("18446744073709551616"), None);
    assert_eq!(parse_usize(""), None);
    assert_eq!(parse_usize("+"), None);
    assert_eq!(parse_usize("1 "), None);
    assert_eq!(parse_usize("٣"), None);
}

#[test]
fn splitting_text() {
    assert_eq!(split_text("a,b,,c", ','), vec!["a", "b", "", "c"]);
    assert_eq!(split_text("", ','), vec![""]);
    assert_eq!(split_text("é,ü", ','), vec!["é", "ü"]);
    assert_eq!(
        split_text_once("k:v:w", ':'),
        Some(("k".to_string(), "v:w".to_string()))
    );
    assert_eq!(split_text_once("kv", ':'), None);
    assert!(text_eq("csv", "csv"));
    assert!(!text_eq("csv", "cs"));
}
