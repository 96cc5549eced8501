use splitwise_cli::json::{JsonObject, JsonValue};
use splitwise_cli::text::{
    chars_of, i64_text, parse_i64_chars, replace_chars, split_chars, trim_chars, trim_str,
};

fn s(v: &[char]) -> String {
    v.iter().collect()
}

#[test]
fn trim_removes_unicode_white_space() {
    assert_eq!(s(&trim_str("\u{3000} a b \u{85}\t")), "a b");
    assert_eq!(s(&trim_chars(&chars_of("   "))), "");
}

#[test]
fn split_keeps_empty_pieces() {
    let pieces = split_chars(&chars_of("a,,b,"), ',');
    let texts: Vec<String> = pieces.iter().map(|p| s(p)).collect();
    assert_eq!(texts, vec!["a", "", "b", ""]);
}

#[test]
fn integers_read_like_std() {
    for text in ["0", "+5", "-0", "9223372036854775807", "-9223372036854775808", "12a", "", "+", "-", "9223372036854775808", "٣"] {
        assert_eq!(parse_i64_chars(&chars_of(text)), text.parse::<i64>().ok(), "{text}");
    }
    for n in [0i64, 7, -7, i64::MAX, i64::MIN] {
        assert_eq!(i64_text(n), n.to_string());
    }
}

#[test]
fn replace_matches_std() {
    for (text, pat, rep) in [("aaa", "aa", "b"), ("{id}x{id}", "{id}", "7"), ("abc", "z", "y")] {
        let out = replace_chars(&chars_of(text), &chars_of(pat), &chars_of(rep));
        assert_eq!(s(&out), text.replace(pat, rep));
    }
}

#[test]
fn object_insert_keeps_key_order_and_replaces() {
    let mut o = JsonObject::new();
    o.insert("b".to_string(), JsonValue::Null);
    o.insert("a".to_string(), JsonValue::Bool(true));
    o.insert("b".to_string(), JsonValue::Bool(false));
    assert_eq!(o.len(), 2);
    assert_eq!(o.key_at(0), "a");
    assert_eq!(o.key_at(1), "b");
    assert!(matches!(o.get("b"), Some(JsonValue::Bool(false))));
    assert!(o.get("c").is_none());
}
