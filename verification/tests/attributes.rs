use ot_attributes::is_block_except_header;
use ot_attributes::scope_of;
use ot_attributes::wire_name;
use ot_attributes::Attribute;
use ot_attributes::AttributeKey;
use ot_attributes::AttributeScope;
use ot_attributes::AttributeValue;

const ALL_KEYS: [AttributeKey; 18] = [
    AttributeKey::Bold,
    AttributeKey::Italic,
    AttributeKey::Underline,
    AttributeKey::StrikeThrough,
    AttributeKey::Font,
    AttributeKey::Size,
    AttributeKey::Link,
    AttributeKey::Color,
    AttributeKey::Background,
    AttributeKey::Indent,
    AttributeKey::Align,
    AttributeKey::CodeBlock,
    AttributeKey::InlineCode,
    AttributeKey::List,
    AttributeKey::BlockQuote,
    AttributeKey::Width,
    AttributeKey::Height,
    AttributeKey::Header,
];

#[test]
fn every_key_has_exactly_one_scope() {
    let mut inline = 0;
    let mut block = 0;
    let mut embeds = 0;
    let mut ignore = 0;
    for k in &ALL_KEYS {
        match scope_of(k) {
            AttributeScope::Inline => inline += 1,
            AttributeScope::Block => block += 1,
            AttributeScope::Embeds => embeds += 1,
            AttributeScope::Ignore => ignore += 1,
        }
    }
    assert_eq!(inline, 10);
    assert_eq!(block, 6);
    assert_eq!(embeds, 0);
    assert_eq!(ignore, 2);
}

#[test]
fn block_scope_membership() {
    let block = [
        AttributeKey::Header,
        AttributeKey::Indent,
        AttributeKey::Align,
        AttributeKey::CodeBlock,
        AttributeKey::List,
        AttributeKey::BlockQuote,
    ];
    for k in &block {
        assert_eq!(scope_of(k), AttributeScope::Block);
    }
    assert_eq!(scope_of(&AttributeKey::Bold), AttributeScope::Inline);
    assert_eq!(scope_of(&AttributeKey::Width), AttributeScope::Ignore);
    assert_eq!(scope_of(&AttributeKey::Height), AttributeScope::Ignore);
}

#[test]
fn block_except_header_predicate() {
    assert!(!is_block_except_header(&AttributeKey::Header));
    assert!(is_block_except_header(&AttributeKey::Indent));
    assert!(is_block_except_header(&AttributeKey::Align));
    assert!(is_block_except_header(&AttributeKey::CodeBlock));
    assert!(is_block_except_header(&AttributeKey::List));
    assert!(is_block_except_header(&AttributeKey::BlockQuote));
    for k in &[
        AttributeKey::Bold,
        AttributeKey::Italic,
        AttributeKey::Underline,
        AttributeKey::StrikeThrough,
        AttributeKey::Font,
        AttributeKey::Size,
        AttributeKey::Link,
        AttributeKey::Color,
        AttributeKey::Background,
        AttributeKey::InlineCode,
        AttributeKey::Width,
        AttributeKey::Height,
    ] {
        assert!(!is_block_except_header(k));
    }
}

#[test]
fn wire_names() {
    assert_eq!(wire_name(&AttributeKey::Bold), "bold");
    assert_eq!(wire_name(&AttributeKey::StrikeThrough), "strike");
    assert_eq!(wire_name(&AttributeKey::CodeBlock), "code_block");
    assert_eq!(wire_name(&AttributeKey::InlineCode), "code");
    assert_eq!(wire_name(&AttributeKey::BlockQuote), "blockquote");
    assert_eq!(wire_name(&AttributeKey::Header), "header");
}

#[test]
fn wire_names_are_distinct() {
    for (i, a) in ALL_KEYS.iter().enumerate() {
        for (j, b) in ALL_KEYS.iter().enumerate() {
            if i != j {
                assert_ne!(wire_name(a), wire_name(b));
            }
        }
    }
}

#[test]
fn falsy_inputs_collapse_to_one_absent_value() {
    let from_bool = AttributeValue::normalize_bool(false);
    let from_uint = AttributeValue::normalize_uint(0);
    let from_string = AttributeValue::normalize_string("");
    assert_eq!(from_bool, from_uint);
    assert_eq!(from_uint, from_string);
    assert!(!from_bool.is_present());
    assert_eq!(from_bool.as_string(), None);
}

#[test]
fn truthy_inputs_normalize_to_canonical_strings() {
    let t = AttributeValue::normalize_bool(true);
    assert!(t.is_present());
    assert_eq!(t.as_string(), Some("true"));

    let five = AttributeValue::normalize_uint(5);
    assert_eq!(five.as_string(), Some("5"));

    let x = AttributeValue::normalize_string("x");
    assert_eq!(x.as_string(), Some("x"));
}

#[test]
fn decimal_rendering_matches_formatting() {
    for n in [1usize, 9, 10, 42, 100, 12345, usize::MAX] {
        let v = AttributeValue::normalize_uint(n);
        assert_eq!(v.as_string(), Some(format!("{}", n).as_str()));
    }
}

#[test]
fn factories_store_normalized_values_not_raw_inputs() {
    assert_eq!(Attribute::Bold(false).value.as_string(), None);
    assert_eq!(Attribute::Bold(true).value.as_string(), Some("true"));
    assert_eq!(Attribute::Font(0).value.as_string(), None);
    assert_eq!(Attribute::Header(3).value.as_string(), Some("3"));
    assert_eq!(Attribute::Link("").value.as_string(), None);
    assert_eq!(
        Attribute::Link("https://example.com").value.as_string(),
        Some("https://example.com")
    );
    assert_eq!(Attribute::Color(String::new()).value.as_string(), None);
}

#[test]
fn factories_resolve_scopes() {
    assert_eq!(Attribute::Bold(true).scope, AttributeScope::Inline);
    assert_eq!(Attribute::Italic(true).scope, AttributeScope::Inline);
    assert_eq!(Attribute::Header(1).scope, AttributeScope::Block);
    assert_eq!(Attribute::List("bullet").scope, AttributeScope::Block);
    assert_eq!(Attribute::Width(10).scope, AttributeScope::Ignore);
    assert_eq!(Attribute::Height(10).scope, AttributeScope::Ignore);
    assert_eq!(Attribute::Bold(true).key, AttributeKey::Bold);
    assert_eq!(Attribute::Bullet().key, AttributeKey::List);
}

#[test]
fn equal_normalized_pairs_compare_equal() {
    // Same key, same normalized value, different raw inputs.
    assert_eq!(Attribute::List("bullet"), Attribute::Bullet());
    assert_eq!(Attribute::List("checked"), Attribute::Checked());
    // Falsy raw inputs of different types normalize to equal values.
    assert_eq!(
        AttributeValue::normalize_bool(false),
        AttributeValue::normalize_uint(0)
    );
    assert_eq!(Attribute::Bold(false).value, Attribute::Font(0).value);
    // Distinct normalized values do not compare equal.
    assert_ne!(Attribute::Bold(true), Attribute::Bold(false));
    assert_ne!(Attribute::Bullet(), Attribute::Ordered());
}

#[test]
fn to_json_present_bold() {
    let json = Attribute::Bold(true).to_json();
    assert_eq!(json, "{\"key\":\"bold\",\"value\":\"true\"}");
    assert!(json.contains("\"key\":\"bold\""));
    assert!(json.contains("\"value\":\"true\""));
}

#[test]
fn to_json_absent_bold_is_null() {
    let json = Attribute::Bold(false).to_json();
    assert_eq!(json, "{\"key\":\"bold\",\"value\":null}");
    assert!(!json.contains("false"));
}

#[test]
fn to_json_list_payloads() {
    assert_eq!(
        Attribute::Checked().to_json(),
        "{\"key\":\"list\",\"value\":\"checked\"}"
    );
    assert_eq!(
        Attribute::Bullet().to_json(),
        "{\"key\":\"list\",\"value\":\"bullet\"}"
    );
    assert_eq!(
        Attribute::Ordered().to_json(),
        "{\"key\":\"list\",\"value\":\"ordered\"}"
    );
    assert_eq!(
        Attribute::UnChecked().to_json(),
        "{\"key\":\"list\",\"value\":\"unchecked\"}"
    );
}

#[test]
fn to_json_escapes_payload() {
    // The encoder must quote and escape the payload, not hand it back raw.
    let json = Attribute::Link("a\"b\\c").to_json();
    assert_eq!(json, "{\"key\":\"link\",\"value\":\"a\\\"b\\\\c\"}");
}

#[test]
fn to_json_checked_distinguishes_success() {
    let ok = Attribute::Header(2).to_json_checked();
    assert_eq!(ok.as_deref(), Some("{\"key\":\"header\",\"value\":\"2\"}"));
    let absent = Attribute::Header(0).to_json_checked();
    assert_eq!(absent.as_deref(), Some("{\"key\":\"header\",\"value\":null}"));
}

#[test]
fn to_json_output_parses_back() {
    let json = Attribute::Size(12).to_json();
    let parsed: serde_json::Value = serde_json::from_str(&json).unwrap();
    assert_eq!(parsed.get("key").and_then(|v| v.as_str()), Some("size"));
    assert_eq!(parsed.get("value").and_then(|v| v.as_str()), Some("12"));

    let json = Attribute::Size(0).to_json();
    let parsed: serde_json::Value = serde_json::from_str(&json).unwrap();
    assert!(parsed.get("value").unwrap().is_null());
}

#[test]
fn scope_is_never_serialized() {
    for json in [
        Attribute::Bold(true).to_json(),
        Attribute::Header(1).to_json(),
        Attribute::Width(7).to_json(),
    ] {
        let parsed: serde_json::Value = serde_json::from_str(&json).unwrap();
        let obj = parsed.as_object().unwrap();
        assert_eq!(obj.len(), 2);
        assert!(obj.contains_key("key"));
        assert!(obj.contains_key("value"));
    }
}
