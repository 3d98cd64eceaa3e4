use twitarc::html::Element;
use twitarc::json::{find_member, parse_json, Json};
use twitarc::text::{contains_char, first_word};

fn element(attrs: &[(&str, &str)], classes: &[&str], texts: &[&str]) -> Element {
    Element {
        attrs: attrs.iter().map(|(k, v)| (k.to_string(), v.to_string())).collect(),
        classes: classes.iter().map(|c| c.to_string()).collect(),
        texts: texts.iter().map(|t| t.to_string()).collect(),
    }
}

#[test]
fn attribute_lookup_takes_the_first_of_a_name() {
    let e = element(&[("href", "/a"), ("alt", "x"), ("href", "/b")], &[], &[]);
    assert_eq!(e.attr("href"), Some("/a"));
    assert_eq!(e.attr("alt"), Some("x"));
    assert_eq!(e.attr("src"), None);
    assert_eq!(e.attr("HREF"), None);
    assert!(e.attr_is("alt", "x"));
    assert!(!e.attr_is("alt", "X"));
    assert!(!e.attr_is("src", ""));
}

#[test]
fn element_text_is_the_text_nodes_in_a_row() {
    assert_eq!(element(&[], &[], &["Jack", " ", "@jack"]).text(), "Jack @jack");
    assert_eq!(element(&[], &[], &[]).text(), "");
}

#[test]
fn class_test_ignores_ascii_case_only() {
    let e = element(&[], &["Big", "stra\u{df}e"], &[]);
    assert!(e.has_class("big"));
    assert!(e.has_class("BIG"));
    assert!(e.has_class("STRA\u{df}E"));
    assert!(!e.has_class("bi"));
    assert!(!e.has_class("strasse"));
}

#[test]
fn json_text_becomes_a_tree() {
    let doc = parse_json(r#"{"b": [1, -2, 2.5, "x", null, true], "a": {"k": "v"}}"#).unwrap();
    assert_eq!(
        doc.get("b"),
        Some(&Json::Array(vec![
            Json::Number(Some(1)),
            Json::Number(None),
            Json::Number(None),
            Json::Text("x".to_string()),
            Json::Null,
            Json::Bool(true),
        ]))
    );
    assert_eq!(doc.get("a").unwrap().get("k"), Some(&Json::Text("v".to_string())));
    assert_eq!(doc.get("c"), None);
    assert_eq!(doc.as_object().map(|m| m.len()), Some(2));
}

#[test]
fn invalid_json_is_refused() {
    assert_eq!(parse_json(""), None);
    assert_eq!(parse_json("{"), None);
    assert_eq!(parse_json("{'a': 1}"), None);
    assert_eq!(parse_json("1 2"), None);
}

#[test]
fn json_scalars_parse_alone() {
    assert_eq!(parse_json("18446744073709551615"), Some(Json::Number(Some(u64::MAX))));
    assert_eq!(parse_json("18446744073709551616"), Some(Json::Number(None)));
    assert_eq!(parse_json("\"a\\nb\""), Some(Json::Text("a\nb".to_string())));
    assert_eq!(parse_json(" null "), Some(Json::Null));
}

#[test]
fn json_accessors_tell_the_kinds_apart() {
    let text = Json::Text("t".to_string());
    assert_eq!(text.as_str(), Some("t"));
    assert_eq!(text.as_u64(), None);
    assert!(text.as_array().is_none());
    assert!(text.as_object().is_none());
    assert_eq!(text.get("t"), None);
    assert!(text.eq_str("t"));
    assert!(!text.eq_str("T"));
    assert!(!Json::Null.eq_str(""));
    assert_eq!(Json::Number(Some(7)).as_u64(), Some(7));
    assert_eq!(Json::Number(None).as_u64(), None);
    assert_eq!(Json::Array(vec![Json::Null]).as_array().map(|a| a.len()), Some(1));
}

#[test]
fn member_lookup_takes_the_first_of_a_name() {
    let members = vec![
        ("a".to_string(), Json::Number(Some(1))),
        ("b".to_string(), Json::Null),
        ("a".to_string(), Json::Number(Some(2))),
    ];
    assert_eq!(find_member(&members, "a"), Some(&Json::Number(Some(1))));
    assert_eq!(find_member(&members, "b"), Some(&Json::Null));
    assert_eq!(find_member(&members, "c"), None);
}

#[test]
fn first_word_skips_white_space() {
    assert_eq!(first_word("  12 Following"), Some("12"));
    assert_eq!(first_word("12"), Some("12"));
    assert_eq!(first_word("\u{a0}\u{2003}6.5M\u{3000}Followers"), Some("6.5M"));
    assert_eq!(first_word("a\u{200b}b c"), Some("a\u{200b}b"));
    assert_eq!(first_word(" \t\n"), None);
    assert_eq!(first_word(""), None);
}

#[test]
fn contains_char_finds_a_character() {
    assert!(contains_char("6.5M", 'M'));
    assert!(!contains_char("6.5M", 'K'));
    assert!(!contains_char("", 'K'));
}

fn listed_as_white_space(c: char) -> bool {
    matches!(
        c,
        ' ' | '\u{9}'..='\u{d}'
            | '\u{85}'
            | '\u{a0}'
            | '\u{1680}'
            | '\u{2000}'..='\u{200a}'
            | '\u{2028}'
            | '\u{2029}'
            | '\u{202f}'
            | '\u{205f}'
            | '\u{3000}'
    )
}

#[test]
fn white_space_is_what_the_first_word_skips() {
    for code in 0..=0x10ffffu32 {
        if let Some(c) = char::from_u32(code) {
            let text = format!("{}x", c);
            let expected = if listed_as_white_space(c) { "x" } else { text.as_str() };
            assert_eq!(first_word(&text), Some(expected), "at {:x}", code);
        }
    }
}

fn folded(c: char) -> char {
    if ('A'..='Z').contains(&c) {
        char::from_u32(c as u32 + 32).unwrap()
    } else {
        c
    }
}

#[test]
fn class_test_folds_ascii_capitals_and_nothing_else() {
    for code in 0..=0x10ffffu32 {
        if let Some(c) = char::from_u32(code) {
            let e = element(&[], &[c.to_string().as_str()], &[]);
            for d in [c.to_ascii_lowercase(), c.to_ascii_uppercase(), 'k', 'K', '\u{212a}'] {
                assert_eq!(e.has_class(&d.to_string()), folded(c) == folded(d), "{:x} {:x}", code, d as u32);
            }
        }
    }
}
