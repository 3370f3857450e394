use richclip::clipboard::mime_type::{
    choose_paste_type, decide_mime_type, find_match, find_text_ending, has_text_ending,
    is_generic_text_request, matches_rule, text_rule, try_any_text, MatchKind, NoMatch,
    CANONICAL_RULES, ENDING_RULES, TEXT_RULES,
};

fn names(list: &[&str]) -> Vec<String> {
    list.iter().map(|s| s.to_string()).collect()
}

#[test]
fn test_empty_preferred() {
    // match a text type
    let r = decide_mime_type(
        "",
        &vec![
            "image/webp".to_string(),
            "text/plain;charset=utf-8".to_string(),
        ],
    )
    .unwrap();
    assert_eq!(r, "text/plain;charset=utf-8");

    // No match
    let r = decide_mime_type(
        "",
        &vec!["image/webp".to_string(), "video/x-flv".to_string()],
    );
    assert!(r.is_err());

    // Match suffix
    let r = decide_mime_type(
        "",
        &vec![
            "image/webp".to_string(),
            "application/postscript".to_string(),
        ],
    )
    .unwrap();
    assert_eq!(r, "application/postscript");
}

#[test]
fn test_text_preferred() {
    // match a text type
    let r = decide_mime_type(
        "text",
        &vec![
            "image/webp".to_string(),
            "text/plain;charset=utf-8".to_string(),
        ],
    )
    .unwrap();
    assert_eq!(r, "text/plain;charset=utf-8");
}

#[test]
fn test_exact_preferred() {
    // match a text type
    let r = decide_mime_type(
        "text/html",
        &vec![
            "text/plain;charset=utf-8".to_string(),
            "text/html".to_string(),
        ],
    )
    .unwrap();
    assert_eq!(r, "text/html");
}

#[test]
fn exact_request_keeps_the_spelling_of_the_offer() {
    let r = decide_mime_type("TEXT/HTML", &names(&["image/png", "Text/Html", "text/html"]));
    assert_eq!(r, Ok("Text/Html".to_string()));
}

#[test]
fn exact_request_has_no_fallback() {
    let r = decide_mime_type("text/html", &names(&["text/plain", "text/htm", "text/html2"]));
    assert_eq!(r, Err(NoMatch {}));
    let r = decide_mime_type("image/png", &names(&[]));
    assert_eq!(r, Err(NoMatch {}));
}

#[test]
fn generic_request_tokens() {
    assert!(is_generic_text_request(""));
    assert!(is_generic_text_request("text"));
    assert!(is_generic_text_request("TEXT"));
    assert!(is_generic_text_request("utf8_string"));
    assert!(is_generic_text_request("UTF8_STRING"));
    assert!(!is_generic_text_request("text/plain"));
    assert!(!is_generic_text_request("STRING"));
    assert!(!is_generic_text_request(" "));
}

#[test]
fn canonical_names_go_by_priority_not_by_position() {
    let supported = names(&["UTF8_STRING", "STRING", "text/plain", "TEXT"]);
    assert_eq!(try_any_text(&supported), Some("text/plain".to_string()));
    let supported = names(&["json", "cf_unicodetext", "utf8_string", "string"]);
    assert_eq!(try_any_text(&supported), Some("string".to_string()));
    let supported = names(&["CF_UNICODETEXT", "cf_text"]);
    assert_eq!(try_any_text(&supported), Some("cf_text".to_string()));
}

#[test]
fn canonical_names_outrank_suffixes_and_suffixes_outrank_the_prefix() {
    let supported = names(&["text/x-foo", "application/xml", "JSON"]);
    assert_eq!(try_any_text(&supported), Some("JSON".to_string()));
    let supported = names(&["text/x-foo", "application/xml"]);
    assert_eq!(try_any_text(&supported), Some("application/xml".to_string()));
    let supported = names(&["image/png", "Text/X-Foo", "text/x-bar"]);
    assert_eq!(try_any_text(&supported), Some("Text/X-Foo".to_string()));
}

#[test]
fn endings_go_by_the_order_of_the_offer() {
    let supported = names(&["notes.ini", "run.script"]);
    assert_eq!(try_any_text(&supported), Some("notes.ini".to_string()));
    assert_eq!(decide_mime_type("", &supported), Ok("notes.ini".to_string()));
    let supported = names(&["image/png", "a.INI", "b.csv", "c.yaml", "d.xml", "e.JavaScript"]);
    assert_eq!(try_any_text(&supported), Some("a.INI".to_string()));
    let supported = names(&["e.JavaScript", "d.xml", "a.ini"]);
    assert_eq!(try_any_text(&supported), Some("e.JavaScript".to_string()));
    let supported = names(&["text/x-foo", "b.Csv", "a.yaml"]);
    assert_eq!(try_any_text(&supported), Some("b.Csv".to_string()));
}

#[test]
fn each_ending_counts() {
    for name in ["a.script", "a.XML", "a.yaml", "a.csv", "a.ini", "JavaScript", "xml"] {
        assert!(has_text_ending(name));
        assert_eq!(find_text_ending(&names(&["image/png", name])), Some(1));
    }
    for name in ["", "a.scrip", "xml.", "a.ym", "text/plain", "ini/a"] {
        assert!(!has_text_ending(name));
    }
    assert_eq!(find_text_ending(&names(&["image/png", "text/plain"])), None);
    assert_eq!(find_text_ending(&names(&[])), None);
}

#[test]
fn nothing_text_like_is_no_text() {
    assert_eq!(try_any_text(&names(&[])), None);
    assert_eq!(try_any_text(&names(&["image/png", "xml/image", "context/"])), None);
}

#[test]
fn rules_match_as_their_kind_says() {
    assert!(matches_rule(MatchKind::Exact, "text/plain", "TEXT/Plain"));
    assert!(!matches_rule(MatchKind::Exact, "text/plain", "text/plain "));
    assert!(matches_rule(MatchKind::Suffix, "xml", "image/svg+XML"));
    assert!(!matches_rule(MatchKind::Suffix, "xml", "xm"));
    assert!(!matches_rule(MatchKind::Suffix, "XML", "image/svg+xml"));
    assert!(matches_rule(MatchKind::Prefix, "text/", "TEXT/anything"));
    assert!(!matches_rule(MatchKind::Prefix, "text/", "text"));
    assert!(matches_rule(MatchKind::Exact, "\u{e9}t\u{e9}", "\u{e9}T\u{e9}"));
    assert!(!matches_rule(MatchKind::Exact, "\u{e9}", "\u{c9}"));
}

#[test]
fn find_match_gives_the_first_index() {
    let supported = names(&["a", "B", "b"]);
    assert_eq!(find_match(&supported, MatchKind::Exact, "b"), Some(1));
    assert_eq!(find_match(&supported, MatchKind::Exact, "c"), None);
}

#[test]
fn the_policy_has_its_rules_in_order() {
    assert_eq!(TEXT_RULES, 14);
    assert_eq!(CANONICAL_RULES, 8);
    assert_eq!(ENDING_RULES, 5);
    let expected = [
        "text/plain;charset=utf-8",
        "text/plain",
        "TEXT",
        "STRING",
        "UTF8_STRING",
        "json",
        "CF_TEXT",
        "CF_UNICODETEXT",
        "script",
        "xml",
        "yaml",
        "csv",
        "ini",
        "text/",
    ];
    for k in 0..TEXT_RULES {
        let rule = text_rule(k).unwrap();
        assert_eq!(rule.pattern, expected[k]);
        let kind = if k < 8 {
            MatchKind::Exact
        } else if k < 13 {
            MatchKind::Suffix
        } else {
            MatchKind::Prefix
        };
        assert_eq!(rule.kind, kind);
    }
    assert!(text_rule(TEXT_RULES).is_none());
    assert!(text_rule(usize::MAX).is_none());
}

#[test]
fn paste_reads_nothing_from_an_empty_offer() {
    assert_eq!(choose_paste_type("", &names(&[])), Ok(None));
    assert_eq!(choose_paste_type("image/png", &names(&[])), Ok(None));
}

#[test]
fn paste_without_a_match() {
    let supported = names(&["image/png"]);
    assert_eq!(choose_paste_type("", &supported), Ok(None));
    assert_eq!(choose_paste_type("text", &supported), Ok(None));
    assert_eq!(choose_paste_type("text/html", &supported), Err(NoMatch {}));
    assert_eq!(choose_paste_type("IMAGE/PNG", &supported), Ok(Some("image/png".to_string())));
}
