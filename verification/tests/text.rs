use whisper_overlay::text::{contains, ends_with, parse_u16, split_first, str_eq, strip_prefix};

#[test]
fn string_helpers() {
    assert!(str_eq("abc", "abc"));
    assert!(!str_eq("abc", "abd"));
    assert!(ends_with("sink.monitor", ".monitor"));
    assert!(!ends_with("monitor", ".monitor"));
    assert_eq!(strip_prefix("pulse:x", "pulse:"), Some("x"));
    assert!(contains("easyeffects sink", "sink"));
    assert!(contains("abc", ""));
    assert!(!contains("ab", "abc"));
    assert_eq!(split_first("a:b:c", ':'), ("a", Some("b:c")));
    assert_eq!(split_first("abc", ':'), ("abc", None));
    assert_eq!(split_first("ä:ö", ':'), ("ä", Some("ö")));
}

#[test]
fn u16_parsing_follows_std() {
    for s in ["0", "7007", "+7007", "65535", "65536", "", "+", "-1", " 1", "1 ", "00080", "1_000", "٣"] {
        assert_eq!(parse_u16(s), s.parse::<u16>().ok(), "input {s:?}");
    }
}
