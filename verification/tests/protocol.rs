use whisper_overlay::protocol::{ModelResult, Segment};

fn result(text: &str, translated: Option<&str>, source: Option<&str>, segments: Vec<Segment>) -> ModelResult {
    ModelResult {
        kind: "result".to_string(),
        text: text.to_string(),
        translated_text: translated.map(str::to_string),
        source_text: source.map(str::to_string),
        segments,
    }
}

#[test]
fn text_comes_first() {
    assert_eq!(result("hello world", Some("hallo"), Some("src"), Vec::new()).fallback_text(), "hello world");
}

#[test]
fn empty_text_falls_back_to_translation_then_source() {
    assert_eq!(result("", Some("hallo welt"), Some("hello"), Vec::new()).fallback_text(), "hallo welt");
    assert_eq!(result("", None, Some("hello"), Vec::new()).fallback_text(), "hello");
    assert_eq!(result("", None, None, Vec::new()).fallback_text(), "");
    assert_eq!(result("", Some(""), Some("hello"), Vec::new()).fallback_text(), "");
}

#[test]
fn word_segments_are_detected() {
    let plain = result("hi", None, None, vec![Segment { text: Some("hi".to_string()), words: Vec::new() }]);
    assert!(!plain.has_word_segments());
    assert!(!result("hi", None, None, Vec::new()).has_word_segments());
    let rich = result(
        "hi there",
        None,
        None,
        vec![
            Segment { text: None, words: Vec::new() },
            Segment { text: Some("hi there".to_string()), words: vec!["hi".to_string(), " there".to_string()] },
        ],
    );
    assert!(rich.has_word_segments());
}
