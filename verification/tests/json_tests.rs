use capture_agent::activity::{ActivityMeta, ActivityType, LogData};
use capture_agent::json::encode_log_data;

fn meta(
    timestamp: &str,
    activity_type: ActivityType,
    details: &str,
    window_title: Option<&str>,
    app_name: Option<&str>,
) -> ActivityMeta {
    ActivityMeta {
        timestamp: timestamp.to_string(),
        activity_type,
        details: details.to_string(),
        window_title: window_title.map(|s| s.to_string()),
        app_name: app_name.map(|s| s.to_string()),
    }
}

fn encode(activities: Vec<ActivityMeta>) -> String {
    String::from_utf8(encode_log_data(&LogData { activities })).expect("the document is UTF-8")
}

#[test]
fn empty_batch() {
    assert_eq!(encode(Vec::new()), "{\"activities\":[]}");
}

#[test]
fn one_record_without_optional_fields() {
    let out = encode(vec![meta("t1", ActivityType::MouseClick, "3 mouse clicks", None, None)]);
    assert_eq!(
        out,
        "{\"activities\":[{\"timestamp\":\"t1\",\"activity_type\":\"MouseClick\",\
         \"details\":\"3 mouse clicks\"}]}"
    );
}

#[test]
fn optional_fields_appear_when_present() {
    let out = encode(vec![meta(
        "t",
        ActivityType::WindowFocus,
        "Focus on: 'doc'",
        Some("doc"),
        Some("Notepad"),
    )]);
    assert_eq!(
        out,
        "{\"activities\":[{\"timestamp\":\"t\",\"activity_type\":\"WindowFocus\",\
         \"details\":\"Focus on: 'doc'\",\"window_title\":\"doc\",\"app_name\":\"Notepad\"}]}"
    );
}

#[test]
fn records_are_comma_separated() {
    let out = encode(vec![
        meta("t1", ActivityType::MouseClick, "1 mouse clicks", None, None),
        meta("t2", ActivityType::MouseScroll, "2 scroll events", None, None),
    ]);
    assert_eq!(
        out,
        "{\"activities\":[{\"timestamp\":\"t1\",\"activity_type\":\"MouseClick\",\
         \"details\":\"1 mouse clicks\"},{\"timestamp\":\"t2\",\
         \"activity_type\":\"MouseScroll\",\"details\":\"2 scroll events\"}]}"
    );
}

#[test]
fn strings_are_escaped() {
    let out = encode(vec![meta(
        "t",
        ActivityType::KeyboardInput,
        "a\"b\\c\nd\te\rf",
        None,
        None,
    )]);
    assert_eq!(
        out,
        "{\"activities\":[{\"timestamp\":\"t\",\"activity_type\":\"KeyboardInput\",\
         \"details\":\"a\\\"b\\\\c\\nd\\te\\rf\"}]}"
    );
}

#[test]
fn rare_control_characters_use_hex_escapes() {
    let out = encode(vec![meta("t", ActivityType::KeyboardInput, "\u{01}\u{1f}", None, None)]);
    assert_eq!(
        out,
        "{\"activities\":[{\"timestamp\":\"t\",\"activity_type\":\"KeyboardInput\",\
         \"details\":\"\\u0001\\u001f\"}]}"
    );
}

#[test]
fn multibyte_text_passes_through_unescaped() {
    let out = encode(vec![meta("t", ActivityType::KeyboardInput, "héllo – ₿", None, None)]);
    assert_eq!(
        out,
        "{\"activities\":[{\"timestamp\":\"t\",\"activity_type\":\"KeyboardInput\",\
         \"details\":\"héllo – ₿\"}]}"
    );
}

#[test]
fn every_activity_kind_has_its_name() {
    for (kind, name) in [
        (ActivityType::KeyboardInput, "KeyboardInput"),
        (ActivityType::MouseClick, "MouseClick"),
        (ActivityType::MouseScroll, "MouseScroll"),
        (ActivityType::WindowFocus, "WindowFocus"),
        (ActivityType::BrowserActivity, "BrowserActivity"),
    ] {
        let out = encode(vec![meta("t", kind, "d", None, None)]);
        assert!(out.contains(&format!("\"activity_type\":\"{}\"", name)));
    }
}
