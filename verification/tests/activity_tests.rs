use capture_agent::activity::{
    classify_focus_app, ActivityLoggerState, ActivityType, FocusSnapshot, KeyInput,
};

fn running_logger() -> ActivityLoggerState {
    let mut s = ActivityLoggerState::new();
    s.is_activity_logging_running = true;
    s
}

#[test]
fn keyboard_text_is_coalesced_per_window() {
    let mut s = running_logger();
    s.record_key("editor".to_string(), KeyInput::Named("h".to_string()));
    s.record_key("editor".to_string(), KeyInput::Named("i".to_string()));
    s.record_key("terminal".to_string(), KeyInput::Named("ls".to_string()));
    s.record_key("editor".to_string(), KeyInput::Space);
    assert_eq!(s.keystroke_buffer.len(), 2);
    assert_eq!(s.keystroke_buffer[0].0, "editor");
    assert_eq!(s.keystroke_buffer[0].1, "hi ");
    assert_eq!(s.keystroke_buffer[1].0, "terminal");
    assert_eq!(s.keystroke_buffer[1].1, "ls");
}

#[test]
fn special_keys_append_their_characters() {
    let mut s = running_logger();
    s.record_key("w".to_string(), KeyInput::Named("a".to_string()));
    s.record_key("w".to_string(), KeyInput::Return);
    s.record_key("w".to_string(), KeyInput::Tab);
    s.record_key("w".to_string(), KeyInput::Other);
    assert_eq!(s.keystroke_buffer[0].1, "a\n\t");
}

#[test]
fn backspace_removes_the_last_character() {
    let mut s = running_logger();
    s.record_key("w".to_string(), KeyInput::Named("ab".to_string()));
    s.record_key("w".to_string(), KeyInput::Backspace);
    assert_eq!(s.keystroke_buffer[0].1, "a");
    s.record_key("w".to_string(), KeyInput::Backspace);
    assert_eq!(s.keystroke_buffer[0].1, "");
    s.record_key("w".to_string(), KeyInput::Backspace);
    assert_eq!(s.keystroke_buffer[0].1, "");
}

#[test]
fn events_are_ignored_while_stopped() {
    let mut s = ActivityLoggerState::new();
    s.record_key("w".to_string(), KeyInput::Named("a".to_string()));
    s.record_click();
    s.record_scroll(3);
    assert!(s.keystroke_buffer.is_empty());
    assert_eq!(s.mouse_click_count, 0);
    assert_eq!(s.mouse_scroll_count, 0);
}

#[test]
fn counters_count_clicks_and_vertical_scrolls() {
    let mut s = running_logger();
    s.record_click();
    s.record_click();
    s.record_click();
    s.record_scroll(0);
    s.record_scroll(-2);
    assert_eq!(s.mouse_click_count, 3);
    assert_eq!(s.mouse_scroll_count, 1);
}

#[test]
fn browser_names_are_classified_case_insensitively() {
    assert_eq!(classify_focus_app("Google Chrome"), ActivityType::BrowserActivity);
    assert_eq!(classify_focus_app("FIREFOX"), ActivityType::BrowserActivity);
    assert_eq!(classify_focus_app("MSEdge"), ActivityType::BrowserActivity);
    assert_eq!(classify_focus_app("Safari"), ActivityType::BrowserActivity);
    assert_eq!(classify_focus_app("Brave Browser"), ActivityType::BrowserActivity);
    assert_eq!(classify_focus_app("Notepad"), ActivityType::WindowFocus);
    assert_eq!(classify_focus_app(""), ActivityType::WindowFocus);
}

#[test]
fn drain_produces_focus_keyboard_then_counters() {
    let mut s = running_logger();
    s.record_key("doc".to_string(), KeyInput::Named("hello".to_string()));
    s.record_click();
    s.record_click();
    s.record_scroll(1);
    let mut last = String::new();
    let batch = s.drain_batch(
        "2026-10-11T12:00:00Z",
        Some(FocusSnapshot { title: "doc".to_string(), app_name: "Notepad".to_string() }),
        &mut last,
    );
    assert_eq!(batch.len(), 4);

    assert_eq!(batch[0].activity_type, ActivityType::WindowFocus);
    assert_eq!(batch[0].details, "Focus on: 'doc'");
    assert_eq!(batch[0].window_title.as_deref(), Some("doc"));
    assert_eq!(batch[0].app_name.as_deref(), Some("Notepad"));
    assert_eq!(batch[0].timestamp, "2026-10-11T12:00:00Z");

    assert_eq!(batch[1].activity_type, ActivityType::KeyboardInput);
    assert_eq!(batch[1].details, "hello");
    assert_eq!(batch[1].window_title.as_deref(), Some("doc"));
    assert_eq!(batch[1].app_name, None);

    assert_eq!(batch[2].activity_type, ActivityType::MouseClick);
    assert_eq!(batch[2].details, "2 mouse clicks");
    assert_eq!(batch[2].window_title, None);

    assert_eq!(batch[3].activity_type, ActivityType::MouseScroll);
    assert_eq!(batch[3].details, "1 scroll events");

    assert_eq!(last, "doc");
    assert!(s.keystroke_buffer.is_empty());
    assert_eq!(s.mouse_click_count, 0);
    assert_eq!(s.mouse_scroll_count, 0);
}

#[test]
fn unchanged_focus_is_not_logged_again() {
    let mut s = running_logger();
    let mut last = "doc".to_string();
    let batch = s.drain_batch(
        "t",
        Some(FocusSnapshot { title: "doc".to_string(), app_name: "Notepad".to_string() }),
        &mut last,
    );
    assert!(batch.is_empty());
    assert_eq!(last, "doc");
}

#[test]
fn empty_title_is_not_logged() {
    let mut s = running_logger();
    let mut last = "doc".to_string();
    let batch = s.drain_batch(
        "t",
        Some(FocusSnapshot { title: String::new(), app_name: "x".to_string() }),
        &mut last,
    );
    assert!(batch.is_empty());
    assert_eq!(last, "doc");
}

#[test]
fn empty_keyboard_entries_are_skipped() {
    let mut s = running_logger();
    s.record_key("w".to_string(), KeyInput::Named("a".to_string()));
    s.record_key("w".to_string(), KeyInput::Backspace);
    let mut last = String::new();
    let batch = s.drain_batch("t", None, &mut last);
    assert!(batch.is_empty());
    assert!(s.keystroke_buffer.is_empty());
}

#[test]
fn browser_focus_is_logged_as_browser_activity() {
    let mut s = running_logger();
    let mut last = String::new();
    let batch = s.drain_batch(
        "t",
        Some(FocusSnapshot {
            title: "Example - Google Chrome".to_string(),
            app_name: "chrome.exe".to_string(),
        }),
        &mut last,
    );
    assert_eq!(batch.len(), 1);
    assert_eq!(batch[0].activity_type, ActivityType::BrowserActivity);
}
