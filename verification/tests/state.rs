use peerchat::state::{chat_line, AppData, AppState, InputMode};

#[test]
fn default_state_is_empty_and_in_command_mode() {
    let state = AppState::default();
    assert!(state.data.messages.is_empty());
    assert_eq!(state.data.input, "");
    assert!(state.input_mode == InputMode::Command);
    let data = AppData::default();
    assert!(data.messages.is_empty());
    assert_eq!(data.input, "");
}

#[test]
fn chat_line_joins_sender_and_text() {
    assert_eq!(chat_line("keshiba", "hi"), "keshiba: hi");
    assert_eq!(chat_line("", ""), ": ");
}

#[test]
fn opening_conversation_renders_four_lines() {
    let state = AppState::opening();
    assert!(state.input_mode == InputMode::Command);
    let lines = state.data.chat_lines();
    assert_eq!(
        lines,
        vec![
            "keshiba: Hey people! What's up ?".to_string(),
            "anon1: Hey, all good".to_string(),
            "keshiba: Follow the white rabbit".to_string(),
            "anon1: You high bro ?".to_string(),
        ]
    );
}

#[test]
fn chat_lines_of_an_empty_conversation() {
    assert!(AppData::default().chat_lines().is_empty());
}
