use peerchat::controller::{route, route_all, ControllerMessage};
use peerchat::ui::{plan_step, UiMessage};
use peerchat::views::ViewType;

fn texts(messages: &[UiMessage]) -> Vec<String> {
    messages
        .iter()
        .filter_map(|m| match m {
            UiMessage::UpdateOutput(t) => Some(t.clone()),
            UiMessage::SwitchView(_) => None,
        })
        .collect()
}

#[test]
fn route_passes_text_and_view_on() {
    match route(&ControllerMessage::UpdatedInputAvailable("hello".to_string())) {
        UiMessage::UpdateOutput(t) => assert_eq!(t, "hello"),
        UiMessage::SwitchView(_) => panic!("wrong message"),
    }
    match route(&ControllerMessage::SwitchView(ViewType::ChatWindowView)) {
        UiMessage::SwitchView(v) => assert!(v == ViewType::ChatWindowView),
        UiMessage::UpdateOutput(_) => panic!("wrong message"),
    }
}

#[test]
fn route_all_keeps_order() {
    let out = route_all(&vec![
        ControllerMessage::UpdatedInputAvailable("a".to_string()),
        ControllerMessage::SwitchView(ViewType::LoginView),
        ControllerMessage::UpdatedInputAvailable("b".to_string()),
    ]);
    assert_eq!(out.len(), 3);
    assert_eq!(texts(&out), vec!["a".to_string(), "b".to_string()]);
    assert!(matches!(out[1], UiMessage::SwitchView(ViewType::LoginView)));
}

#[test]
fn plan_step_appends_lines_when_conversation_is_shown() {
    let messages = vec![
        UiMessage::UpdateOutput("one".to_string()),
        UiMessage::SwitchView(ViewType::ChatWindowView),
        UiMessage::UpdateOutput("two".to_string()),
    ];
    let update = plan_step(&messages, true);
    assert_eq!(update.new_items, vec!["one".to_string(), "two".to_string()]);
    assert!(update.refresh);
    assert!(update.switch_to == Some(ViewType::ChatWindowView));
}

#[test]
fn plan_step_without_conversation_adds_nothing() {
    let messages = vec![UiMessage::UpdateOutput("one".to_string())];
    let update = plan_step(&messages, false);
    assert!(update.new_items.is_empty());
    assert!(!update.refresh);
    assert!(update.switch_to.is_none());
}

#[test]
fn plan_step_with_no_messages_does_not_redraw() {
    let update = plan_step(&Vec::new(), true);
    assert!(update.new_items.is_empty());
    assert!(!update.refresh);
    assert!(update.switch_to.is_none());
}

#[test]
fn plan_step_takes_the_last_requested_view() {
    let messages = vec![
        UiMessage::SwitchView(ViewType::ChatWindowView),
        UiMessage::SwitchView(ViewType::LoginView),
    ];
    let update = plan_step(&messages, true);
    assert!(update.switch_to == Some(ViewType::LoginView));
    assert!(!update.refresh);
}

#[test]
fn submitted_lines_reach_the_conversation() {
    let submitted = vec![
        ControllerMessage::UpdatedInputAvailable("hey".to_string()),
        ControllerMessage::SwitchView(ViewType::ChatWindowView),
        ControllerMessage::UpdatedInputAvailable("there".to_string()),
    ];
    let update = plan_step(&route_all(&submitted), true);
    assert_eq!(update.new_items, vec!["hey".to_string(), "there".to_string()]);
    assert!(update.switch_to == Some(ViewType::ChatWindowView));
}
