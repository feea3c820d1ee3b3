use peerchat::controller::ControllerMessage;
use peerchat::views::{AppViewKind, ChatWindowView, LoginView, ViewConfig, ViewFactory, ViewType};
use std::sync::mpsc;

#[test]
fn factory_builds_the_requested_view() {
    let (tx, _rx) = mpsc::channel::<ControllerMessage>();
    let login = ViewConfig { view_type: ViewType::LoginView, controller_tx: tx.clone() };
    assert!(matches!(ViewFactory::get(&login), AppViewKind::Login(_)));
    let chat = ViewConfig { view_type: ViewType::ChatWindowView, controller_tx: tx };
    assert!(matches!(ViewFactory::get(&chat), AppViewKind::ChatWindow(_)));
}

#[test]
fn views_can_be_created() {
    assert!(matches!(LoginView::new(), LoginView));
    assert!(matches!(ChatWindowView::new(), ChatWindowView));
}
