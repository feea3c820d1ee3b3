//! The screens of the chat client and the factory that picks one.
use vstd::prelude::*;

use std::sync::mpsc::Sender;

use crate::controller::ControllerMessage;

verus! {

#[verifier::external_type_specification]
#[verifier::external_body]
#[verifier::reject_recursive_types(T)]
pub struct ExSender<T>(Sender<T>);

/// The screens the client can show.
#[derive(Clone, Copy, PartialEq, Eq, Structural)]
pub enum ViewType {
    LoginView,
    ChatWindowView,
}

/// What the factory needs to build a screen: which one, and where its input goes.
pub struct ViewConfig {
    pub view_type: ViewType,
    pub controller_tx: Sender<ControllerMessage>,
}

/// The nickname prompt.
pub struct LoginView;

impl LoginView {
    pub fn new() -> Self {
        LoginView {}
    }
}

/// The chat window: the conversation, the input line and the key hints.
pub struct ChatWindowView;

impl ChatWindowView {
    pub fn new() -> Self {
        ChatWindowView {}
    }
}

/// A screen that the factory built.
pub enum AppViewKind {
    Login(LoginView),
    ChatWindow(ChatWindowView),
}

impl AppViewKind {
    pub open spec fn view_type(self) -> ViewType {
        match self {
            AppViewKind::Login(_) => ViewType::LoginView,
            AppViewKind::ChatWindow(_) => ViewType::ChatWindowView,
        }
    }
}

/// Builds screens from their configuration.
pub struct ViewFactory;

impl ViewFactory {
    /// The screen that the configuration asks for.
    pub fn get(view_config: &ViewConfig) -> (view: AppViewKind)
        ensures
            view.view_type() == view_config.view_type,
    {
        match view_config.view_type {
            ViewType::LoginView => AppViewKind::Login(LoginView::new()),
            ViewType::ChatWindowView => AppViewKind::ChatWindow(ChatWindowView::new()),
        }
    }
}

} // verus!
