//! Routing of what the user does to what the screen shows.
use vstd::prelude::*;

use crate::ui::{output_lines, requested_view, UiMessage};
use crate::views::ViewType;

verus! {

/// What the screens report to the controller.
pub enum ControllerMessage {
    /// The user submitted a line of input.
    UpdatedInputAvailable(String),
    /// The user asked for another screen.
    SwitchView(ViewType),
}

} // verus!

verus! {

/// What the screen is told for a message from the controller's queue: a
/// submitted line is shown in the conversation, a screen change is passed on.
pub open spec fn routed(message: ControllerMessage) -> UiMessage {
    match message {
        ControllerMessage::UpdatedInputAvailable(text) => UiMessage::UpdateOutput(text),
        ControllerMessage::SwitchView(view_type) => UiMessage::SwitchView(view_type),
    }
}

/// The message for the screen that one message to the controller turns into.
pub fn route(message: &ControllerMessage) -> (out: UiMessage)
    ensures
        out == routed(*message),
{
    match message {
        ControllerMessage::UpdatedInputAvailable(text) => UiMessage::UpdateOutput(text.clone()),
        ControllerMessage::SwitchView(view_type) => UiMessage::SwitchView(*view_type),
    }
}

/// Routes the messages that were waiting in the controller's queue, in order.
pub fn route_all(messages: &Vec<ControllerMessage>) -> (out: Vec<UiMessage>)
    ensures
        out@ == messages@.map_values(|m: ControllerMessage| routed(m)),
{
    let mut out: Vec<UiMessage> = Vec::new();
    let mut i: usize = 0;
    while i < messages.len()
        invariant
            i <= messages@.len(),
            out@ == messages@.take(i as int).map_values(|m: ControllerMessage| routed(m)),
        decreases messages@.len() - i,
    {
        out.push(route(&messages[i]));
        assert(messages@.take(i + 1) =~= messages@.take(i as int).push(messages@[i as int]));
        i = i + 1;
    }
    assert(messages@.take(messages@.len() as int) =~= messages@);
    out
}


/// The lines the user submitted, in order.
pub open spec fn submitted_lines(messages: Seq<ControllerMessage>) -> Seq<String>
    decreases messages.len(),
{
    if messages.len() == 0 {
        Seq::empty()
    } else {
        let earlier = submitted_lines(messages.drop_last());
        match messages.last() {
            ControllerMessage::UpdatedInputAvailable(text) => earlier.push(text),
            ControllerMessage::SwitchView(_) => earlier,
        }
    }
}

/// The screen the user asked for last, if any.
pub open spec fn last_requested_view(messages: Seq<ControllerMessage>) -> Option<ViewType>
    decreases messages.len(),
{
    if messages.len() == 0 {
        None
    } else {
        match messages.last() {
            ControllerMessage::SwitchView(view_type) => Some(view_type),
            ControllerMessage::UpdatedInputAvailable(_) => last_requested_view(messages.drop_last()),
        }
    }
}

/// What the user submits reaches the conversation: routing a batch of messages to
/// the screen yields exactly the submitted lines, in order, as lines to show, and
/// the last screen asked for as the screen to show.
pub proof fn lemma_submitted_lines_reach_conversation(messages: Seq<ControllerMessage>)
    ensures
        output_lines(messages.map_values(|m: ControllerMessage| routed(m))) == submitted_lines(messages),
        requested_view(messages.map_values(|m: ControllerMessage| routed(m))) == last_requested_view(messages),
    decreases messages.len(),
{
    if messages.len() > 0 {
        lemma_submitted_lines_reach_conversation(messages.drop_last());
        assert(messages.map_values(|m: ControllerMessage| routed(m)).drop_last()
            =~= messages.drop_last().map_values(|m: ControllerMessage| routed(m)));
    }
}

} // verus!
