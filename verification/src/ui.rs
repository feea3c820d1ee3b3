//! What one turn of the terminal screen does with the messages sent to it.
use vstd::prelude::*;

use crate::views::ViewType;

verus! {

/// What the controller sends to the screen.
pub enum UiMessage {
    /// A line to add to the conversation.
    UpdateOutput(String),
    /// The screen to show next.
    SwitchView(ViewType),
}

/// What the screen does in one turn.
pub struct UiUpdate {
    /// Lines to append to the conversation list, in order.
    pub new_items: Vec<String>,
    /// Whether the screen must be redrawn.
    pub refresh: bool,
    /// The screen to show next, if one was asked for.
    pub switch_to: Option<ViewType>,
}

/// The lines carried by the `UpdateOutput` messages, in order.
pub open spec fn output_lines(messages: Seq<UiMessage>) -> Seq<String>
    decreases messages.len(),
{
    if messages.len() == 0 {
        Seq::empty()
    } else {
        let earlier = output_lines(messages.drop_last());
        match messages.last() {
            UiMessage::UpdateOutput(text) => earlier.push(text),
            UiMessage::SwitchView(_) => earlier,
        }
    }
}

/// The screen asked for by the last `SwitchView` message, if any.
pub open spec fn requested_view(messages: Seq<UiMessage>) -> Option<ViewType>
    decreases messages.len(),
{
    if messages.len() == 0 {
        None
    } else {
        match messages.last() {
            UiMessage::SwitchView(view_type) => Some(view_type),
            UiMessage::UpdateOutput(_) => requested_view(messages.drop_last()),
        }
    }
}

/// One turn of the screen over the messages that were waiting for it. Lines are
/// added, and the screen redrawn, only where the conversation list is on screen.
pub fn plan_step(messages: &Vec<UiMessage>, conversation_shown: bool) -> (update: UiUpdate)
    ensures
        update.new_items@ == (if conversation_shown { output_lines(messages@) } else { Seq::empty() }),
        update.refresh == (conversation_shown && output_lines(messages@).len() > 0),
        update.switch_to == requested_view(messages@),
{
    let mut new_items: Vec<String> = Vec::new();
    let mut refresh = false;
    let mut switch_to: Option<ViewType> = None;
    let mut i: usize = 0;
    while i < messages.len()
        invariant
            i <= messages@.len(),
            new_items@ == (if conversation_shown { output_lines(messages@.take(i as int)) } else { Seq::empty() }),
            refresh == (conversation_shown && output_lines(messages@.take(i as int)).len() > 0),
            switch_to == requested_view(messages@.take(i as int)),
        decreases messages@.len() - i,
    {
        assert(messages@.take(i + 1).drop_last() =~= messages@.take(i as int));
        match &messages[i] {
            UiMessage::UpdateOutput(text) => {
                if conversation_shown {
                    new_items.push(text.clone());
                    refresh = true;
                }
            },
            UiMessage::SwitchView(view_type) => {
                switch_to = Some(*view_type);
            },
        }
        i = i + 1;
    }
    assert(messages@.take(messages@.len() as int) =~= messages@);
    UiUpdate { new_items, refresh, switch_to }
}

} // verus!
