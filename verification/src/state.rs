//! The client's state: the conversation so far, the input line and the input mode.
use vstd::prelude::*;

verus! {

/// Whether keys go to the commands (`i`, `q`) or to the input line.
#[derive(Clone, Copy, PartialEq, Eq, Structural)]
pub enum InputMode {
    Command,
    Edit,
}

/// The conversation, as (sender, text) pairs, and the line being typed.
#[derive(Clone)]
pub struct AppData {
    pub messages: Vec<(String, String)>,
    pub input: String,
}

/// Everything the client keeps between turns.
#[derive(Clone)]
pub struct AppState {
    pub data: AppData,
    pub input_mode: InputMode,
}

impl Default for AppData {
    fn default() -> (data: Self)
        ensures
            data.messages@.len() == 0,
            data.input@ == Seq::<char>::empty(),
    {
        AppData { messages: Vec::new(), input: String::new() }
    }
}

impl Default for AppState {
    fn default() -> (state: Self)
        ensures
            state.data.messages@.len() == 0,
            state.data.input@ == Seq::<char>::empty(),
            state.input_mode == InputMode::Command,
    {
        AppState { data: AppData::default(), input_mode: InputMode::Command }
    }
}

/// How a message reads in the conversation list: the sender, a colon, a space, the text.
pub open spec fn chat_line_text(sender: Seq<char>, text: Seq<char>) -> Seq<char> {
    sender + ": "@ + text
}

/// A conversation line holds the whole sender, then a colon and a space, then the
/// whole text, and nothing else.
pub proof fn lemma_chat_line_parts(sender: Seq<char>, text: Seq<char>)
    ensures
        chat_line_text(sender, text).len() == sender.len() + 2 + text.len(),
        chat_line_text(sender, text).subrange(0, sender.len() as int) == sender,
        chat_line_text(sender, text)[sender.len() as int] == ':',
        chat_line_text(sender, text)[sender.len() + 1int] == ' ',
        chat_line_text(sender, text).subrange(sender.len() + 2int, chat_line_text(sender, text).len() as int)
            == text,
{
    reveal_strlit(": ");
    let line = chat_line_text(sender, text);
    assert(line.subrange(0, sender.len() as int) =~= sender);
    assert(line.subrange(sender.len() + 2int, line.len() as int) =~= text);
}

/// The line that shows a message in the conversation list: the whole sender, a
/// colon and a space, and the whole text.
pub fn chat_line(sender: &str, text: &str) -> (line: String)
    ensures
        line@ == chat_line_text(sender@, text@),
        line@.len() == sender@.len() + 2 + text@.len(),
        line@.subrange(0, sender@.len() as int) == sender@,
        line@[sender@.len() as int] == ':',
        line@[sender@.len() + 1int] == ' ',
        line@.subrange(sender@.len() + 2int, line@.len() as int) == text@,
{
    proof {
        lemma_chat_line_parts(sender@, text@);
    }
    let mut line = String::from_str(sender);
    line.append(": ");
    line.append(text);
    line
}

impl AppData {
    /// The conversation list's lines, one per message, in order.
    pub fn chat_lines(&self) -> (lines: Vec<String>)
        ensures
            lines@.len() == self.messages@.len(),
            forall|i: int| 0 <= i < lines@.len() ==>
                #[trigger] lines@[i]@ == chat_line_text(self.messages@[i].0@, self.messages@[i].1@),
    {
        let mut lines: Vec<String> = Vec::new();
        let mut i: usize = 0;
        while i < self.messages.len()
            invariant
                i <= self.messages@.len(),
                lines@.len() == i,
                forall|j: int| 0 <= j < i ==>
                    #[trigger] lines@[j]@ == chat_line_text(self.messages@[j].0@, self.messages@[j].1@),
            decreases self.messages@.len() - i,
        {
            let message = &self.messages[i];
            lines.push(chat_line(message.0.as_str(), message.1.as_str()));
            i = i + 1;
        }
        lines
    }
}


impl AppState {
    /// The state the chat window opens with: the default state holding the
    /// opening conversation.
    pub fn opening() -> (state: Self)
        ensures
            state.input_mode == InputMode::Command,
            state.data.input@ == Seq::<char>::empty(),
            state.data.messages@.len() == 4,
            state.data.messages@[0].0@ == "keshiba"@,
            state.data.messages@[0].1@ == "Hey people! What's up ?"@,
            state.data.messages@[1].0@ == "anon1"@,
            state.data.messages@[1].1@ == "Hey, all good"@,
            state.data.messages@[2].0@ == "keshiba"@,
            state.data.messages@[2].1@ == "Follow the white rabbit"@,
            state.data.messages@[3].0@ == "anon1"@,
            state.data.messages@[3].1@ == "You high bro ?"@,
    {
        let mut state = AppState::default();
        let mut messages: Vec<(String, String)> = Vec::new();
        messages.push(("keshiba".to_owned(), "Hey people! What's up ?".to_owned()));
        messages.push(("anon1".to_owned(), "Hey, all good".to_owned()));
        messages.push(("keshiba".to_owned(), "Follow the white rabbit".to_owned()));
        messages.push(("anon1".to_owned(), "You high bro ?".to_owned()));
        state.data.messages = messages;
        state
    }
}

} // verus!
