//! The interactive chat: what a line typed by the user asks for.

use vstd::prelude::*;
use crate::text::{self, text_eq, trim};

verus! {

/// What a line typed by the user asks for.
pub enum ChatInput {
    /// End the chat.
    Quit,
    /// Nothing: the line is blank.
    Empty,
    /// Ask the agent this question.
    Query(String),
}

pub enum ChatInputView {
    Quit,
    Empty,
    Query(Seq<char>),
}

impl View for ChatInput {
    type V = ChatInputView;

    open spec fn view(&self) -> ChatInputView {
        match self {
            ChatInput::Quit => ChatInputView::Quit,
            ChatInput::Empty => ChatInputView::Empty,
            ChatInput::Query(q) => ChatInputView::Query(q@),
        }
    }
}

/// What a line asks for, read without white space at either end: `exit` or
/// `quit` ends the chat, a blank line asks nothing, anything else is a
/// question.
pub open spec fn chat_input(line: Seq<char>) -> ChatInputView {
    let t = text::trimmed(line);
    if t == "exit"@ || t == "quit"@ {
        ChatInputView::Quit
    } else if t.len() == 0 {
        ChatInputView::Empty
    } else {
        ChatInputView::Query(t)
    }
}

/// A line ends the chat exactly when its text, without white space at
/// either end, is `exit` or `quit`; a line that is only white space asks
/// nothing; every other line asks the question it holds, without white space
/// at either end. So a question that merely contains `exit` or `quit` is
/// asked.
pub proof fn lemma_chat_input(line: Seq<char>)
    ensures
        (chat_input(line) == ChatInputView::Quit) <==> (text::trimmed(line) == "exit"@
            || text::trimmed(line) == "quit"@),
        (chat_input(line) == ChatInputView::Empty) <==> text::trimmed(line).len() == 0,
        text::trimmed(line) != "exit"@ && text::trimmed(line) != "quit"@ && text::trimmed(line).len()
            > 0 ==> chat_input(line) == ChatInputView::Query(text::trimmed(line)),
        chat_input(line) matches ChatInputView::Query(q) ==> q == text::trimmed(line) && q.len() > 0,
{
    reveal_strlit("exit");
    reveal_strlit("quit");
}

/// What a line typed by the user asks for.
pub fn classify_input(line: &str) -> (res: ChatInput)
    ensures
        res@ == chat_input(line@),
        (res is Quit) <==> (text::trimmed(line@) == "exit"@ || text::trimmed(line@) == "quit"@),
        (res is Empty) <==> text::trimmed(line@).len() == 0,
        res matches ChatInput::Query(q) ==> q@ == text::trimmed(line@),
{
    proof {
        lemma_chat_input(line@);
    }
    let t = trim(line);
    if text_eq(t.as_str(), "exit") || text_eq(t.as_str(), "quit") {
        ChatInput::Quit
    } else if t.as_str().unicode_len() == 0 {
        ChatInput::Empty
    } else {
        ChatInput::Query(t)
    }
}

} // verus!
