//! Chat commands: what a message asks the bot to do.
//!
//! A command is a message that begins with `!`. The word after the `!`,
//! up to the first space, names the command, and what follows that space
//! is its text. `!echo` says its text in the channel and needs a space
//! after its name. `!test` answers the message with its text, which may
//! be empty. Everything else is ignored.

use vstd::prelude::*;
use crate::split::{copy_from, find_piece_end, piece_end, range_equals, SPACE};

verus! {

/// The byte `!`, with which every command begins.
pub const PREFIX: u8 = 33;

/// What the bot does on a message.
#[derive(Clone, Debug, PartialEq, Eq)]
pub enum ChatAction {
    /// Nothing.
    Ignore,
    /// Say the text in the channel of the message.
    Say(Vec<u8>),
    /// Answer the message with the text.
    Reply(Vec<u8>),
}

/// The model of a [`ChatAction`].
pub ghost enum ActionModel {
    Ignore,
    Say(Seq<u8>),
    Reply(Seq<u8>),
}

impl View for ChatAction {
    type V = ActionModel;

    open spec fn view(&self) -> ActionModel {
        match *self {
            ChatAction::Ignore => ActionModel::Ignore,
            ChatAction::Say(text) => ActionModel::Say(text@),
            ChatAction::Reply(text) => ActionModel::Reply(text@),
        }
    }
}

/// The bytes of `echo`.
pub open spec fn echo_word() -> Seq<u8> {
    seq![101u8, 99u8, 104u8, 111u8]
}

/// The bytes of `test`.
pub open spec fn test_word() -> Seq<u8> {
    seq![116u8, 101u8, 115u8, 116u8]
}

/// The name of the command in a message that begins with the prefix.
pub open spec fn command_name(content: Seq<u8>) -> Seq<u8> {
    content.subrange(1, piece_end(content, SPACE, 1))
}

/// The text of the command: what follows the first space after the name,
/// if there is such a space.
pub open spec fn command_text(content: Seq<u8>) -> Option<Seq<u8>> {
    let name_end = piece_end(content, SPACE, 1);
    if name_end < content.len() {
        Some(content.subrange(name_end + 1, content.len() as int))
    } else {
        None
    }
}

/// What a message asks for.
pub open spec fn interpret(content: Seq<u8>) -> ActionModel {
    if content.len() == 0 || content[0] != PREFIX {
        ActionModel::Ignore
    } else if command_name(content) == echo_word() {
        match command_text(content) {
            Some(text) => ActionModel::Say(text),
            None => ActionModel::Ignore,
        }
    } else if command_name(content) == test_word() {
        match command_text(content) {
            Some(text) => ActionModel::Reply(text),
            None => ActionModel::Reply(Seq::empty()),
        }
    } else {
        ActionModel::Ignore
    }
}

/// Reads a message and returns what it asks for.
pub fn interpret_message(content: &[u8]) -> (action: ChatAction)
    ensures
        action@ == interpret(content@),
{
    if content.len() == 0 || content[0] != PREFIX {
        return ChatAction::Ignore;
    }
    let name_end: usize = find_piece_end(content, SPACE, 1);
    let echo: [u8; 4] = [101, 99, 104, 111];
    let test: [u8; 4] = [116, 101, 115, 116];
    assert(echo@ =~= echo_word());
    assert(test@ =~= test_word());
    if range_equals(content, 1, name_end, echo.as_slice()) {
        if name_end < content.len() {
            ChatAction::Say(copy_from(content, name_end + 1))
        } else {
            ChatAction::Ignore
        }
    } else if range_equals(content, 1, name_end, test.as_slice()) {
        if name_end < content.len() {
            ChatAction::Reply(copy_from(content, name_end + 1))
        } else {
            ChatAction::Reply(Vec::new())
        }
    } else {
        ChatAction::Ignore
    }
}

} // verus!
