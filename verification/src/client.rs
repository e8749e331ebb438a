//! The client of the control channel: what it sends for a mode.

use vstd::prelude::*;
use vstd::string::*;
use vstd::utf8::*;
use crate::listener::MAX_MSG_LEN;

verus! {

/// The bytes of the message for a mode name: the name's bytes, and no more
/// of them than a message takes.
pub open spec fn message_bytes(name: Seq<char>) -> Seq<u8> {
    if encode_utf8(name).len() <= MAX_MSG_LEN {
        encode_utf8(name)
    } else {
        encode_utf8(name).take(MAX_MSG_LEN as int)
    }
}

/// Whether a name can be cut to the length of a message: it is short
/// enough as it is, or the cut does not fall inside a character.
pub open spec fn can_be_cut(name: Seq<char>) -> bool {
    encode_utf8(name).len() <= MAX_MSG_LEN || is_char_boundary(
        encode_utf8(name),
        MAX_MSG_LEN as int,
    )
}

/// The message for a mode name: the name, cut to the length of a message.
/// There is none where the cut would fall inside a character.
pub fn message(name: &str) -> (text: Option<&str>)
    ensures
        match text {
            Some(t) => can_be_cut(name@) && t.spec_bytes() == message_bytes(name@),
            None => !can_be_cut(name@),
        },
{
    if name.as_bytes().len() <= MAX_MSG_LEN {
        Some(name)
    } else if name.is_char_boundary(MAX_MSG_LEN) {
        let head = name.split_at(MAX_MSG_LEN).0;
        assert(name.spec_bytes().subrange(0, MAX_MSG_LEN as int) == name.spec_bytes().take(
            MAX_MSG_LEN as int,
        ));
        Some(head)
    } else {
        None
    }
}

/// A step of the client.
#[derive(Clone, Copy, Debug, PartialEq, Eq, Structural)]
pub enum Stage {
    /// Opening the channel.
    Open,
    /// Sending the message.
    Send,
}

/// How a step of the client ended.
#[derive(Clone, Copy, Debug, PartialEq, Eq, Structural)]
pub enum Attempt {
    /// It went through.
    Done,
    /// There is no such channel.
    NotFound,
    /// The step would have had to wait.
    WouldBlock,
    /// It failed in another way.
    Failed,
}

/// Whether the client ends without a word after a step that did not go
/// through: it does when there is no channel to open, for then no listener
/// runs, and when the channel is too full to send, for then the message is
/// dropped.
pub open spec fn is_quiet(stage: Stage, attempt: Attempt) -> bool {
    ||| stage == Stage::Open && attempt == Attempt::NotFound
    ||| stage == Stage::Send && attempt == Attempt::WouldBlock
}

/// Whether the client reports a failure after a step.
pub fn is_failure(stage: Stage, attempt: Attempt) -> (failed: bool)
    ensures
        failed == (attempt != Attempt::Done && !is_quiet(stage, attempt)),
{
    match attempt {
        Attempt::Done => false,
        Attempt::NotFound => !(stage == Stage::Open),
        Attempt::WouldBlock => !(stage == Stage::Send),
        Attempt::Failed => true,
    }
}

} // verus!
