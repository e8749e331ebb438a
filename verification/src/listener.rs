//! The control listener: turns the messages of the control channel into
//! requests for the mode controller.
//!
//! A message is the name of a mode. The listener decodes it; the caller
//! looks for the mode's executable; only a mode that exists is passed on.
//! Whatever else arrives is dropped without a word.

use vstd::prelude::*;
use vstd::utf8::*;
use crate::controller::Update;
use crate::mode::Mode;
use crate::text::{from_utf8_lossy, utf8_lossy};

verus! {

/// The name of the control channel.
pub const MQUEUE: &'static str = "/runel";

/// The longest message that the control channel takes, in bytes.
pub const MAX_MSG_LEN: usize = 255;

/// How many messages the control channel holds.
pub const CAPACITY: usize = 10;

/// What the listener makes of one receive.
#[derive(Debug)]
pub enum Heard<E> {
    /// A message came, and this is the mode it names. The executable of
    /// that mode has yet to be looked for.
    Request(String),
    /// The channel failed. The error goes to the aggregator and the listener
    /// stops.
    Fail(E),
}

/// Handles the outcome of one receive on the control channel. The bytes of
/// a message are decoded as UTF-8, with every invalid sequence replaced.
pub fn on_receive<E>(received: Result<&[u8], E>) -> (heard: Heard<E>)
    ensures
        match received {
            Ok(bytes) => {
                &&& heard matches Heard::Request(name)
                &&& name@ == utf8_lossy(bytes@)
                &&& valid_utf8(bytes@) ==> name@ == decode_utf8(bytes@)
            },
            Err(e) => heard == Heard::<E>::Fail(e),
        },
{
    match received {
        Ok(bytes) => Heard::Request(from_utf8_lossy(bytes)),
        Err(e) => Heard::Fail(e),
    }
}

/// Turns a decoded message into an update for the controller, once the
/// caller has looked for the mode's executable at `path`: a mode that
/// exists is requested, anything else is dropped.
pub fn on_resolved(name: &str, path: String, is_file: bool) -> (update: Option<Update>)
    ensures
        is_file ==> (update matches Some(Update::Mode(m)) && m.mode@ == name@ && m.path@
            == path@),
        !is_file ==> update is None,
{
    match Mode::from_str(name, path, is_file) {
        Ok(mode) => Some(Update::Mode(mode)),
        Err(_) => None,
    }
}

} // verus!
