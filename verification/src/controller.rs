//! The mode controller: which mode is active, under which generation, and
//! what to do with each update that reaches it.
//!
//! Every start of a mode program gets a fresh generation id. The reader of a
//! generation announces each line with its id and then waits to be
//! acknowledged; the controller adopts a line only if the id is the current
//! one, so that a reader that was already replaced cannot touch the mode's
//! value.

use vstd::prelude::*;
use crate::cell::update_value;
use crate::mode::Mode;
use crate::text::str_eq;

verus! {

/// The id that follows `id`: one more, starting over after the largest.
pub open spec fn next_id(id: usize) -> usize {
    if id == usize::MAX {
        0
    } else {
        (id + 1) as usize
    }
}

/// A source of generation ids.
pub struct Uid {
    id: usize,
}

/// A source of ids that has not issued any; the first one will be 1.
pub fn make_uid() -> (uid: Uid)
    ensures
        uid.last() == 0,
{
    Uid { id: 0 }
}

impl Uid {
    /// The id issued last.
    pub closed spec fn last(&self) -> usize {
        self.id
    }

    /// Issues the next id.
    pub fn next(&mut self) -> (id: usize)
        ensures
            id == next_id(old(self).last()),
            final(self).last() == id,
            id != old(self).last(),
            old(self).last() < usize::MAX ==> id > old(self).last(),
    {
        self.id = self.id.wrapping_add(1);
        self.id
    }
}

/// What the controller answers to the reader that waits for it.
#[derive(Clone, Copy, Debug, PartialEq, Eq, Structural)]
pub enum Message {
    /// The line was adopted; read the next one.
    Ack,
    /// The mode was replaced; stop.
    Quit,
}

/// What reaches the controller.
#[derive(Debug)]
pub enum Update {
    /// The reader of this generation has a new line ready.
    Id(usize),
    /// A request for this mode.
    Mode(Mode),
}

/// What the controller has decided.
#[derive(Debug)]
pub enum Directive<E> {
    /// Replace the running mode: tell the reader of generation `retired` to
    /// quit, forget its buffer, and start the program at `path` as generation
    /// `started`.
    Swap { retired: usize, started: usize, path: String },
    /// The current reader's line is now the mode's value. Notify the
    /// aggregator if `changed`, then acknowledge the reader.
    Adopt { changed: bool },
    /// Nothing to do: a request for the active mode, or a line of a
    /// generation that is no longer current.
    Skip,
    /// Pass the error on to the aggregator.
    Fail(E),
}

/// A directive, with its text as a sequence of characters.
pub ghost enum Decision<E> {
    Swap { retired: usize, started: usize, path: Seq<char> },
    Adopt { changed: bool },
    Skip,
    Fail(E),
}

impl<E> View for Directive<E> {
    type V = Decision<E>;

    open spec fn view(&self) -> Decision<E> {
        match *self {
            Directive::Swap { retired, started, path } => Decision::Swap {
                retired,
                started,
                path: path@,
            },
            Directive::Adopt { changed } => Decision::Adopt { changed },
            Directive::Skip => Decision::Skip,
            Directive::Fail(e) => Decision::Fail(e),
        }
    }
}

/// What the controller knows: the active mode's name and its generation.
pub ghost struct Active {
    pub mode: Seq<char>,
    pub id: usize,
}

/// What the controller decides on `update` in state `active`, when the
/// current reader's buffer holds `buffer` and the mode's value is `value`.
pub open spec fn decided<E>(
    active: Active,
    update: Result<Update, E>,
    buffer: Seq<char>,
    value: Seq<char>,
) -> Decision<E> {
    match update {
        Ok(Update::Mode(m)) => if m.mode@ != active.mode {
            Decision::Swap { retired: active.id, started: next_id(active.id), path: m.path@ }
        } else {
            Decision::Skip
        },
        Ok(Update::Id(id)) => if id == active.id {
            Decision::Adopt { changed: value != buffer }
        } else {
            Decision::Skip
        },
        Err(e) => Decision::Fail(e),
    }
}

/// The controller's state after `update`.
pub open spec fn active_after<E>(active: Active, update: Result<Update, E>) -> Active {
    match update {
        Ok(Update::Mode(m)) => if m.mode@ != active.mode {
            Active { mode: m.mode@, id: next_id(active.id) }
        } else {
            active
        },
        _ => active,
    }
}

/// The mode's value after `update`.
pub open spec fn value_after<E>(
    active: Active,
    update: Result<Update, E>,
    buffer: Seq<char>,
    value: Seq<char>,
) -> Seq<char> {
    match update {
        Ok(Update::Id(id)) => if id == active.id {
            buffer
        } else {
            value
        },
        _ => value,
    }
}

/// The controller's state.
pub struct ModeController {
    mode: String,
    uid: Uid,
}

impl View for ModeController {
    type V = Active;

    closed spec fn view(&self) -> Active {
        Active { mode: self.mode@, id: self.uid.last() }
    }
}

impl ModeController {
    /// A controller for the first mode. The caller starts the program at
    /// `mode.path` as the generation returned.
    pub fn new(mode: Mode) -> (started: (ModeController, usize, String))
        ensures
            started.0@ == (Active { mode: mode.mode@, id: 1 }),
            started.1 == 1,
            started.2@ == mode.path@,
    {
        let mut uid = make_uid();
        let id = uid.next();
        (ModeController { mode: mode.mode, uid }, id, mode.path)
    }

    /// The name of the active mode.
    pub fn mode(&self) -> (name: &str)
        ensures
            name@ == self@.mode,
    {
        self.mode.as_str()
    }

    /// The current generation.
    pub fn id(&self) -> (id: usize)
        ensures
            id == self@.id,
    {
        self.uid.id
    }

    /// Handles one update. `buffer` is what the reader of the current
    /// generation wrote last; `value` is the mode's visible value.
    pub fn on_update<E>(
        &mut self,
        update: Result<Update, E>,
        buffer: &str,
        value: &mut String,
    ) -> (directive: Directive<E>)
        ensures
            directive@ == decided(old(self)@, update, buffer@, old(value)@),
            final(self)@ == active_after(old(self)@, update),
            final(value)@ == value_after(old(self)@, update, buffer@, old(value)@),
    {
        match update {
            Ok(Update::Mode(m)) => {
                if !str_eq(m.mode.as_str(), self.mode.as_str()) {
                    let retired = self.uid.id;
                    self.mode = m.mode;
                    let started = self.uid.next();
                    Directive::Swap { retired, started, path: m.path }
                } else {
                    Directive::Skip
                }
            },
            Ok(Update::Id(id)) => {
                if id == self.uid.id {
                    let changed = update_value(value, buffer);
                    Directive::Adopt { changed }
                } else {
                    Directive::Skip
                }
            },
            Err(e) => Directive::Fail(e),
        }
    }
}

/// A line announced under any generation but the current one changes
/// neither the mode's value nor the controller, and is not acknowledged.
pub proof fn lemma_stale_line_is_dropped<E>(
    active: Active,
    stale: usize,
    buffer: Seq<char>,
    value: Seq<char>,
)
    requires
        stale != active.id,
    ensures
        value_after(active, Ok::<Update, E>(Update::Id(stale)), buffer, value) == value,
        active_after(active, Ok::<Update, E>(Update::Id(stale))) == active,
        decided(active, Ok::<Update, E>(Update::Id(stale)), buffer, value) is Skip,
{
}

/// After a swap the generation that was retired is stale: whatever its
/// reader still announces leaves the new mode's value as it is.
pub proof fn lemma_retired_generation_is_stale<E>(
    active: Active,
    request: Mode,
    buffer: Seq<char>,
    value: Seq<char>,
)
    requires
        request.mode@ != active.mode,
    ensures
        ({
            let swapped = active_after(active, Ok::<Update, E>(Update::Mode(request)));
            let late = Ok::<Update, E>(Update::Id(active.id));
            &&& swapped.id != active.id
            &&& value_after(swapped, late, buffer, value) == value
            &&& active_after(swapped, late) == swapped
            &&& decided(swapped, late, buffer, value) is Skip
        }),
{
}

/// A request for the mode that is already active does nothing: no program is
/// started and the generation stays as it is.
pub proof fn lemma_same_mode_is_no_swap<E>(
    active: Active,
    request: Mode,
    buffer: Seq<char>,
    value: Seq<char>,
)
    requires
        request.mode@ == active.mode,
    ensures
        decided(active, Ok::<Update, E>(Update::Mode(request)), buffer, value) is Skip,
        active_after(active, Ok::<Update, E>(Update::Mode(request))) == active,
        value_after(active, Ok::<Update, E>(Update::Mode(request)), buffer, value) == value,
{
}

} // verus!
