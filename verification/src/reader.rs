//! The reader of one mode generation.
//!
//! It reads one line into the generation's buffer, announces it under its id
//! and then waits for the controller's answer before it reads again, so that
//! at most one line is ever in flight.

use vstd::prelude::*;
use crate::controller::Message;
use crate::source::ReadLine;
use crate::text::without_last;

verus! {

/// Where a reader stands.
#[derive(Clone, Copy, Debug, PartialEq, Eq, Structural)]
pub enum Phase {
    /// About to read the next line.
    Reading,
    /// A line was announced; the answer is awaited.
    Waiting,
    /// The reader has stopped.
    Done,
}

/// What the reader does next.
#[derive(Debug)]
pub enum ReaderStep<E> {
    /// Send the id as an update, then wait for the answer.
    Announce(usize),
    /// Stop, and report the generation as finished to the supervisor.
    Retire(usize),
    /// Send the error as an update, then stop and report the generation as
    /// finished to the supervisor.
    Fail(E, usize),
}

/// The reader of one generation.
pub struct ModeReader {
    id: usize,
    phase: Phase,
}

/// The phase that follows a read.
pub open spec fn phase_after_read<E>(read: ReadLine<E>) -> Phase {
    match read {
        ReadLine::Line(_) => Phase::Waiting,
        _ => Phase::Done,
    }
}

/// The step that follows a read, for the reader of generation `id`.
pub open spec fn step_after_read<E>(id: usize, read: ReadLine<E>) -> ReaderStep<E> {
    match read {
        ReadLine::Line(_) => ReaderStep::Announce(id),
        ReadLine::Eof => ReaderStep::Retire(id),
        ReadLine::Failed(e) => ReaderStep::Fail(e, id),
    }
}

/// The buffer's text after a read: the record without its terminator, or
/// nothing where no record came.
pub open spec fn buffer_after_read<E>(read: ReadLine<E>) -> Seq<char> {
    match read {
        ReadLine::Line(raw) => without_last(raw@),
        _ => Seq::empty(),
    }
}

/// The phase that follows an answer.
pub open spec fn phase_after_answer(answer: Message) -> Phase {
    match answer {
        Message::Ack => Phase::Reading,
        Message::Quit => Phase::Done,
    }
}

impl ModeReader {
    /// The generation that this reader serves.
    pub closed spec fn generation(&self) -> usize {
        self.id
    }

    /// Where the reader stands.
    pub closed spec fn standing(&self) -> Phase {
        self.phase
    }

    /// A reader for generation `id`, about to read its first line.
    pub fn new(id: usize) -> (reader: ModeReader)
        ensures
            reader.generation() == id,
            reader.standing() == Phase::Reading,
    {
        ModeReader { id, phase: Phase::Reading }
    }

    /// The generation that this reader serves.
    pub fn id(&self) -> (id: usize)
        ensures
            id == self.generation(),
    {
        self.id
    }

    /// Where the reader stands.
    pub fn phase(&self) -> (phase: Phase)
        ensures
            phase == self.standing(),
    {
        self.phase
    }

    /// Handles the outcome of a read: a record replaces the buffer's text and
    /// is announced; the end of the stream or an error stops the reader.
    pub fn on_read<E>(&mut self, read: ReadLine<E>, buffer: &mut String) -> (step: ReaderStep<E>)
        requires
            old(self).standing() == Phase::Reading,
        ensures
            step == step_after_read(old(self).generation(), read),
            final(self).standing() == phase_after_read(read),
            final(self).generation() == old(self).generation(),
            final(buffer)@ == buffer_after_read(read),
    {
        match read {
            ReadLine::Line(raw) => {
                let mut line = raw;
                line.pop();
                *buffer = line;
                self.phase = Phase::Waiting;
                ReaderStep::Announce(self.id)
            },
            ReadLine::Eof => {
                *buffer = String::new();
                self.phase = Phase::Done;
                ReaderStep::Retire(self.id)
            },
            ReadLine::Failed(e) => {
                *buffer = String::new();
                self.phase = Phase::Done;
                ReaderStep::Fail(e, self.id)
            },
        }
    }

    /// Handles the controller's answer to the line announced last. Returns
    /// whether the reader goes on to read; if not, it stops and reports its
    /// generation as finished to the supervisor.
    pub fn on_answer(&mut self, answer: Message) -> (proceed: bool)
        requires
            old(self).standing() == Phase::Waiting,
        ensures
            final(self).standing() == phase_after_answer(answer),
            final(self).generation() == old(self).generation(),
            proceed == (answer == Message::Ack),
    {
        match answer {
            Message::Ack => {
                self.phase = Phase::Reading;
                true
            },
            Message::Quit => {
                self.phase = Phase::Done;
                false
            },
        }
    }
}

/// What happens to a reader: a read comes back, or the controller answers.
pub ghost enum Happening<E> {
    Read(ReadLine<E>),
    Answer(Message),
}

/// The phase after `event`, where the phase admits the event: a read comes
/// back only to a reader that is reading, an answer only to one that waits.
pub open spec fn phase_after<E>(phase: Phase, event: Happening<E>) -> Option<Phase> {
    match event {
        Happening::Read(read) => if phase == Phase::Reading {
            Some(phase_after_read(read))
        } else {
            None
        },
        Happening::Answer(answer) => if phase == Phase::Waiting {
            Some(phase_after_answer(answer))
        } else {
            None
        },
    }
}

/// The phase of a new reader after `events`, where each of them is admitted
/// in its turn.
pub open spec fn phase_after_all<E>(events: Seq<Happening<E>>) -> Option<Phase>
    decreases events.len(),
{
    if events.len() == 0 {
        Some(Phase::Reading)
    } else {
        match phase_after_all(events.drop_last()) {
            Some(phase) => phase_after(phase, events.last()),
            None => None,
        }
    }
}

/// How many lines were read, and so announced, in the course of `events`.
pub open spec fn announced<E>(events: Seq<Happening<E>>) -> nat
    decreases events.len(),
{
    if events.len() == 0 {
        0
    } else if events.last() matches Happening::Read(ReadLine::Line(_)) {
        announced(events.drop_last()) + 1
    } else {
        announced(events.drop_last())
    }
}

/// How many lines were acknowledged in the course of `events`.
pub open spec fn acknowledged<E>(events: Seq<Happening<E>>) -> nat
    decreases events.len(),
{
    if events.len() == 0 {
        0
    } else if events.last() matches Happening::Answer(Message::Ack) {
        acknowledged(events.drop_last()) + 1
    } else {
        acknowledged(events.drop_last())
    }
}

/// At most one line is in flight: whatever happens to a reader, it has
/// never read more than one line beyond those that were acknowledged. A
/// reader that is reading has had every line acknowledged, and one that
/// waits exactly one line short of that.
pub proof fn lemma_at_most_one_unacknowledged<E>(events: Seq<Happening<E>>)
    requires
        phase_after_all(events) is Some,
    ensures
        acknowledged(events) <= announced(events) <= acknowledged(events) + 1,
        phase_after_all(events) == Some(Phase::Reading) ==> announced(events) == acknowledged(
            events,
        ),
        phase_after_all(events) == Some(Phase::Waiting) ==> announced(events) == acknowledged(
            events,
        ) + 1,
    decreases events.len(),
{
    if events.len() > 0 {
        lemma_at_most_one_unacknowledged(events.drop_last());
    }
}

/// Once a reader has announced a line it is waiting, and nothing but an
/// acknowledgement brings it back to reading: it cannot read the next line,
/// and so cannot overwrite the buffer, before the line was adopted.
pub proof fn lemma_one_line_in_flight<E>(read: ReadLine<E>, answer: Message)
    requires
        read is Line,
    ensures
        phase_after_read(read) == Phase::Waiting,
        phase_after_answer(answer) == Phase::Reading <==> answer == Message::Ack,
{
}

} // verus!
