//! A command source: the reader of one child process's standard output.
//!
//! The thread that owns the pipe performs the blocking reads; after each one
//! it hands the outcome to [`command_step`], which keeps the value cell up to
//! date and says whether a notification is due.

use vstd::prelude::*;
use crate::cell::update_value;
use crate::text::without_last;

verus! {

/// What one blocking line read from a child's standard output gave.
pub enum ReadLine<E> {
    /// The stream ended: a read of zero bytes.
    Eof,
    /// One record, with its line terminator still attached.
    Line(String),
    /// The read failed.
    Failed(E),
}

/// What the reader does after a read.
pub enum SourceStep<E> {
    /// The stream ended; the reader stops without reporting anything.
    Finished,
    /// The record repeats the cell's text; nothing is sent.
    Unchanged,
    /// The cell holds a new text; one notification is sent.
    Changed,
    /// The error is sent to the consumer and the reader stops.
    Failed(E),
}

/// The cell's text after a read.
pub open spec fn text_after<E>(text: Seq<char>, read: ReadLine<E>) -> Seq<char> {
    match read {
        ReadLine::Line(raw) => without_last(raw@),
        _ => text,
    }
}

/// The step that follows a read, given the cell's text before it.
pub open spec fn step_after<E>(text: Seq<char>, read: ReadLine<E>) -> SourceStep<E> {
    match read {
        ReadLine::Eof => SourceStep::Finished,
        ReadLine::Line(raw) => if without_last(raw@) != text {
            SourceStep::Changed
        } else {
            SourceStep::Unchanged
        },
        ReadLine::Failed(e) => SourceStep::Failed(e),
    }
}

/// Handles the outcome of one read: strips the terminator from a record and
/// stores it in `value` if it differs from the text already there.
pub fn command_step<E>(value: &mut String, read: ReadLine<E>) -> (step: SourceStep<E>)
    ensures
        final(value)@ == text_after(old(value)@, read),
        step == step_after(old(value)@, read),
{
    match read {
        ReadLine::Eof => SourceStep::Finished,
        ReadLine::Line(raw) => {
            let mut line = raw;
            line.pop();
            if update_value(value, line.as_str()) {
                SourceStep::Changed
            } else {
                SourceStep::Unchanged
            }
        },
        ReadLine::Failed(e) => SourceStep::Failed(e),
    }
}

/// The text of a record once its terminator is stripped; what is not a
/// record has none.
pub open spec fn record_of<E>(read: ReadLine<E>) -> Option<Seq<char>> {
    match read {
        ReadLine::Line(raw) => Some(without_last(raw@)),
        _ => None,
    }
}

/// The cell's text after the reads `reads`, handled in order.
pub open spec fn text_after_all<E>(initial: Seq<char>, reads: Seq<ReadLine<E>>) -> Seq<char>
    decreases reads.len(),
{
    if reads.len() == 0 {
        initial
    } else {
        text_after(text_after_all(initial, reads.drop_last()), reads.last())
    }
}

/// How many notifications the reads `reads`, handled in order, give rise to.
pub open spec fn notifications<E>(initial: Seq<char>, reads: Seq<ReadLine<E>>) -> nat
    decreases reads.len(),
{
    if reads.len() == 0 {
        0
    } else {
        let before = notifications(initial, reads.drop_last());
        if step_after(text_after_all(initial, reads.drop_last()), reads.last()) is Changed {
            before + 1
        } else {
            before
        }
    }
}

/// The text that the record at position `i` is compared with: the record
/// before it, or the cell's first text.
pub open spec fn predecessor<E>(initial: Seq<char>, reads: Seq<ReadLine<E>>, i: int) -> Seq<char> {
    if i == 0 {
        initial
    } else {
        record_of(reads[i - 1])->0
    }
}

/// The positions at which a record differs from its predecessor.
pub open spec fn changes<E>(initial: Seq<char>, reads: Seq<ReadLine<E>>) -> Set<int> {
    Set::new(
        |i: int|
            0 <= i < reads.len() && record_of(reads[i])->0 != predecessor(initial, reads, i),
    )
}

/// Feeding any sequence of records to a command source leaves the last record
/// in the cell, and sends exactly one notification for each record that
/// differs from the one before it.
pub proof fn lemma_one_notification_per_change<E>(initial: Seq<char>, reads: Seq<ReadLine<E>>)
    requires
        forall|i: int| 0 <= i < reads.len() ==> reads[i] is Line,
    ensures
        reads.len() > 0 ==> Some(text_after_all(initial, reads)) == record_of(reads.last()),
        changes(initial, reads).finite(),
        notifications(initial, reads) == changes(initial, reads).len(),
    decreases reads.len(),
{
    if reads.len() == 0 {
        assert(changes(initial, reads) =~= Set::<int>::empty());
    } else {
        let n = reads.len() - 1;
        let prefix = reads.drop_last();
        lemma_one_notification_per_change(initial, prefix);
        assert(text_after_all(initial, prefix) == predecessor(initial, reads, n));
        assert forall|i: int| 0 <= i < n implies predecessor(initial, prefix, i) == predecessor(
            initial,
            reads,
            i,
        ) by {}
        if record_of(reads.last())->0 != predecessor(initial, reads, n) {
            assert(changes(initial, reads) =~= changes(initial, prefix).insert(n));
        } else {
            assert(changes(initial, reads) =~= changes(initial, prefix));
        }
    }
}

} // verus!
