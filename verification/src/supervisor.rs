//! The child supervisor: which child processes are alive, and what becomes
//! of them when a mode is retired or the whole process is told to stop.
//!
//! The supervisor keeps the handles themselves, whatever their type `H`:
//! those of the sources that run for the whole life of the process, in the
//! order given, and one per mode generation, found again by its id.

use vstd::prelude::*;

verus! {

/// What reaches the supervisor.
#[derive(Debug)]
pub enum KillerMessage<H> {
    /// A mode program was started under this generation id.
    Child(usize, H),
    /// The reader of this generation has stopped; its child is to go.
    Kill(usize),
    /// The process was told to terminate.
    Signal,
}

/// What the supervisor has decided.
#[derive(Debug)]
pub enum Verdict<H> {
    /// Nothing to do.
    Idle,
    /// Wind this child down: ask it to terminate, and kill it if it has not
    /// gone after the grace period.
    Retire(H),
    /// Ask each of these children to terminate, in this order, then leave
    /// the process.
    Shutdown(Vec<H>),
}

/// The supervisor's table.
pub struct Supervisor<H> {
    children: Vec<H>,
    ids: Vec<usize>,
    handles: Vec<H>,
}

/// The position of `id` among `ids`, if it is there.
pub open spec fn position(ids: Seq<usize>, id: usize) -> Option<int> {
    if ids.contains(id) {
        Some(ids.index_of(id))
    } else {
        None
    }
}

impl<H> Supervisor<H> {
    /// The handles of the sources that live as long as the process.
    pub closed spec fn children(&self) -> Seq<H> {
        self.children@
    }

    /// The generation ids that have a live child, oldest entry first.
    pub closed spec fn ids(&self) -> Seq<usize> {
        self.ids@
    }

    /// The handles of the mode children; `handles()[i]` belongs to `ids()[i]`.
    pub closed spec fn handles(&self) -> Seq<H> {
        self.handles@
    }

    /// No id has more than one handle.
    pub closed spec fn wf(&self) -> bool {
        &&& self.ids@.len() == self.handles@.len()
        &&& self.ids@.no_duplicates()
    }

    /// A supervisor for the given long-lived children, with no mode child yet.
    pub fn new(children: Vec<H>) -> (supervisor: Supervisor<H>)
        ensures
            supervisor.wf(),
            supervisor.children() == children@,
            supervisor.ids() == Seq::<usize>::empty(),
            supervisor.handles() == Seq::<H>::empty(),
    {
        Supervisor { children, ids: Vec::new(), handles: Vec::new() }
    }

    /// Whether no child is tracked.
    pub fn is_empty(&self) -> (empty: bool)
        ensures
            empty == (self.children().len() == 0 && self.ids().len() == 0),
    {
        self.children.len() == 0 && self.ids.len() == 0
    }

    /// Whether generation `id` has a live child.
    pub fn tracks(&self, id: usize) -> (found: bool)
        ensures
            found == self.ids().contains(id),
    {
        self.find(id).is_some()
    }

    fn find(&self, id: usize) -> (at: Option<usize>)
        ensures
            match at {
                Some(k) => k < self.ids@.len() && self.ids@[k as int] == id,
                None => !self.ids@.contains(id),
            },
    {
        let mut k: usize = 0;
        while k < self.ids.len()
            invariant
                k <= self.ids@.len(),
                forall|j: int| 0 <= j < k ==> self.ids@[j] != id,
            decreases self.ids@.len() - k,
        {
            if self.ids[k] == id {
                return Some(k);
            }
            k += 1;
        }
        None
    }

    /// Handles one message.
    ///
    /// A new child is entered under its id; if the id has a handle already,
    /// the new handle takes its place. A retired generation's handle is taken
    /// out and handed back to be wound down. On the termination signal every
    /// handle is taken out and handed back, the long-lived children first.
    pub fn handle(&mut self, message: KillerMessage<H>) -> (verdict: Verdict<H>)
        requires
            old(self).wf(),
        ensures
            final(self).wf(),
            match message {
                KillerMessage::Child(id, child) => {
                    &&& verdict is Idle
                    &&& final(self).children() == old(self).children()
                    &&& match position(old(self).ids(), id) {
                        Some(k) => {
                            &&& final(self).ids() == old(self).ids()
                            &&& final(self).handles() == old(self).handles().update(k, child)
                        },
                        None => {
                            &&& final(self).ids() == old(self).ids().push(id)
                            &&& final(self).handles() == old(self).handles().push(child)
                        },
                    }
                },
                KillerMessage::Kill(id) => {
                    &&& final(self).children() == old(self).children()
                    &&& match position(old(self).ids(), id) {
                        Some(k) => {
                            &&& verdict == Verdict::Retire(old(self).handles()[k])
                            &&& final(self).ids() == old(self).ids().remove(k)
                            &&& final(self).handles() == old(self).handles().remove(k)
                        },
                        None => {
                            &&& verdict is Idle
                            &&& final(self).ids() == old(self).ids()
                            &&& final(self).handles() == old(self).handles()
                        },
                    }
                },
                KillerMessage::Signal => {
                    &&& verdict matches Verdict::Shutdown(all)
                    &&& all@ == old(self).children() + old(self).handles()
                    &&& final(self).children().len() == 0
                    &&& final(self).ids().len() == 0
                    &&& final(self).handles().len() == 0
                },
            },
    {
        match message {
            KillerMessage::Child(id, child) => {
                match self.find(id) {
                    Some(k) => {
                        let _replaced = self.handles.remove(k);
                        self.handles.insert(k, child);
                        assert(self.handles@ == old(self).handles@.update(k as int, child));
                        assert(self.ids@.index_of(id) == k);
                    },
                    None => {
                        self.ids.push(id);
                        self.handles.push(child);
                        assert(self.ids@.no_duplicates()) by {
                            assert forall|i: int, j: int|
                                0 <= i < self.ids@.len() && 0 <= j < self.ids@.len() && i
                                    != j implies self.ids@[i] != self.ids@[j] by {
                                if i < old(self).ids@.len() && j < old(self).ids@.len() {
                                } else if i < old(self).ids@.len() {
                                    assert(old(self).ids@.contains(self.ids@[i]));
                                } else {
                                    assert(old(self).ids@.contains(self.ids@[j]));
                                }
                            }
                        }
                    },
                }
                Verdict::Idle
            },
            KillerMessage::Kill(id) => {
                match self.find(id) {
                    Some(k) => {
                        assert(self.ids@.index_of(id) == k);
                        self.ids.remove(k);
                        let child = self.handles.remove(k);
                        proof {
                            old(self).ids@.remove_ensures(k as int);
                            assert(self.ids@.no_duplicates()) by {
                                assert forall|i: int, j: int|
                                    0 <= i < self.ids@.len() && 0 <= j < self.ids@.len() && i
                                        != j implies self.ids@[i] != self.ids@[j] by {
                                    let a = if i < k { i } else { i + 1 };
                                    let b = if j < k { j } else { j + 1 };
                                    assert(self.ids@[i] == old(self).ids@[a]);
                                    assert(self.ids@[j] == old(self).ids@[b]);
                                }
                            }
                        }
                        Verdict::Retire(child)
                    },
                    None => Verdict::Idle,
                }
            },
            KillerMessage::Signal => {
                let mut all: Vec<H> = Vec::new();
                all.append(&mut self.children);
                all.append(&mut self.handles);
                self.ids.clear();
                Verdict::Shutdown(all)
            },
        }
    }
}

/// A step of winding a child down.
#[derive(Clone, Copy, Debug, PartialEq, Eq, Structural)]
pub enum KillStep {
    /// Ask the child to terminate.
    Terminate,
    /// Let the grace period pass, then look whether the child has gone.
    Probe,
    /// Kill the child.
    Force,
    /// Wait for the killed child, so that it does not stay behind as a zombie.
    Reap,
    /// Nothing is left to do.
    Done,
}

/// How a step went.
#[derive(Clone, Copy, Debug, PartialEq, Eq, Structural)]
pub enum Outcome {
    /// The step was carried out; for a probe: the child has gone.
    Succeeded,
    /// The probe found the child still running.
    Running,
    /// The step failed. The failure is reported and the child left alone.
    Failed,
}

/// The grace period between the request to terminate and the probe, in seconds.
pub const GRACE_SECONDS: u64 = 1;

/// The step that follows `step` once it went as `outcome` says.
pub open spec fn next_kill_step(step: KillStep, outcome: Outcome) -> KillStep {
    match (step, outcome) {
        (KillStep::Terminate, Outcome::Succeeded) => KillStep::Probe,
        (KillStep::Probe, Outcome::Running) => KillStep::Force,
        (KillStep::Force, Outcome::Succeeded) => KillStep::Reap,
        _ => KillStep::Done,
    }
}

/// Winds a child down, one step at a time: starting from
/// `KillStep::Terminate`, the caller carries out a step and asks here for
/// the next one, until it is `KillStep::Done`.
pub fn kill_child(step: KillStep, outcome: Outcome) -> (next: KillStep)
    ensures
        next == next_kill_step(step, outcome),
{
    match step {
        KillStep::Terminate => match outcome {
            Outcome::Succeeded => KillStep::Probe,
            _ => KillStep::Done,
        },
        KillStep::Probe => match outcome {
            Outcome::Running => KillStep::Force,
            _ => KillStep::Done,
        },
        KillStep::Force => match outcome {
            Outcome::Succeeded => KillStep::Reap,
            _ => KillStep::Done,
        },
        _ => KillStep::Done,
    }
}

/// A child is killed only after it was asked to terminate and was found
/// running when the grace period had passed, and a killed child is always
/// waited for.
pub proof fn lemma_force_only_after_grace(step: KillStep, outcome: Outcome)
    ensures
        next_kill_step(step, outcome) == KillStep::Force <==> step == KillStep::Probe && outcome
            == Outcome::Running,
        next_kill_step(step, outcome) == KillStep::Probe <==> step == KillStep::Terminate
            && outcome == Outcome::Succeeded,
        next_kill_step(step, outcome) == KillStep::Reap <==> step == KillStep::Force && outcome
            == Outcome::Succeeded,
{
}

} // verus!
