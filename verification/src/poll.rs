//! Waiting for a service: probe it up to a number of times, with a pause
//! after each probe that fails.

use vstd::prelude::*;

verus! {

/// What the wait asks for next.
#[derive(PartialEq, Eq, Structural, Clone, Copy, Debug)]
pub enum PollAction {
    /// Probe the service and report whether it answered.
    Probe,
    /// Pause (half a second), then ask again.
    Pause,
    /// The wait is over: whether the service answered.
    Finish(bool),
}

/// A wait for a service.
pub struct Poll {
    made: u32,
    attempts: u32,
}

/// The model of a [`Poll`]: failed probes so far, and probes allowed.
pub struct PollView {
    pub made: nat,
    pub attempts: nat,
}

impl View for Poll {
    type V = PollView;

    closed spec fn view(&self) -> PollView {
        PollView { made: self.made as nat, attempts: self.attempts as nat }
    }
}

/// The action when `made` probes have failed.
pub open spec fn poll_next(p: PollView) -> PollAction {
    if p.made < p.attempts {
        PollAction::Probe
    } else {
        PollAction::Finish(false)
    }
}

/// The state and action after a probe's answer.
pub open spec fn poll_probe(p: PollView, answered: bool) -> (PollView, PollAction) {
    if p.made >= p.attempts {
        (p, PollAction::Finish(false))
    } else if answered {
        (p, PollAction::Finish(true))
    } else {
        (PollView { made: p.made + 1, ..p }, PollAction::Pause)
    }
}

impl Poll {
    /// A wait that allows `attempts` probes.
    pub fn new(attempts: u32) -> (p: Poll)
        ensures
            p@ == (PollView { made: 0, attempts: attempts as nat }),
    {
        Poll { made: 0, attempts }
    }

    /// What to do now (at the start, and after each pause).
    pub fn next_action(&self) -> (a: PollAction)
        ensures
            a == poll_next(self@),
    {
        if self.made < self.attempts {
            PollAction::Probe
        } else {
            PollAction::Finish(false)
        }
    }

    /// Takes in the answer of a probe.
    pub fn on_probe(&mut self, answered: bool) -> (a: PollAction)
        ensures
            (final(self)@, a) == poll_probe(old(self)@, answered),
    {
        if self.made >= self.attempts {
            PollAction::Finish(false)
        } else if answered {
            PollAction::Finish(true)
        } else {
            self.made = self.made + 1;
            PollAction::Pause
        }
    }
}

/// The outcome of a wait from state `p`, driven as the program drives it
/// (probe when asked, pause when asked), when the probes answer as `answers`
/// says, in order.
pub open spec fn poll_outcome(p: PollView, answers: Seq<bool>) -> bool
    decreases p.attempts - p.made,
{
    match poll_next(p) {
        PollAction::Probe => if p.made < answers.len() {
            let (p2, a) = poll_probe(p, answers[p.made as int]);
            match a {
                PollAction::Finish(b) => b,
                _ => poll_outcome(p2, answers),
            }
        } else {
            false
        },
        PollAction::Finish(b) => b,
        PollAction::Pause => false,
    }
}

proof fn lemma_poll_outcome(p: PollView, answers: Seq<bool>)
    requires
        answers.len() >= p.attempts,
        p.made <= p.attempts,
    ensures
        poll_outcome(p, answers) == exists|i: int| p.made <= i < p.attempts && answers[i],
    decreases p.attempts - p.made,
{
    if p.made < p.attempts {
        lemma_poll_outcome(PollView { made: p.made + 1, ..p }, answers);
        if !answers[p.made as int] {
            assert forall|i: int| p.made <= i < p.attempts && answers[i] implies p.made + 1 <= i by {}
        }
    }
}

/// A wait that allows `attempts` probes reports that the service answered
/// exactly when one of those probes answered.
pub proof fn poll_law(attempts: nat, answers: Seq<bool>)
    requires
        answers.len() >= attempts,
    ensures
        poll_outcome(PollView { made: 0, attempts }, answers) == exists|i: int|
            0 <= i < attempts && answers[i],
{
    lemma_poll_outcome(PollView { made: 0, attempts }, answers);
}

} // verus!
