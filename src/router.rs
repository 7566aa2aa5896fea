//! The update loop's decisions, and the order in which the actions of one
//! message are attempted.

use crate::action::{actions_view, plan_view, Action, ActionView};
use vstd::prelude::*;

verus! {

/// The router's life cycle: it takes updates while running, and never again
/// once it is shutting down.
#[derive(Clone, Copy, Debug, PartialEq, Eq, Structural)]
pub enum Phase {
    Running,
    ShuttingDown,
}

/// What waiting for the next update gave.
#[derive(Debug, PartialEq, Eq)]
pub enum Poll {
    /// An interrupt signal arrived (it wins over a pending update).
    Interrupted,
    /// The operator's stop command was carried out.
    StopRequested,
    /// The update source is exhausted.
    Closed,
    /// A new message arrived.
    NewMessage,
    /// An update of another kind arrived.
    OtherUpdate,
    /// Fetching the update failed, with this error text.
    Failed(String),
}

/// What the loop does next.
#[derive(Debug, PartialEq, Eq)]
pub enum LoopStep {
    /// Dispatch the new message, then wait for the next update.
    Dispatch,
    /// Ignore the update and wait for the next one.
    Skip,
    /// Leave the loop.
    Stop,
    /// Send this text to the log, then leave the loop.
    LogAndStop(String),
}

/// The phase after `p` arrives in phase `phase`.
pub open spec fn phase_after(phase: Phase, p: Poll) -> Phase {
    if phase == Phase::ShuttingDown {
        Phase::ShuttingDown
    } else {
        match p {
            Poll::NewMessage | Poll::OtherUpdate => Phase::Running,
            _ => Phase::ShuttingDown,
        }
    }
}

/// The phase after a sequence of polls, from `phase`.
pub open spec fn phase_after_all(phase: Phase, polls: Seq<Poll>) -> Phase
    decreases polls.len(),
{
    if polls.len() == 0 {
        phase
    } else {
        phase_after_all(phase_after(phase, polls[0]), polls.drop_first())
    }
}

/// Shutting down is final: whatever polls follow, the router stays shutting
/// down, so it never takes another update (`wants_update` is false and
/// `on_poll` only answers `Stop`).
pub proof fn lemma_shutdown_is_final(polls: Seq<Poll>)
    ensures
        phase_after_all(Phase::ShuttingDown, polls) == Phase::ShuttingDown,
    decreases polls.len(),
{
    if polls.len() > 0 {
        lemma_shutdown_is_final(polls.drop_first());
    }
}

/// A carried-out stop command ends the running phase.
pub proof fn lemma_stop_request_shuts_down()
    ensures
        phase_after(Phase::Running, Poll::StopRequested) == Phase::ShuttingDown,
{
}

/// The text logged when fetching an update fails.
pub open spec fn update_failure_entry(error: Seq<char>) -> Seq<char> {
    "Update loop: "@ + error
}

/// The text logged when an action fails.
pub open spec fn action_failure_entry(error: Seq<char>) -> Seq<char> {
    "Message handler: "@ + error
}

/// The update loop's state.
pub struct Router {
    phase: Phase,
}

impl View for Router {
    type V = Phase;

    closed spec fn view(&self) -> Phase {
        self.phase
    }
}

impl Router {
    /// A router that takes updates.
    pub fn new() -> (r: Router)
        ensures
            r@ == Phase::Running,
    {
        Router { phase: Phase::Running }
    }

    /// Whether the loop should wait for another update.
    pub fn wants_update(&self) -> (r: bool)
        ensures
            r == (self@ == Phase::Running),
    {
        self.phase == Phase::Running
    }

    /// Takes in what waiting for an update gave, and says what to do.
    /// A new message is dispatched and any other update skipped while
    /// running; an interrupt, a stop request, the end of the updates or a
    /// failure ends the loop (a failure is logged first). Once shutting
    /// down, the loop only stops.
    pub fn on_poll(&mut self, p: Poll) -> (r: LoopStep)
        ensures
            final(self)@ == phase_after(old(self)@, p),
            old(self)@ == Phase::ShuttingDown ==> r is Stop,
            old(self)@ == Phase::Running ==> match p {
                Poll::NewMessage => r is Dispatch,
                Poll::OtherUpdate => r is Skip,
                Poll::Failed(e) => (r matches LoopStep::LogAndStop(t) && t@
                    == update_failure_entry(e@)),
                _ => r is Stop,
            },
    {
        if self.phase == Phase::ShuttingDown {
            return LoopStep::Stop;
        }
        match p {
            Poll::NewMessage => LoopStep::Dispatch,
            Poll::OtherUpdate => LoopStep::Skip,
            Poll::Failed(e) => {
                self.phase = Phase::ShuttingDown;
                let mut t = String::from_str("Update loop: ");
                t.append(e.as_str());
                LoopStep::LogAndStop(t)
            },
            _ => {
                self.phase = Phase::ShuttingDown;
                LoopStep::Stop
            },
        }
    }
}

/// The actions still to be attempted: the rest of entry `reaction` from
/// `step` on, then every later entry.
pub open spec fn pending(plan: Seq<Seq<ActionView>>, reaction: int, step: int) -> Seq<ActionView> {
    if 0 <= reaction < plan.len() {
        plan[reaction].subrange(step, plan[reaction].len() as int) + plan.subrange(
            reaction + 1,
            plan.len() as int,
        ).flatten()
    } else {
        Seq::empty()
    }
}

/// The attempt of one message's plan: actions are handed out in order, and
/// a failed action abandons the rest of its entry (its rule) but not the
/// later entries.
pub struct EventRun {
    plan: Vec<Vec<Action>>,
    reaction: usize,
    step: usize,
}

impl EventRun {
    /// The plan as views.
    pub closed spec fn planned(&self) -> Seq<Seq<ActionView>> {
        plan_view(self.plan@)
    }

    /// The actions still to be attempted.
    pub closed spec fn remaining(&self) -> Seq<ActionView> {
        pending(self.planned(), self.reaction as int, self.step as int)
    }

    /// The actions of the entries after the current one.
    pub closed spec fn later_entries(&self) -> Seq<ActionView> {
        pending(self.planned(), self.reaction + 1, 0)
    }

    /// The actions that remain once the entry of the last action handed
    /// out is abandoned.
    pub closed spec fn after_abandon(&self) -> Seq<ActionView> {
        if self.step == 0 {
            self.remaining()
        } else {
            self.later_entries()
        }
    }

    pub closed spec fn wf(&self) -> bool {
        &&& self.reaction <= self.plan@.len()
        &&& self.reaction < self.plan@.len() ==> self.step <= self.plan@[self.reaction as int]@.len()
        &&& self.reaction == self.plan@.len() ==> self.step == 0
    }

    /// A run of `plan` that has attempted nothing yet.
    pub fn new(plan: Vec<Vec<Action>>) -> (r: EventRun)
        ensures
            r.wf(),
            r.remaining() == plan_view(plan@).flatten(),
    {
        let r = EventRun { plan, reaction: 0, step: 0 };
        proof {
            let p = plan_view(r.plan@);
            if p.len() > 0 {
                assert(p[0].subrange(0, p[0].len() as int) =~= p[0]);
                assert(p.subrange(1, p.len() as int) =~= p.drop_first());
            }
        }
        r
    }

    /// The next action to attempt, if any is left.
    pub fn next_action(&mut self) -> (r: Option<Action>)
        requires
            old(self).wf(),
        ensures
            final(self).wf(),
            old(self).remaining().len() == 0 ==> r is None && final(self).remaining().len() == 0,
            old(self).remaining().len() > 0 ==> (r matches Some(a) && a@ == old(self).remaining()[0]
                && final(self).remaining() == old(self).remaining().drop_first()),
            r is Some ==> final(self).after_abandon() == final(self).later_entries(),
    {
        let ghost p = self.planned();
        let ghost start = self.remaining();
        while self.reaction < self.plan.len() && self.step >= self.plan[self.reaction].len()
            invariant
                self.wf(),
                self.planned() == p,
                self.remaining() == start,
            decreases self.plan@.len() - self.reaction,
        {
            proof {
                let k = self.reaction as int;
                assert(p[k].subrange(self.step as int, p[k].len() as int) =~= Seq::<ActionView>::empty());
                if k + 1 < p.len() {
                    let rest = p.subrange(k + 1, p.len() as int);
                    assert(rest.drop_first() =~= p.subrange(k + 2, p.len() as int));
                    assert(p[k + 1].subrange(0, p[k + 1].len() as int) =~= p[k + 1]);
                } else {
                    assert(p.subrange(k + 1, p.len() as int) =~= Seq::<Seq<ActionView>>::empty());
                }
            }
            self.reaction = self.reaction + 1;
            self.step = 0;
        }
        if self.reaction == self.plan.len() {
            return None;
        }
        let a = self.plan[self.reaction][self.step].duplicate();
        proof {
            let k = self.reaction as int;
            let s = self.step as int;
            assert(p[k] == actions_view(self.plan@[k]@));
            assert(p[k].subrange(s, p[k].len() as int).drop_first() =~= p[k].subrange(s + 1, p[k].len() as int));
        }
        self.step = self.step + 1;
        proof {
            let k = self.reaction as int;
            let s = self.step as int;
            assert(pending(p, k, s) =~= start.drop_first());
        }
        Some(a)
    }

    /// Abandons the rest of the entry of the action that failed, and gives
    /// the text to log for it.
    pub fn abandon(&mut self, error: &str) -> (r: String)
        requires
            old(self).wf(),
        ensures
            final(self).wf(),
            final(self).remaining() == old(self).after_abandon(),
            r@ == action_failure_entry(error@),
    {
        if self.step > 0 && self.reaction < self.plan.len() {
            self.reaction = self.reaction + 1;
            self.step = 0;
            proof {
                let p = self.planned();
                let k = self.reaction as int;
                if k < p.len() {
                    let rest = p.subrange(k, p.len() as int);
                    assert(rest.drop_first() =~= p.subrange(k + 1, p.len() as int));
                    assert(p[k].subrange(0, p[k].len() as int) =~= p[k]);
                }
            }
        }
        let mut t = String::from_str("Message handler: ");
        t.append(error);
        t
    }
}

} // verus!
