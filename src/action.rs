//! What the bot asks the messaging client to do in answer to a message.

use vstd::prelude::*;

verus! {

/// One call for the messaging client to make, about the message that
/// triggered it.
#[derive(Debug, PartialEq, Eq)]
pub enum Action {
    /// Delete the triggering message.
    DeleteTrigger,
    /// Replace the triggering message's text.
    Edit(String),
    /// Reply to the triggering message with this text.
    Reply(String),
    /// Send this text to the triggering message's chat.
    Send(String),
    /// Reply with a randomly composed markdown taunt (see `commands::zenon`).
    ZenonTaunt,
    /// Reply with a randomly drawn retort (see `commands::polskie_krajobrazy`).
    Retort,
    /// Run a burst of filler messages (see `commands::Burst`).
    Strategia,
    /// Reply with a completion of this prompt from the text-generation service.
    Complete(String),
    /// Stop taking updates once this message is handled.
    Shutdown,
}

/// An `Action` with its texts as character sequences.
pub enum ActionView {
    DeleteTrigger,
    Edit(Seq<char>),
    Reply(Seq<char>),
    Send(Seq<char>),
    ZenonTaunt,
    Retort,
    Strategia,
    Complete(Seq<char>),
    Shutdown,
}

impl View for Action {
    type V = ActionView;

    open spec fn view(&self) -> ActionView {
        match self {
            Action::DeleteTrigger => ActionView::DeleteTrigger,
            Action::Edit(t) => ActionView::Edit(t@),
            Action::Reply(t) => ActionView::Reply(t@),
            Action::Send(t) => ActionView::Send(t@),
            Action::ZenonTaunt => ActionView::ZenonTaunt,
            Action::Retort => ActionView::Retort,
            Action::Strategia => ActionView::Strategia,
            Action::Complete(t) => ActionView::Complete(t@),
            Action::Shutdown => ActionView::Shutdown,
        }
    }
}

impl Action {
    /// A copy of this action.
    pub fn duplicate(&self) -> (r: Action)
        ensures
            r@ == self@,
    {
        match self {
            Action::DeleteTrigger => Action::DeleteTrigger,
            Action::Edit(t) => Action::Edit(t.clone()),
            Action::Reply(t) => Action::Reply(t.clone()),
            Action::Send(t) => Action::Send(t.clone()),
            Action::ZenonTaunt => Action::ZenonTaunt,
            Action::Retort => Action::Retort,
            Action::Strategia => Action::Strategia,
            Action::Complete(t) => Action::Complete(t.clone()),
            Action::Shutdown => Action::Shutdown,
        }
    }
}

/// The views of a sequence of actions.
pub open spec fn actions_view(v: Seq<Action>) -> Seq<ActionView> {
    v.map_values(|a: Action| a@)
}

/// The views of a plan: one sequence of actions for each rule that fired.
pub open spec fn plan_view(p: Seq<Vec<Action>>) -> Seq<Seq<ActionView>> {
    p.map_values(|r: Vec<Action>| actions_view(r@))
}

/// `acts` as a plan entry: a rule that asks for nothing adds no entry.
pub open spec fn entry(acts: Seq<ActionView>) -> Seq<Seq<ActionView>> {
    if acts.len() == 0 {
        Seq::empty()
    } else {
        seq![acts]
    }
}

/// Appends `acts` to `plan` as one entry, unless it is empty.
pub fn push_entry(plan: &mut Vec<Vec<Action>>, acts: Vec<Action>)
    ensures
        plan_view(final(plan)@) == plan_view(old(plan)@) + entry(actions_view(acts@)),
{
    if acts.len() > 0 {
        let ghost a = actions_view(acts@);
        plan.push(acts);
        assert(plan_view(plan@) =~= plan_view(old(plan)@) + seq![a]);
    } else {
        assert(plan_view(plan@) =~= plan_view(old(plan)@) + Seq::<Seq<ActionView>>::empty());
    }
}

} // verus!
