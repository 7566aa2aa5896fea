//! The interactive sign-in: which answer to ask the operator for next.

use vstd::prelude::*;

verus! {

/// Where the sign-in stands.
#[derive(Clone, Copy, Debug, PartialEq, Eq, Structural)]
pub enum SignInStep {
    /// A phone number is needed to request a login code.
    AskPhone,
    /// The login code that was sent is needed.
    AskCode,
    /// The account's two-step password is needed.
    AskPassword,
    /// The account is signed in.
    Done,
}

/// How the service answered the last request.
#[derive(Clone, Copy, Debug, PartialEq, Eq, Structural)]
pub enum SignInOutcome {
    /// The request succeeded.
    Accepted,
    /// The code was right, and the account also asks for its password.
    PasswordRequired,
    /// The request failed; the error is shown and the operator asked again.
    Refused,
}

/// The step after `outcome` arrives at `step`. A refused phone number or
/// code is asked for again; a refused password goes back to the code, as
/// the password request used up the pending sign-in.
pub open spec fn next_step(step: SignInStep, outcome: SignInOutcome) -> SignInStep {
    match step {
        SignInStep::AskPhone => if outcome == SignInOutcome::Accepted {
            SignInStep::AskCode
        } else {
            SignInStep::AskPhone
        },
        SignInStep::AskCode => match outcome {
            SignInOutcome::Accepted => SignInStep::Done,
            SignInOutcome::PasswordRequired => SignInStep::AskPassword,
            SignInOutcome::Refused => SignInStep::AskCode,
        },
        SignInStep::AskPassword => if outcome == SignInOutcome::Accepted {
            SignInStep::Done
        } else {
            SignInStep::AskCode
        },
        SignInStep::Done => SignInStep::Done,
    }
}

/// The prompt shown for each step that needs an answer.
pub open spec fn prompt_for(step: SignInStep) -> Option<Seq<char>> {
    match step {
        SignInStep::AskPhone => Some("Phone: "@),
        SignInStep::AskCode => Some("Code: "@),
        SignInStep::AskPassword => Some("Password: "@),
        SignInStep::Done => None,
    }
}

/// A sign-in in progress.
pub struct SignIn {
    step: SignInStep,
}

impl View for SignIn {
    type V = SignInStep;

    closed spec fn view(&self) -> SignInStep {
        self.step
    }
}

impl SignIn {
    /// A sign-in that starts by asking for the phone number.
    pub fn new() -> (r: SignIn)
        ensures
            r@ == SignInStep::AskPhone,
    {
        SignIn { step: SignInStep::AskPhone }
    }

    /// The current step.
    pub fn step(&self) -> (r: SignInStep)
        ensures
            r == self@,
    {
        self.step
    }

    /// What to ask the operator for, or `None` once signed in.
    pub fn prompt(&self) -> (r: Option<&'static str>)
        ensures
            match r {
                Some(t) => prompt_for(self@) == Some(t@),
                None => prompt_for(self@) is None,
            },
    {
        match self.step {
            SignInStep::AskPhone => Some("Phone: "),
            SignInStep::AskCode => Some("Code: "),
            SignInStep::AskPassword => Some("Password: "),
            SignInStep::Done => None,
        }
    }

    /// Takes in the answer to the last request.
    pub fn on_outcome(&mut self, outcome: SignInOutcome)
        ensures
            final(self)@ == next_step(old(self)@, outcome),
    {
        self.step = match self.step {
            SignInStep::AskPhone => if outcome == SignInOutcome::Accepted {
                SignInStep::AskCode
            } else {
                SignInStep::AskPhone
            },
            SignInStep::AskCode => match outcome {
                SignInOutcome::Accepted => SignInStep::Done,
                SignInOutcome::PasswordRequired => SignInStep::AskPassword,
                SignInOutcome::Refused => SignInStep::AskCode,
            },
            SignInStep::AskPassword => if outcome == SignInOutcome::Accepted {
                SignInStep::Done
            } else {
                SignInStep::AskCode
            },
            SignInStep::Done => SignInStep::Done,
        };
    }
}

} // verus!
