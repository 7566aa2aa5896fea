//! Decision logic of a chat-automation bot: which reactions an inbound
//! message triggers, how operator commands are parsed, the randomised
//! message burst, the update-loop and sign-in state machines, and the
//! formatting of account names.

pub mod text;
pub mod random;
pub mod commands;
pub mod action;
pub mod handler;
pub mod router;
pub mod names;
pub mod sign_in;
