//! A small engine that automates the creation of version-control commits.
//!
//! The library holds the decision logic of the tool: probing the state of a
//! repository from captured command output, counting revisions, composing the
//! commit message, and sequencing the whole run as a state machine.  Running
//! the actual `git` processes is left to the (unverified) binary around it,
//! which feeds each captured [`command::CommandResult`] back into
//! [`engine::step`].

pub mod command;
pub mod compose;
pub mod counter;
pub mod engine;
pub mod laws;
pub mod probe;
pub mod remote;
pub mod text;
