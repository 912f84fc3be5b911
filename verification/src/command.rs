use vstd::prelude::*;

use crate::error::ServiceError;
use crate::model::Cmd;

verus! {

/// A request to mutate or observe the message list. The surrounding runtime
/// pairs each command with a reply slot; the command itself is plain data,
/// and its view is the mathematical command the actor model speaks of.
#[derive(Debug, PartialEq, Eq)]
pub enum Command {
    /// Append this payload to the list.
    Create { payload: String },
    /// Report a snapshot of the list.
    List,
}

impl View for Command {
    type V = Cmd;

    open spec fn view(&self) -> Cmd {
        match self {
            Command::Create { payload } => Cmd::Create(payload@),
            Command::List => Cmd::List,
        }
    }
}

/// The single value the actor writes into a command's reply slot: a create
/// command is answered with a create result, a list command with a list
/// result.
#[derive(Debug, PartialEq, Eq)]
pub enum Reply {
    Created(Result<(), ServiceError>),
    Listing(Result<Vec<String>, ServiceError>),
}

impl Reply {
    /// Whether the reply reports success.
    pub open spec fn is_success(&self) -> bool {
        match self {
            Reply::Created(r) => r is Ok,
            Reply::Listing(r) => r is Ok,
        }
    }
}

} // verus!
