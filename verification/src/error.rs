use vstd::prelude::*;

verus! {

/// The failures a request can run into once it is past input validation.
/// Validation failures never get a value of this type: they are turned away
/// at the boundary before a command is built.
#[derive(Clone, Copy, Debug, PartialEq, Eq, Structural)]
pub enum ServiceError {
    /// The store operation itself failed inside the actor.
    ActorInternal,
    /// The command could not be placed on the command channel.
    Dispatch,
    /// The reply slot was dropped before an answer arrived.
    ReplyLost,
}

} // verus!
