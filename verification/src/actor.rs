use vstd::prelude::*;

use crate::command::Command;
use crate::command::Reply;
use crate::model::apply_cmd;
use crate::model::list_result;
use crate::store::StateStore;

verus! {

/// The state actor's dispatch step: apply one command to the store it owns
/// and produce the one reply owed to the command's sender.
///
/// The runtime loop around this function only moves data: it dequeues the
/// next command, calls this step, and writes the reply into the command's
/// reply slot. Everything the actor decides is here, so processing commands
/// one at a time through this function is exactly the sequential model
/// `apply_cmd` describes.
pub fn handle_command<S: StateStore>(store: &mut S, cmd: Command) -> (reply: Reply)
    ensures
        cmd@ is Create ==> reply is Created,
        cmd@ is List ==> reply is Listing,
        reply.is_success() ==> final(store).contents() == apply_cmd(old(store).contents(), cmd@),
        !reply.is_success() ==> final(store).contents() == old(store).contents(),
        reply matches Reply::Listing(Ok(v)) ==> v.deep_view() == list_result(
            old(store).contents(),
        ),
        old(store).infallible() ==> reply.is_success(),
        final(store).infallible() == old(store).infallible(),
{
    match cmd {
        Command::Create { payload } => Reply::Created(store.create(payload)),
        Command::List => Reply::Listing(store.list()),
    }
}

} // verus!
