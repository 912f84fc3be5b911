use vstd::prelude::*;

use crate::text::is_blank;

verus! {

/// The mathematical form of a command: what the actor dispatches on, with
/// the reply slot abstracted away.
pub enum Cmd {
    Create(Seq<char>),
    List,
}

/// The store contents after the actor applies one command: a create appends
/// its payload, a list changes nothing.
pub open spec fn apply_cmd(state: Seq<Seq<char>>, c: Cmd) -> Seq<Seq<char>> {
    match c {
        Cmd::Create(payload) => state.push(payload),
        Cmd::List => state,
    }
}

/// The store contents after the actor applies a whole sequence of commands,
/// one at a time, in arrival order.
pub open spec fn apply_cmds(state: Seq<Seq<char>>, cs: Seq<Cmd>) -> Seq<Seq<char>>
    decreases cs.len(),
{
    if cs.len() == 0 {
        state
    } else {
        apply_cmds(apply_cmd(state, cs[0]), cs.skip(1))
    }
}

/// What a list command reports: the contents as they stand, in insertion
/// order.
pub open spec fn list_result(state: Seq<Seq<char>>) -> Seq<Seq<char>> {
    state
}

/// The command sequence of a batch of create requests, one per payload, in
/// submission order.
pub open spec fn creates_of(payloads: Seq<Seq<char>>) -> Seq<Cmd> {
    payloads.map_values(|p: Seq<char>| Cmd::Create(p))
}

/// The commands that one create request contributes to the pipeline: none
/// at all when the content is blank (the handler turns it away before the
/// actor can see it), and a single create otherwise.
pub open spec fn create_request_cmds(content: Seq<char>) -> Seq<Cmd> {
    if is_blank(content) {
        Seq::<Cmd>::empty()
    } else {
        seq![Cmd::Create(content)]
    }
}

} // verus!
