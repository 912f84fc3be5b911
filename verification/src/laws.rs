use vstd::prelude::*;

use crate::model::apply_cmd;
use crate::model::apply_cmds;
use crate::model::create_request_cmds;
use crate::model::creates_of;
use crate::model::list_result;
use crate::model::Cmd;
use crate::text::is_blank;

verus! {

/// After any batch of create commands is applied in submission order, a
/// list reports exactly the prior contents followed by those payloads, in
/// that order; in particular, from a fresh store it reports exactly the
/// payloads, and the length equals the number of creates.
pub proof fn lemma_creates_then_list(state: Seq<Seq<char>>, payloads: Seq<Seq<char>>)
    ensures
        apply_cmds(state, creates_of(payloads)) == state + payloads,
        list_result(apply_cmds(state, creates_of(payloads))) == state + payloads,
        apply_cmds(state, creates_of(payloads)).len() == state.len() + payloads.len(),
        state.len() == 0 ==> list_result(apply_cmds(state, creates_of(payloads))) == payloads,
    decreases payloads.len(),
{
    let cs = creates_of(payloads);
    if payloads.len() == 0 {
        assert(state + payloads =~= state);
    } else {
        assert(cs[0] == Cmd::Create(payloads[0]));
        let state1 = state.push(payloads[0]);
        assert(cs.skip(1) =~= creates_of(payloads.skip(1)));
        lemma_creates_then_list(state1, payloads.skip(1));
        assert(state1 + payloads.skip(1) =~= state + payloads);
    }
    if state.len() == 0 {
        assert(state + payloads =~= payloads);
    }
}

/// A batch of creates on a fresh store loses nothing and duplicates
/// nothing: the final length equals the number of creates, and the entry at
/// each position is exactly the payload submitted at that position.
pub proof fn lemma_batch_of_creates(payloads: Seq<Seq<char>>)
    ensures
        apply_cmds(Seq::<Seq<char>>::empty(), creates_of(payloads)).len() == payloads.len(),
        forall|i: int|
            0 <= i < payloads.len() ==> apply_cmds(Seq::<Seq<char>>::empty(), creates_of(payloads))[i]
                == payloads[i],
{
    lemma_creates_then_list(Seq::<Seq<char>>::empty(), payloads);
    assert(Seq::<Seq<char>>::empty() + payloads =~= payloads);
}

/// Listing is idempotent: a list command leaves the contents exactly as
/// they were, so two list commands with no create between them report the
/// same result, and the store stands unchanged after both.
pub proof fn lemma_list_idempotent(state: Seq<Seq<char>>)
    ensures
        apply_cmd(state, Cmd::List) == state,
        list_result(apply_cmd(state, Cmd::List)) == list_result(state),
        apply_cmds(state, seq![Cmd::List, Cmd::List]) == state,
{
    let cs = seq![Cmd::List, Cmd::List];
    let once = seq![Cmd::List];
    assert(cs.skip(1) =~= once);
    assert(once.skip(1) =~= Seq::<Cmd>::empty());
    assert(apply_cmds(state, cs) == apply_cmds(state, once));
    assert(apply_cmds(state, once) == apply_cmds(state, Seq::<Cmd>::empty()));
    assert(apply_cmds(state, Seq::<Cmd>::empty()) == state);
}

/// A create request with blank content contributes no command at all, so
/// the contents — and with them the result of any later list — stand
/// exactly as they were.
pub proof fn lemma_blank_create_changes_nothing(state: Seq<Seq<char>>, content: Seq<char>)
    requires
        is_blank(content),
    ensures
        create_request_cmds(content) == Seq::<Cmd>::empty(),
        apply_cmds(state, create_request_cmds(content)) == state,
        list_result(apply_cmds(state, create_request_cmds(content))) == list_result(state),
{
}

} // verus!
