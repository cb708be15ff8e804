//! Nonce correlation: a stored nonce is held once, its answer fulfills it
//! once and takes it off the list, and a torn-down connection holds none.

use crate::discord_rpc::protocol::{
    answered, answers, awaits, closed_step, correlate_step, distinct_nonces, fail_step,
    frame_step, fulfillments, nonce_index, settle, stored, tokens_step, ActionModel, CoreModel,
    NonceModel, PayloadModel, Phase,
};
use vstd::prelude::*;

verus! {

/// `nonce_index` returns the first position of the nonce at or after `from`.
pub proof fn lemma_nonce_index(pending: Seq<Seq<char>>, nonce: Seq<char>, from: int)
    requires
        0 <= from <= pending.len(),
    ensures
        from <= nonce_index(pending, nonce, from) <= pending.len(),
        nonce_index(pending, nonce, from) < pending.len() ==> pending[nonce_index(
            pending,
            nonce,
            from,
        )] == nonce,
        forall|k: int| from <= k < nonce_index(pending, nonce, from) ==> pending[k] != nonce,
    decreases pending.len() - from,
{
    if from < pending.len() && pending[from] != nonce {
        lemma_nonce_index(pending, nonce, from + 1);
    }
}

/// A nonce awaits its answer exactly when it stands in the list.
pub proof fn lemma_awaits_is_membership(pending: Seq<Seq<char>>, nonce: Seq<char>)
    ensures
        awaits(pending, nonce) <==> exists|i: int| 0 <= i < pending.len() && pending[i] == nonce,
{
    lemma_nonce_index(pending, nonce, 0);
    if awaits(pending, nonce) {
        assert(pending[nonce_index(pending, nonce, 0)] == nonce);
    }
}

/// Storing a nonce makes it pending and never holds a nonce twice.
pub proof fn law_store_holds_once(pending: Seq<Seq<char>>, nonce: Seq<char>)
    requires
        distinct_nonces(pending),
    ensures
        distinct_nonces(stored(pending, nonce)),
        awaits(stored(pending, nonce), nonce),
{
    lemma_nonce_index(pending, nonce, 0);
    let after = stored(pending, nonce);
    lemma_awaits_is_membership(after, nonce);
    if !awaits(pending, nonce) {
        assert(after[pending.len() as int] == nonce);
    } else {
        assert(after[nonce_index(pending, nonce, 0)] == nonce);
    }
}

/// An answer takes its nonce off the list: a second answer with the same
/// nonce finds nothing to fulfill. Every other request stays pending.
pub proof fn law_answer_settles_once(pending: Seq<Seq<char>>, nonce: Seq<char>)
    requires
        distinct_nonces(pending),
    ensures
        distinct_nonces(answered(pending, nonce)),
        !awaits(answered(pending, nonce), nonce),
        forall|other: Seq<char>|
            other != nonce ==> (#[trigger] awaits(answered(pending, nonce), other) <==> awaits(
                pending,
                other,
            )),
{
    lemma_nonce_index(pending, nonce, 0);
    let after = answered(pending, nonce);
    let k = nonce_index(pending, nonce, 0);
    lemma_awaits_is_membership(after, nonce);
    if awaits(pending, nonce) {
        assert forall|i: int| 0 <= i < after.len() implies after[i] != nonce by {
            if i < k {
                assert(after[i] == pending[i]);
            } else {
                assert(after[i] == pending[i + 1]);
            }
        }
        assert forall|i: int, j: int| 0 <= i < j < after.len() implies after[i] != after[j] by {
            let i0 = if i < k { i } else { i + 1 };
            let j0 = if j < k { j } else { j + 1 };
            assert(after[i] == pending[i0] && after[j] == pending[j0]);
        }
    } else {
        assert forall|i: int| 0 <= i < after.len() implies after[i] != nonce by {}
    }
    assert forall|other: Seq<char>| other != nonce implies (#[trigger] awaits(after, other)
        <==> awaits(pending, other)) by {
        lemma_awaits_is_membership(after, other);
        lemma_awaits_is_membership(pending, other);
        if awaits(pending, nonce) {
            if awaits(pending, other) {
                let i = choose|i: int| 0 <= i < pending.len() && pending[i] == other;
                let i1 = if i < k { i } else { i - 1 };
                assert(after[i1] == other);
            }
            if awaits(after, other) {
                let i = choose|i: int| 0 <= i < after.len() && after[i] == other;
                let i0 = if i < k { i } else { i + 1 };
                assert(pending[i0] == other);
            }
        }
    }
}

/// A payload fulfills the request that it answers exactly once, and
/// fulfills no other request.
pub proof fn law_one_fulfillment(c: CoreModel, p: PayloadModel, nonce: Seq<char>)
    ensures
        fulfillments(correlate_step(c, p).actions, nonce) == (if answers(c, p) && p.nonce == Some(
            nonce,
        ) {
            1nat
        } else {
            0nat
        }),
{
    let actions = correlate_step(c, p).actions;
    if answers(c, p) {
        assert(actions.drop_last() =~= Seq::<ActionModel>::empty());
        assert(fulfillments(actions.drop_last(), nonce) == 0);
        assert(actions.last() == ActionModel::Fulfill { nonce: p.nonce->0, answered: p.has_data });
    }
}

/// When the connection is torn down, by an error or by the transport
/// closing, no request stays pending.
pub proof fn law_teardown_clears_pending(c: CoreModel, msg: Seq<char>)
    ensures
        fail_step(c, msg).core.pending.len() == 0,
        fail_step(c, msg).core.phase == Phase::Idle,
        c.phase != Phase::Idle ==> closed_step(c).core.pending.len() == 0,
        closed_step(c).core.phase == Phase::Idle,
{
}

/// Taking an answer off the list keeps every nonce held once.
pub proof fn lemma_settle_keeps_distinct(c: CoreModel, p: PayloadModel)
    requires
        distinct_nonces(c.pending),
    ensures
        distinct_nonces(settle(c, p).pending),
{
    match p.nonce {
        Some(n) => law_answer_settles_once(c.pending, n),
        None => {},
    }
}

/// Whatever arrives, in whatever phase, and whichever nonces are drawn
/// for the requests that go out: no nonce is ever pending twice.
pub proof fn law_steps_keep_nonces_distinct(
    c: CoreModel,
    p: PayloadModel,
    n: NonceModel,
    access: Seq<char>,
    refresh: Option<Seq<char>>,
)
    requires
        distinct_nonces(c.pending),
    ensures
        distinct_nonces(frame_step(c, p, n).core.pending),
        distinct_nonces(tokens_step(c, access, refresh, n).core.pending),
        distinct_nonces(closed_step(c).core.pending),
{
    let s = settle(c, p).pending;
    lemma_settle_keeps_distinct(c, p);
    law_store_holds_once(c.pending, n.a);
    law_store_holds_once(s, n.a);
    law_store_holds_once(s, n.b);
    law_store_holds_once(stored(s, n.b), n.c);
    law_store_holds_once(stored(stored(s, n.b), n.c), n.d);
    law_store_holds_once(c.pending, n.c);
    law_store_holds_once(stored(c.pending, n.c), n.d);
}

} // verus!
