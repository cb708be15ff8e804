//! What holds of the segmenter in every state: the tables stay well
//! formed, every finalized segment has positive length, one user's
//! segments never overlap, and the merge buffer joins or splits utterances
//! as configured.

use crate::labels::{label_of, LabelModel};
use crate::session::model::{
    closed, closed_at, finalized, flush, flushed, fresh, gap, kept, on_finish, on_start,
    on_stop, on_tick, open_index, pending_index, selected, well_formed, FlushRule, OpenModel,
    PendingModel, SegmentModel, SessionModel,
};
use vstd::prelude::*;

verus! {

/// `open_index` returns the first position of the user at or after `from`.
pub proof fn lemma_open_index(open: Seq<OpenModel>, user: Seq<char>, from: int)
    requires
        0 <= from <= open.len(),
    ensures
        from <= open_index(open, user, from) <= open.len(),
        open_index(open, user, from) < open.len() ==> open[open_index(open, user, from)].user_id
            == user,
        forall|k: int| from <= k < open_index(open, user, from) ==> (#[trigger] open[k]).user_id != user,
    decreases open.len() - from,
{
    if from < open.len() && open[from].user_id != user {
        lemma_open_index(open, user, from + 1);
    }
}

/// `pending_index` returns the first position of the user at or after `from`.
pub proof fn lemma_pending_index(pending: Seq<PendingModel>, user: Seq<char>, from: int)
    requires
        0 <= from <= pending.len(),
    ensures
        from <= pending_index(pending, user, from) <= pending.len(),
        pending_index(pending, user, from) < pending.len() ==> pending[pending_index(
            pending,
            user,
            from,
        )].user_id == user,
        forall|k: int|
            from <= k < pending_index(pending, user, from) ==> (#[trigger] pending[k]).user_id
                != user,
    decreases pending.len() - from,
{
    if from < pending.len() && pending[from].user_id != user {
        lemma_pending_index(pending, user, from + 1);
    }
}

/// Whether `s` is the segment made from the pending utterance at `j`,
/// and the rule selects that utterance.
pub open spec fn flushed_from(
    s: SegmentModel,
    pending: Seq<PendingModel>,
    j: int,
    rule: FlushRule,
    buffer: u64,
    labels: Seq<LabelModel>,
) -> bool {
    &&& 0 <= j < pending.len()
    &&& selected(pending[j], rule, buffer)
    &&& s == finalized(pending[j], labels)
}

/// Whether `p` is the pending utterance at `j`, and the rule leaves it.
pub open spec fn kept_from(
    p: PendingModel,
    pending: Seq<PendingModel>,
    j: int,
    rule: FlushRule,
    buffer: u64,
) -> bool {
    &&& 0 <= j < pending.len()
    &&& !selected(pending[j], rule, buffer)
    &&& p == pending[j]
}

/// Whether the `k`-th flushed segment comes from some selected pending
/// utterance.
pub open spec fn flushed_has_source(
    pending: Seq<PendingModel>,
    rule: FlushRule,
    buffer: u64,
    labels: Seq<LabelModel>,
    k: int,
) -> bool {
    exists|j: int| #[trigger]
        flushed_from(flushed(pending, rule, buffer, labels)[k], pending, j, rule, buffer, labels)
}

/// Whether the flushed segments at `k1` and `k2` come from pending
/// utterances that stand in the same order.
pub open spec fn flushed_in_order(
    pending: Seq<PendingModel>,
    rule: FlushRule,
    buffer: u64,
    labels: Seq<LabelModel>,
    k1: int,
    k2: int,
) -> bool {
    exists|j1: int, j2: int|
        j1 < j2 && #[trigger] flushed_from(
            flushed(pending, rule, buffer, labels)[k1],
            pending,
            j1,
            rule,
            buffer,
            labels,
        ) && #[trigger] flushed_from(
            flushed(pending, rule, buffer, labels)[k2],
            pending,
            j2,
            rule,
            buffer,
            labels,
        )
}

/// Whether the `k`-th kept utterance is one that the rule does not select.
pub open spec fn kept_has_source(
    pending: Seq<PendingModel>,
    rule: FlushRule,
    buffer: u64,
    k: int,
) -> bool {
    exists|j: int| #[trigger] kept_from(kept(pending, rule, buffer)[k], pending, j, rule, buffer)
}

/// Whether the kept utterances at `k1` and `k2` stand in table order.
pub open spec fn kept_in_order(
    pending: Seq<PendingModel>,
    rule: FlushRule,
    buffer: u64,
    k1: int,
    k2: int,
) -> bool {
    exists|j1: int, j2: int|
        j1 < j2 && #[trigger] kept_from(kept(pending, rule, buffer)[k1], pending, j1, rule, buffer)
            && #[trigger] kept_from(kept(pending, rule, buffer)[k2], pending, j2, rule, buffer)
}

/// Every flushed segment comes from a selected pending utterance, and
/// they come in table order.
pub proof fn lemma_flushed_sources(
    pending: Seq<PendingModel>,
    rule: FlushRule,
    buffer: u64,
    labels: Seq<LabelModel>,
)
    ensures
        forall|k: int|
            0 <= k < flushed(pending, rule, buffer, labels).len() ==> #[trigger] flushed_has_source(
                pending,
                rule,
                buffer,
                labels,
                k,
            ),
        forall|k1: int, k2: int|
            0 <= k1 < k2 < flushed(pending, rule, buffer, labels).len()
                ==> #[trigger] flushed_in_order(pending, rule, buffer, labels, k1, k2),
    decreases pending.len(),
{
    if pending.len() > 0 {
        let rest = pending.drop_last();
        let all = flushed(pending, rule, buffer, labels);
        let before = flushed(rest, rule, buffer, labels);
        let last = pending.len() - 1;
        lemma_flushed_sources(rest, rule, buffer, labels);
        assert forall|k: int| 0 <= k < all.len() implies #[trigger] flushed_has_source(
            pending,
            rule,
            buffer,
            labels,
            k,
        ) by {
            if k < before.len() {
                assert(flushed_has_source(rest, rule, buffer, labels, k));
                let j = choose|j: int| flushed_from(before[k], rest, j, rule, buffer, labels);
                assert(flushed_from(all[k], pending, j, rule, buffer, labels));
            } else {
                assert(flushed_from(all[k], pending, last, rule, buffer, labels));
            }
        }
        assert forall|k1: int, k2: int| 0 <= k1 < k2 < all.len() implies #[trigger] flushed_in_order(
            pending,
            rule,
            buffer,
            labels,
            k1,
            k2,
        ) by {
            if k2 < before.len() {
                assert(flushed_in_order(rest, rule, buffer, labels, k1, k2));
                let (j1, j2) = choose|j1: int, j2: int|
                    j1 < j2 && #[trigger] flushed_from(before[k1], rest, j1, rule, buffer, labels)
                        && #[trigger] flushed_from(before[k2], rest, j2, rule, buffer, labels);
                assert(flushed_from(all[k1], pending, j1, rule, buffer, labels));
                assert(flushed_from(all[k2], pending, j2, rule, buffer, labels));
            } else {
                assert(flushed_has_source(rest, rule, buffer, labels, k1));
                let j1 = choose|j: int| flushed_from(before[k1], rest, j, rule, buffer, labels);
                assert(flushed_from(all[k1], pending, j1, rule, buffer, labels));
                assert(flushed_from(all[k2], pending, last, rule, buffer, labels));
            }
        }
    }
}

/// Every kept utterance is one that the rule does not select, and they
/// stay in table order.
pub proof fn lemma_kept_sources(pending: Seq<PendingModel>, rule: FlushRule, buffer: u64)
    ensures
        forall|k: int|
            0 <= k < kept(pending, rule, buffer).len() ==> #[trigger] kept_has_source(
                pending,
                rule,
                buffer,
                k,
            ),
        forall|k1: int, k2: int|
            0 <= k1 < k2 < kept(pending, rule, buffer).len() ==> #[trigger] kept_in_order(
                pending,
                rule,
                buffer,
                k1,
                k2,
            ),
    decreases pending.len(),
{
    if pending.len() > 0 {
        let rest = pending.drop_last();
        let all = kept(pending, rule, buffer);
        let before = kept(rest, rule, buffer);
        let last = pending.len() - 1;
        lemma_kept_sources(rest, rule, buffer);
        assert forall|k: int| 0 <= k < all.len() implies #[trigger] kept_has_source(
            pending,
            rule,
            buffer,
            k,
        ) by {
            if k < before.len() {
                assert(kept_has_source(rest, rule, buffer, k));
                let j = choose|j: int| kept_from(before[k], rest, j, rule, buffer);
                assert(kept_from(all[k], pending, j, rule, buffer));
            } else {
                assert(kept_from(all[k], pending, last, rule, buffer));
            }
        }
        assert forall|k1: int, k2: int| 0 <= k1 < k2 < all.len() implies #[trigger] kept_in_order(
            pending,
            rule,
            buffer,
            k1,
            k2,
        ) by {
            if k2 < before.len() {
                assert(kept_in_order(rest, rule, buffer, k1, k2));
                let (j1, j2) = choose|j1: int, j2: int|
                    j1 < j2 && #[trigger] kept_from(before[k1], rest, j1, rule, buffer)
                        && #[trigger] kept_from(before[k2], rest, j2, rule, buffer);
                assert(kept_from(all[k1], pending, j1, rule, buffer));
                assert(kept_from(all[k2], pending, j2, rule, buffer));
            } else {
                assert(kept_has_source(rest, rule, buffer, k1));
                let j1 = choose|j: int| kept_from(before[k1], rest, j, rule, buffer);
                assert(kept_from(all[k1], pending, j1, rule, buffer));
                assert(kept_from(all[k2], pending, last, rule, buffer));
            }
        }
    }
}

/// A flush keeps the tables well formed.
pub proof fn lemma_flush_well_formed(m: SessionModel, rule: FlushRule)
    requires
        well_formed(m),
    ensures
        well_formed(flush(m, rule)),
{
    let f = flush(m, rule);
    lemma_kept_sources(m.pending, rule, m.merge_buffer_ms);
    assert forall|i: int, j: int| 0 <= i < j < f.pending.len() implies #[trigger] f.pending[i].user_id
        != #[trigger] f.pending[j].user_id by {
        assert(kept_in_order(m.pending, rule, m.merge_buffer_ms, i, j));
        let (j1, j2) = choose|j1: int, j2: int|
            j1 < j2 && #[trigger] kept_from(f.pending[i], m.pending, j1, rule, m.merge_buffer_ms)
                && #[trigger] kept_from(f.pending[j], m.pending, j2, rule, m.merge_buffer_ms);
        assert(m.pending[j1].user_id != m.pending[j2].user_id);
    }
    assert forall|i: int, j: int|
        0 <= i < f.open.len() && 0 <= j < f.pending.len() implies #[trigger] f.open[i].user_id
        != #[trigger] f.pending[j].user_id by {
        assert(kept_has_source(m.pending, rule, m.merge_buffer_ms, j));
        let j1 = choose|j1: int| kept_from(f.pending[j], m.pending, j1, rule, m.merge_buffer_ms);
        assert(m.open[i].user_id != m.pending[j1].user_id);
    }
}

/// A start event keeps the tables well formed.
pub proof fn lemma_start_well_formed(m: SessionModel, user: Seq<char>, now: u64)
    requires
        well_formed(m),
    ensures
        well_formed(on_start(m, user, now)),
{
    let rule = FlushRule::Others(user);
    let f = flush(m, rule);
    let n = on_start(m, user, now);
    lemma_flush_well_formed(m, rule);
    lemma_kept_sources(m.pending, rule, m.merge_buffer_ms);
    lemma_open_index(m.open, user, 0);
    if open_index(m.open, user, 0) < m.open.len() {
    } else if f.pending.len() > 0 {
        assert(kept_has_source(m.pending, rule, m.merge_buffer_ms, 0));
        let j0 = choose|j: int| kept_from(f.pending[0], m.pending, j, rule, m.merge_buffer_ms);
        assert(m.pending[j0].user_id == user);
        assert forall|i: int| 0 <= i < f.open.len() implies (#[trigger] f.open[i]).user_id
            != user by {
            assert(m.open[i].user_id != m.pending[j0].user_id);
        }
        assert forall|j: int| 0 <= j < n.pending.len() implies (#[trigger] n.pending[j]).user_id
            != user by {
            assert(n.pending[j] == f.pending[j + 1]);
            assert(f.pending[0].user_id != f.pending[j + 1].user_id);
        }
        assert forall|i: int, j: int| 0 <= i < j < n.pending.len() implies #[trigger] n.pending[i].user_id
            != #[trigger] n.pending[j].user_id by {
            assert(f.pending[i + 1].user_id != f.pending[j + 1].user_id);
        }
        assert forall|i: int, j: int|
            0 <= i < n.open.len() && 0 <= j < n.pending.len() implies #[trigger] n.open[i].user_id
            != #[trigger] n.pending[j].user_id by {
            if i < f.open.len() {
                assert(f.open[i].user_id != f.pending[j + 1].user_id);
            }
        }
    }
}

/// A stop event keeps the tables well formed.
pub proof fn lemma_stop_well_formed(m: SessionModel, user: Seq<char>, now: u64)
    requires
        well_formed(m),
    ensures
        well_formed(on_stop(m, user, now)),
{
    let n = on_stop(m, user, now);
    lemma_open_index(m.open, user, 0);
    lemma_pending_index(m.pending, user, 0);
    let k = open_index(m.open, user, 0);
    if k < m.open.len() {
        assert forall|i: int| 0 <= i < n.open.len() implies (#[trigger] n.open[i]).user_id
            != user by {
            if i < k {
                assert(m.open[i].user_id != m.open[k].user_id);
            } else {
                assert(m.open[k].user_id != m.open[i + 1].user_id);
            }
        }
        assert forall|i: int, j: int| 0 <= i < j < n.open.len() implies #[trigger] n.open[i].user_id
            != #[trigger] n.open[j].user_id by {
            let i0 = if i < k { i } else { i + 1 };
            let j0 = if j < k { j } else { j + 1 };
            assert(m.open[i0].user_id != m.open[j0].user_id);
        }
        assert forall|i: int, j: int| 0 <= i < j < n.pending.len() implies #[trigger] n.pending[i].user_id
            != #[trigger] n.pending[j].user_id by {
            if j == m.pending.len() {
                assert(m.open[k].user_id != m.pending[i].user_id);
            }
        }
        assert forall|i: int, j: int|
            0 <= i < n.open.len() && 0 <= j < n.pending.len() implies #[trigger] n.open[i].user_id
            != #[trigger] n.pending[j].user_id by {
            let i0 = if i < k { i } else { i + 1 };
            if j < m.pending.len() {
                assert(m.open[i0].user_id != m.pending[j].user_id);
            }
        }
    }
}

/// The timeline invariant at clock reading `t`: the tables are well
/// formed; every segment and every pending utterance has positive length
/// and ends by `t`; every open utterance started by `t`; and whatever one
/// user has in any table begins no earlier than that user's earlier
/// segments end.
pub open spec fn orderly(m: SessionModel, t: u64) -> bool {
    &&& well_formed(m)
    &&& forall|i: int|
        0 <= i < m.segments.len() ==> (#[trigger] m.segments[i]).start_ms < m.segments[i].end_ms
            && m.segments[i].end_ms <= t
    &&& forall|i: int, j: int|
        0 <= i < j < m.segments.len() && (#[trigger] m.segments[i]).user_id == (
        #[trigger] m.segments[j]).user_id ==> m.segments[i].end_ms <= m.segments[j].start_ms
    &&& forall|j: int|
        0 <= j < m.pending.len() ==> (#[trigger] m.pending[j]).start_ms < m.pending[j].stop_ms
            && m.pending[j].stop_ms <= t
    &&& forall|i: int, j: int|
        0 <= i < m.segments.len() && 0 <= j < m.pending.len() && (
        #[trigger] m.segments[i]).user_id == (#[trigger] m.pending[j]).user_id
            ==> m.segments[i].end_ms <= m.pending[j].start_ms
    &&& forall|j: int| 0 <= j < m.open.len() ==> (#[trigger] m.open[j]).start_ms <= t
    &&& forall|i: int, j: int|
        0 <= i < m.segments.len() && 0 <= j < m.open.len() && (#[trigger] m.segments[i]).user_id
            == (#[trigger] m.open[j]).user_id ==> m.segments[i].end_ms <= m.open[j].start_ms
}

/// A session that has seen no event is orderly at any clock reading.
pub proof fn law_fresh_session_is_orderly(merge_buffer_ms: u64, labels: Seq<LabelModel>, t: u64)
    ensures
        orderly(fresh(merge_buffer_ms, labels), t),
{
}

/// An orderly session stays orderly as the clock moves on.
pub proof fn lemma_orderly_later(m: SessionModel, t: u64, later: u64)
    requires
        orderly(m, t),
        t <= later,
    ensures
        orderly(m, later),
{
}

/// A flush keeps the session orderly.
pub proof fn lemma_flush_orderly(m: SessionModel, rule: FlushRule, t: u64)
    requires
        orderly(m, t),
    ensures
        orderly(flush(m, rule), t),
{
    let f = flush(m, rule);
    let b = m.merge_buffer_ms;
    let old_len = m.segments.len() as int;
    let added = flushed(m.pending, rule, b, m.labels);
    lemma_flush_well_formed(m, rule);
    lemma_kept_sources(m.pending, rule, b);
    lemma_flushed_sources(m.pending, rule, b, m.labels);
    assert forall|i: int| 0 <= i < f.segments.len() implies (#[trigger] f.segments[i]).start_ms
        < f.segments[i].end_ms && f.segments[i].end_ms <= t by {
        if i >= old_len {
            assert(flushed_has_source(m.pending, rule, b, m.labels, i - old_len));
            let seg = added[i - old_len];
            let j = choose|j: int| flushed_from(seg, m.pending, j, rule, b, m.labels);
            assert(m.pending[j].start_ms < m.pending[j].stop_ms);
        } else {
            assert(f.segments[i] == m.segments[i]);
        }
    }
    assert forall|i: int, j: int|
        0 <= i < j < f.segments.len() && (#[trigger] f.segments[i]).user_id == (
        #[trigger] f.segments[j]).user_id implies f.segments[i].end_ms
        <= f.segments[j].start_ms by {
        if j < old_len {
            assert(f.segments[i] == m.segments[i] && f.segments[j] == m.segments[j]);
        } else if i < old_len {
            assert(flushed_has_source(m.pending, rule, b, m.labels, j - old_len));
            let seg = added[j - old_len];
            let s = choose|s: int| flushed_from(seg, m.pending, s, rule, b, m.labels);
            assert(m.segments[i].user_id == m.pending[s].user_id);
        } else {
            assert(flushed_in_order(m.pending, rule, b, m.labels, i - old_len, j - old_len));
            let seg_i = added[i - old_len];
            let seg_j = added[j - old_len];
            let (lo, hi) = choose|lo: int, hi: int|
                lo < hi && #[trigger] flushed_from(seg_i, m.pending, lo, rule, b, m.labels)
                    && #[trigger] flushed_from(seg_j, m.pending, hi, rule, b, m.labels);
            assert(m.pending[lo].user_id != m.pending[hi].user_id);
        }
    }
    assert forall|j: int| 0 <= j < f.pending.len() implies (#[trigger] f.pending[j]).start_ms
        < f.pending[j].stop_ms && f.pending[j].stop_ms <= t by {
        assert(kept_has_source(m.pending, rule, b, j));
        let s = choose|s: int| kept_from(f.pending[j], m.pending, s, rule, b);
        assert(m.pending[s].start_ms < m.pending[s].stop_ms);
    }
    assert forall|i: int, j: int|
        0 <= i < f.segments.len() && 0 <= j < f.pending.len() && (
        #[trigger] f.segments[i]).user_id == (#[trigger] f.pending[j]).user_id implies f.segments[i].end_ms
        <= f.pending[j].start_ms by {
        assert(kept_has_source(m.pending, rule, b, j));
        let s = choose|s: int| kept_from(f.pending[j], m.pending, s, rule, b);
        if i < old_len {
            assert(m.segments[i].user_id == m.pending[s].user_id);
        } else {
            assert(flushed_has_source(m.pending, rule, b, m.labels, i - old_len));
            let seg = added[i - old_len];
            let s0 = choose|s0: int| flushed_from(seg, m.pending, s0, rule, b, m.labels);
            if s0 < s {
                assert(m.pending[s0].user_id != m.pending[s].user_id);
            } else if s < s0 {
                assert(m.pending[s].user_id != m.pending[s0].user_id);
            }
        }
    }
    assert forall|i: int, j: int|
        0 <= i < f.segments.len() && 0 <= j < f.open.len() && (#[trigger] f.segments[i]).user_id
            == (#[trigger] f.open[j]).user_id implies f.segments[i].end_ms
        <= f.open[j].start_ms by {
        if i < old_len {
            assert(m.segments[i].user_id == m.open[j].user_id);
        } else {
            assert(flushed_has_source(m.pending, rule, b, m.labels, i - old_len));
            let seg = added[i - old_len];
            let s0 = choose|s0: int| flushed_from(seg, m.pending, s0, rule, b, m.labels);
            assert(m.open[j].user_id != m.pending[s0].user_id);
        }
    }
}

/// A periodic flush at a clock reading no earlier than the last keeps the
/// session orderly.
pub proof fn law_tick_keeps_order(m: SessionModel, now: u64, t: u64)
    requires
        orderly(m, t),
        t <= now,
    ensures
        orderly(on_tick(m, now), now),
{
    lemma_flush_orderly(m, FlushRule::Elapsed(now), t);
    lemma_orderly_later(on_tick(m, now), t, now);
}

/// A start event at a clock reading no earlier than the last keeps the
/// session orderly.
pub proof fn law_start_keeps_order(m: SessionModel, user: Seq<char>, now: u64, t: u64)
    requires
        orderly(m, t),
        t <= now,
    ensures
        orderly(on_start(m, user, now), now),
{
    let rule = FlushRule::Others(user);
    let f = flush(m, rule);
    let n = on_start(m, user, now);
    lemma_flush_orderly(m, rule, t);
    lemma_orderly_later(f, t, now);
    lemma_start_well_formed(m, user, now);
    lemma_kept_sources(m.pending, rule, m.merge_buffer_ms);
    lemma_orderly_later(m, t, now);
    if open_index(m.open, user, 0) < m.open.len() {
    } else if f.pending.len() > 0 {
        let p = f.pending[0];
        assert(kept_has_source(m.pending, rule, m.merge_buffer_ms, 0));
        assert(p.user_id == user);
        assert(p.start_ms < p.stop_ms);
        assert forall|j: int| 0 <= j < n.pending.len() implies (#[trigger] n.pending[j]).start_ms
            < n.pending[j].stop_ms && n.pending[j].stop_ms <= now by {
            assert(n.pending[j] == f.pending[j + 1]);
        }
        assert forall|j: int| 0 <= j < n.pending.len() implies (#[trigger] n.pending[j]).user_id
            != user by {
            assert(n.pending[j] == f.pending[j + 1]);
            assert(f.pending[0].user_id != f.pending[j + 1].user_id);
        }
        assert forall|i: int| 0 <= i < f.segments.len() && (#[trigger] f.segments[i]).user_id
            == user implies f.segments[i].end_ms <= p.start_ms by {
            assert(f.segments[i].user_id == f.pending[0].user_id);
        }
        assert forall|i: int, j: int|
            0 <= i < n.segments.len() && 0 <= j < n.pending.len() && (
            #[trigger] n.segments[i]).user_id == (#[trigger] n.pending[j]).user_id implies n.segments[i].end_ms
            <= n.pending[j].start_ms by {
            assert(n.pending[j] == f.pending[j + 1]);
            if i < f.segments.len() {
                assert(f.segments[i].user_id == f.pending[j + 1].user_id);
            }
        }
        assert forall|i: int, j: int|
            0 <= i < n.segments.len() && 0 <= j < n.open.len() && (
            #[trigger] n.segments[i]).user_id == (#[trigger] n.open[j]).user_id implies n.segments[i].end_ms
            <= n.open[j].start_ms by {
            if j < f.open.len() {
                if i < f.segments.len() {
                    assert(f.segments[i].user_id == f.open[j].user_id);
                } else {
                    assert(f.open[j].user_id != f.pending[0].user_id);
                }
            } else {
                if i < f.segments.len() {
                    assert(f.segments[i].user_id == user);
                }
            }
        }
        assert forall|i: int, j: int|
            0 <= i < j < n.segments.len() && (#[trigger] n.segments[i]).user_id == (
            #[trigger] n.segments[j]).user_id implies n.segments[i].end_ms
            <= n.segments[j].start_ms by {
            if j < f.segments.len() {
                assert(f.segments[i].user_id == f.segments[j].user_id);
            } else {
                assert(f.segments[i].user_id == user);
            }
        }
        assert forall|i: int| 0 <= i < n.segments.len() implies (#[trigger] n.segments[i]).start_ms
            < n.segments[i].end_ms && n.segments[i].end_ms <= now by {
            if i < f.segments.len() {
                assert(n.segments[i] == f.segments[i]);
            }
        }
    } else {
        assert forall|i: int, j: int|
            0 <= i < n.segments.len() && 0 <= j < n.open.len() && (
            #[trigger] n.segments[i]).user_id == (#[trigger] n.open[j]).user_id implies n.segments[i].end_ms
            <= n.open[j].start_ms by {
            if j < f.open.len() {
                assert(f.segments[i].user_id == f.open[j].user_id);
            }
        }
    }
}

/// A stop event keeps the session orderly, when the clock reads no earlier
/// than the last reading and later than the start of the utterance that
/// the event stops.
pub proof fn law_stop_keeps_order(m: SessionModel, user: Seq<char>, now: u64, t: u64)
    requires
        orderly(m, t),
        t <= now,
        open_index(m.open, user, 0) < m.open.len() ==> m.open[open_index(
            m.open,
            user,
            0,
        )].start_ms < now,
    ensures
        orderly(on_stop(m, user, now), now),
{
    let n = on_stop(m, user, now);
    lemma_stop_well_formed(m, user, now);
    lemma_open_index(m.open, user, 0);
    lemma_pending_index(m.pending, user, 0);
    let k = open_index(m.open, user, 0);
    let j0 = pending_index(m.pending, user, 0);
    if k < m.open.len() {
        assert forall|j: int| 0 <= j < n.open.len() implies (#[trigger] n.open[j]).start_ms
            <= now by {
            let s = if j < k { j } else { j + 1 };
            assert(n.open[j] == m.open[s]);
        }
        assert forall|i: int, j: int|
            0 <= i < n.segments.len() && 0 <= j < n.open.len() && (
            #[trigger] n.segments[i]).user_id == (#[trigger] n.open[j]).user_id implies n.segments[i].end_ms
            <= n.open[j].start_ms by {
            let s = if j < k { j } else { j + 1 };
            assert(n.open[j] == m.open[s]);
            assert(m.segments[i].user_id == m.open[s].user_id);
        }
        assert forall|i: int, j: int|
            0 <= i < n.segments.len() && 0 <= j < n.pending.len() && (
            #[trigger] n.segments[i]).user_id == (#[trigger] n.pending[j]).user_id implies n.segments[i].end_ms
            <= n.pending[j].start_ms by {
            if j < m.pending.len() {
                assert(m.segments[i].user_id == m.pending[j].user_id);
            } else {
                assert(m.segments[i].user_id == m.open[k].user_id);
            }
        }
        assert forall|j: int| 0 <= j < n.pending.len() implies (#[trigger] n.pending[j]).start_ms
            < n.pending[j].stop_ms && n.pending[j].stop_ms <= now by {
            if j < m.pending.len() {
                assert(n.pending[j] == m.pending[j]);
            }
        }
    } else if j0 < m.pending.len() {
        assert forall|j: int| 0 <= j < n.pending.len() implies (#[trigger] n.pending[j]).start_ms
            < n.pending[j].stop_ms && n.pending[j].stop_ms <= now by {
            assert(m.pending[j].start_ms < m.pending[j].stop_ms);
        }
        assert forall|i: int, j: int|
            0 <= i < n.segments.len() && 0 <= j < n.pending.len() && (
            #[trigger] n.segments[i]).user_id == (#[trigger] n.pending[j]).user_id implies n.segments[i].end_ms
            <= n.pending[j].start_ms by {
            assert(m.segments[i].user_id == m.pending[j].user_id);
        }
    }
}

/// Stopping the session keeps it orderly, when the clock reads no earlier
/// than the last reading and later than the start of every open utterance.
pub proof fn law_finish_keeps_order(m: SessionModel, now: u64, t: u64)
    requires
        orderly(m, t),
        t <= now,
        forall|j: int| 0 <= j < m.open.len() ==> (#[trigger] m.open[j]).start_ms < now,
    ensures
        orderly(on_finish(m, now), now),
{
    let f = flush(m, FlushRule::Every);
    let n = on_finish(m, now);
    let tail = closed(m.open, now, m.labels);
    lemma_flush_orderly(m, FlushRule::Every, t);
    lemma_orderly_later(f, t, now);
    assert(n.segments == f.segments + tail);
    assert forall|i: int| 0 <= i < n.segments.len() implies (#[trigger] n.segments[i]).start_ms
        < n.segments[i].end_ms && n.segments[i].end_ms <= now by {
        if i < f.segments.len() {
            assert(n.segments[i] == f.segments[i]);
        } else {
            assert(n.segments[i] == closed_at(m.open[i - f.segments.len()], now, m.labels));
        }
    }
    assert forall|i: int, j: int|
        0 <= i < j < n.segments.len() && (#[trigger] n.segments[i]).user_id == (
        #[trigger] n.segments[j]).user_id implies n.segments[i].end_ms
        <= n.segments[j].start_ms by {
        let base = f.segments.len() as int;
        if j < base {
            assert(f.segments[i].user_id == f.segments[j].user_id);
        } else if i < base {
            assert(n.segments[j] == closed_at(m.open[j - base], now, m.labels));
            assert(f.segments[i].user_id == f.open[j - base].user_id);
        } else {
            assert(n.segments[i] == closed_at(m.open[i - base], now, m.labels));
            assert(n.segments[j] == closed_at(m.open[j - base], now, m.labels));
            assert(m.open[i - base].user_id != m.open[j - base].user_id);
        }
    }
}

/// In an orderly session every finalized segment starts before it ends.
pub proof fn law_segments_have_positive_length(m: SessionModel, t: u64)
    requires
        orderly(m, t),
    ensures
        forall|i: int|
            0 <= i < m.segments.len() ==> (#[trigger] m.segments[i]).start_ms
                < m.segments[i].end_ms,
{
}

/// In an orderly session the segments of one user are pairwise disjoint
/// and stand in the list in the order of their start times.
pub proof fn law_same_user_segments_disjoint(m: SessionModel, t: u64)
    requires
        orderly(m, t),
    ensures
        forall|i: int, j: int|
            0 <= i < j < m.segments.len() && (#[trigger] m.segments[i]).user_id == (
            #[trigger] m.segments[j]).user_id ==> m.segments[i].end_ms <= m.segments[j].start_ms
                && m.segments[i].start_ms <= m.segments[j].start_ms,
{
    assert forall|i: int, j: int|
        0 <= i < j < m.segments.len() && (#[trigger] m.segments[i]).user_id == (
        #[trigger] m.segments[j]).user_id implies m.segments[i].end_ms <= m.segments[j].start_ms
        && m.segments[i].start_ms <= m.segments[j].start_ms by {
        assert(m.segments[i].start_ms < m.segments[i].end_ms);
    }
}

/// Once a session is stopped no utterance is left open or pending.
pub proof fn law_finish_empties_tables(m: SessionModel, now: u64)
    ensures
        on_finish(m, now).open.len() == 0,
        on_finish(m, now).pending.len() == 0,
{
}

/// Whether the pending utterance at `j` stands among the kept ones.
pub open spec fn is_kept(pending: Seq<PendingModel>, rule: FlushRule, buffer: u64, j: int) -> bool {
    exists|k: int|
        0 <= k < kept(pending, rule, buffer).len() && #[trigger] kept(pending, rule, buffer)[k]
            == pending[j]
}

/// Every pending utterance that the rule does not select is kept.
pub proof fn lemma_kept_complete(pending: Seq<PendingModel>, rule: FlushRule, buffer: u64)
    ensures
        forall|j: int|
            0 <= j < pending.len() && !selected(pending[j], rule, buffer) ==> #[trigger] is_kept(
                pending,
                rule,
                buffer,
                j,
            ),
    decreases pending.len(),
{
    if pending.len() > 0 {
        let rest = pending.drop_last();
        let all = kept(pending, rule, buffer);
        let before = kept(rest, rule, buffer);
        lemma_kept_complete(rest, rule, buffer);
        assert forall|j: int|
            0 <= j < pending.len() && !selected(pending[j], rule, buffer) implies #[trigger] is_kept(
            pending,
            rule,
            buffer,
            j,
        ) by {
            if j < rest.len() {
                assert(rest[j] == pending[j]);
                assert(is_kept(rest, rule, buffer, j));
                let k = choose|k: int| 0 <= k < before.len() && #[trigger] before[k] == rest[j];
                assert(all[k] == pending[j]);
            } else {
                assert(all[all.len() - 1] == pending[j]);
            }
        }
    }
}

/// In well-formed tables, the flush that a user's start brings leaves
/// exactly that user's own pending utterance.
pub proof fn lemma_own_pending_kept(m: SessionModel, user: Seq<char>)
    requires
        well_formed(m),
        pending_index(m.pending, user, 0) < m.pending.len(),
    ensures
        kept(m.pending, FlushRule::Others(user), m.merge_buffer_ms) == seq![
            m.pending[pending_index(m.pending, user, 0)],
        ],
{
    let rule = FlushRule::Others(user);
    let b = m.merge_buffer_ms;
    let own = kept(m.pending, rule, b);
    let j = pending_index(m.pending, user, 0);
    lemma_pending_index(m.pending, user, 0);
    lemma_kept_complete(m.pending, rule, b);
    lemma_kept_sources(m.pending, rule, b);
    assert(is_kept(m.pending, rule, b, j));
    if own.len() >= 2 {
        assert(kept_in_order(m.pending, rule, b, 0, 1));
        let (j1, j2) = choose|j1: int, j2: int|
            j1 < j2 && #[trigger] kept_from(own[0], m.pending, j1, rule, b) && #[trigger] kept_from(
                own[1],
                m.pending,
                j2,
                rule,
                b,
            );
        assert(m.pending[j1].user_id != m.pending[j2].user_id);
    }
    assert(kept_has_source(m.pending, rule, b, 0));
    let s = choose|s: int| kept_from(own[0], m.pending, s, rule, b);
    if s < j {
        assert(m.pending[s].user_id != m.pending[j].user_id);
    } else if j < s {
        assert(m.pending[j].user_id != m.pending[s].user_id);
    }
    assert(own =~= seq![m.pending[j]]);
}

/// The merge-buffer law in any well-formed session. A user whose
/// utterance is pending starts again. Other users' pending utterances are
/// finalized, and none of those segments is the user's. When the pause is
/// within the merge buffer, nothing of the user is finalized and the
/// utterance is open again with its first start time, so that its next
/// stop makes one segment of the two. When the pause is longer, the
/// pending utterance is finalized as it stands and a new one opens at the
/// present time.
pub proof fn law_restart_joins_or_splits(m: SessionModel, user: Seq<char>, now: u64)
    requires
        well_formed(m),
        pending_index(m.pending, user, 0) < m.pending.len(),
    ensures
        ({
            let p = m.pending[pending_index(m.pending, user, 0)];
            let others = flushed(m.pending, FlushRule::Others(user), m.merge_buffer_ms, m.labels);
            let n = on_start(m, user, now);
            &&& n.pending.len() == 0
            &&& forall|k: int| 0 <= k < others.len() ==> (#[trigger] others[k]).user_id != user
            &&& gap(now, p.stop_ms) <= m.merge_buffer_ms ==> n.segments == m.segments + others
                && n.open == m.open.push(OpenModel { user_id: user, start_ms: p.start_ms })
            &&& gap(now, p.stop_ms) > m.merge_buffer_ms ==> n.segments == (m.segments
                + others).push(finalized(p, m.labels)) && n.open == m.open.push(
                OpenModel { user_id: user, start_ms: now },
            )
        }),
{
    let rule = FlushRule::Others(user);
    let b = m.merge_buffer_ms;
    let j = pending_index(m.pending, user, 0);
    let others = flushed(m.pending, rule, b, m.labels);
    lemma_pending_index(m.pending, user, 0);
    lemma_open_index(m.open, user, 0);
    lemma_own_pending_kept(m, user);
    lemma_flushed_sources(m.pending, rule, b, m.labels);
    let k0 = open_index(m.open, user, 0);
    if k0 < m.open.len() {
        assert(m.open[k0].user_id != m.pending[j].user_id);
    }
    let own = kept(m.pending, rule, b);
    assert(own[0] == m.pending[j]);
    assert(own.drop_first() =~= Seq::<PendingModel>::empty());
    assert forall|k: int| 0 <= k < others.len() implies (#[trigger] others[k]).user_id != user by {
        assert(flushed_has_source(m.pending, rule, b, m.labels, k));
    }
}

/// What a flush does to a table of one utterance.
pub proof fn lemma_flush_single(
    p: PendingModel,
    rule: FlushRule,
    buffer: u64,
    labels: Seq<LabelModel>,
)
    ensures
        flushed(seq![p], rule, buffer, labels) == if selected(p, rule, buffer) {
            seq![finalized(p, labels)]
        } else {
            Seq::<SegmentModel>::empty()
        },
        kept(seq![p], rule, buffer) == if selected(p, rule, buffer) {
            Seq::<PendingModel>::empty()
        } else {
            seq![p]
        },
{
    let one = seq![p];
    assert(one.drop_last() =~= Seq::<PendingModel>::empty());
    assert(one.last() == p);
    assert(flushed(one.drop_last(), rule, buffer, labels) =~= Seq::<SegmentModel>::empty());
    assert(kept(one.drop_last(), rule, buffer) =~= Seq::<PendingModel>::empty());
    assert(flushed(one, rule, buffer, labels) =~= if selected(p, rule, buffer) {
        seq![finalized(p, labels)]
    } else {
        Seq::<SegmentModel>::empty()
    });
    assert(kept(one, rule, buffer) =~= if selected(p, rule, buffer) {
        Seq::<PendingModel>::empty()
    } else {
        seq![p]
    });
}

/// The segment of `user` from `start_ms` to `end_ms`.
pub open spec fn utterance(
    user: Seq<char>,
    start_ms: u64,
    end_ms: u64,
    labels: Seq<LabelModel>,
) -> SegmentModel {
    SegmentModel { start_ms, end_ms, user_id: user, speaker_name: label_of(labels, user) }
}

/// The session after one user alone has started at `t0`, stopped at `t1`,
/// started again at `t2`, stopped at `t3`, and the session was stopped
/// at `t4`.
pub open spec fn two_utterances(
    merge_buffer_ms: u64,
    labels: Seq<LabelModel>,
    user: Seq<char>,
    t0: u64,
    t1: u64,
    t2: u64,
    t3: u64,
    t4: u64,
) -> SessionModel {
    on_finish(
        on_stop(
            on_start(
                on_stop(on_start(fresh(merge_buffer_ms, labels), user, t0), user, t1),
                user,
                t2,
            ),
            user,
            t3,
        ),
        t4,
    )
}

/// The merge-buffer law. A user stops at `t1` and starts again at `t2`.
/// When the pause `t2 - t1` is within the merge buffer the two utterances
/// become one segment from the first start to the last stop; when it is
/// longer they become two segments.
pub proof fn law_merge_buffer(
    merge_buffer_ms: u64,
    labels: Seq<LabelModel>,
    user: Seq<char>,
    t0: u64,
    t1: u64,
    t2: u64,
    t3: u64,
    t4: u64,
)
    requires
        merge_buffer_ms >= 1,
        t1 <= t2,
    ensures
        t2 - t1 <= merge_buffer_ms ==> two_utterances(
            merge_buffer_ms,
            labels,
            user,
            t0,
            t1,
            t2,
            t3,
            t4,
        ).segments == seq![utterance(user, t0, t3, labels)],
        t2 - t1 > merge_buffer_ms ==> two_utterances(
            merge_buffer_ms,
            labels,
            user,
            t0,
            t1,
            t2,
            t3,
            t4,
        ).segments == seq![utterance(user, t0, t1, labels), utterance(user, t2, t3, labels)],
{
    let b = merge_buffer_ms;
    let others = FlushRule::Others(user);
    let begun = fresh(b, labels);
    let started = on_start(begun, user, t0);
    assert(flushed(begun.pending, others, b, labels) =~= Seq::<SegmentModel>::empty());
    assert(kept(begun.pending, others, b) =~= Seq::<PendingModel>::empty());
    assert(started.open =~= seq![OpenModel { user_id: user, start_ms: t0 }]);
    assert(started.pending =~= Seq::<PendingModel>::empty());
    assert(started.segments =~= Seq::<SegmentModel>::empty());
    let stopped = on_stop(started, user, t1);
    let first = PendingModel { user_id: user, start_ms: t0, stop_ms: t1 };
    assert(open_index(started.open, user, 0) == 0);
    assert(stopped.open =~= Seq::<OpenModel>::empty());
    assert(stopped.pending =~= seq![first]);
    let restarted = on_start(stopped, user, t2);
    lemma_flush_single(first, others, b, labels);
    let flushed_once = flush(stopped, others);
    assert(flushed_once.pending == seq![first]);
    assert(flushed_once.segments =~= Seq::<SegmentModel>::empty());
    assert(flushed_once.pending.drop_first() =~= Seq::<PendingModel>::empty());
    let start2 = if t2 - t1 <= b { t0 } else { t2 };
    assert(restarted.open =~= seq![OpenModel { user_id: user, start_ms: start2 }]);
    assert(restarted.pending =~= Seq::<PendingModel>::empty());
    let stopped_again = on_stop(restarted, user, t3);
    let second = PendingModel { user_id: user, start_ms: start2, stop_ms: t3 };
    assert(open_index(restarted.open, user, 0) == 0);
    assert(stopped_again.open =~= Seq::<OpenModel>::empty());
    assert(stopped_again.pending =~= seq![second]);
    assert(stopped_again.segments == restarted.segments);
    lemma_flush_single(second, FlushRule::Every, b, labels);
    let finished = on_finish(stopped_again, t4);
    assert(closed(stopped_again.open, t4, labels) =~= Seq::<SegmentModel>::empty());
    if t2 - t1 <= b {
        assert(restarted.segments =~= Seq::<SegmentModel>::empty());
        assert(finished.segments =~= seq![utterance(user, t0, t3, labels)]);
    } else {
        assert(restarted.segments =~= seq![utterance(user, t0, t1, labels)]);
        assert(finished.segments =~= seq![
            utterance(user, t0, t1, labels),
            utterance(user, t2, t3, labels),
        ]);
    }
}

} // verus!
