//! The speaker segmenter as a mathematical state machine.
//!
//! Speaking events move a user between two tables: `open` (speaking now)
//! and `pending` (stopped, still mergeable). Finalized segments are only
//! ever appended. All times are milliseconds on the session clock.

use crate::labels::{label_of, LabelModel};
use vstd::prelude::*;

verus! {

/// A finalized utterance.
pub struct SegmentModel {
    pub start_ms: u64,
    pub end_ms: u64,
    pub user_id: Seq<char>,
    pub speaker_name: Option<Seq<char>>,
}

/// An utterance that has started and not yet stopped.
pub struct OpenModel {
    pub user_id: Seq<char>,
    pub start_ms: u64,
}

/// An utterance that has stopped and may still be extended.
pub struct PendingModel {
    pub user_id: Seq<char>,
    pub start_ms: u64,
    pub stop_ms: u64,
}

/// The segmenter's whole state.
pub struct SessionModel {
    pub segments: Seq<SegmentModel>,
    pub open: Seq<OpenModel>,
    pub pending: Seq<PendingModel>,
    pub merge_buffer_ms: u64,
    pub labels: Seq<LabelModel>,
}

/// Which pending utterances a flush finalizes.
pub enum FlushRule {
    /// Those of every user but the named one.
    Others(Seq<char>),
    /// Those that stopped at least a merge buffer before the given time.
    Elapsed(u64),
    /// All of them.
    Every,
}

/// Milliseconds from `stop_ms` to `now`, zero when `now` is earlier.
pub open spec fn gap(now: u64, stop_ms: u64) -> int {
    if now >= stop_ms {
        now - stop_ms
    } else {
        0
    }
}

/// Whether `rule` finalizes the pending utterance `p`.
pub open spec fn selected(p: PendingModel, rule: FlushRule, buffer: u64) -> bool {
    match rule {
        FlushRule::Others(user) => p.user_id != user,
        FlushRule::Elapsed(now) => gap(now, p.stop_ms) >= buffer,
        FlushRule::Every => true,
    }
}

/// The segment that a pending utterance becomes.
pub open spec fn finalized(p: PendingModel, labels: Seq<LabelModel>) -> SegmentModel {
    SegmentModel {
        start_ms: p.start_ms,
        end_ms: p.stop_ms,
        user_id: p.user_id,
        speaker_name: label_of(labels, p.user_id),
    }
}

/// The segment that an open utterance becomes when it is closed at `now`.
pub open spec fn closed_at(o: OpenModel, now: u64, labels: Seq<LabelModel>) -> SegmentModel {
    SegmentModel {
        start_ms: o.start_ms,
        end_ms: now,
        user_id: o.user_id,
        speaker_name: label_of(labels, o.user_id),
    }
}

/// The segments that a flush appends, in table order.
pub open spec fn flushed(
    pending: Seq<PendingModel>,
    rule: FlushRule,
    buffer: u64,
    labels: Seq<LabelModel>,
) -> Seq<SegmentModel>
    decreases pending.len(),
{
    if pending.len() == 0 {
        Seq::empty()
    } else {
        let rest = flushed(pending.drop_last(), rule, buffer, labels);
        if selected(pending.last(), rule, buffer) {
            rest.push(finalized(pending.last(), labels))
        } else {
            rest
        }
    }
}

/// The pending utterances that a flush leaves, in table order.
pub open spec fn kept(pending: Seq<PendingModel>, rule: FlushRule, buffer: u64) -> Seq<
    PendingModel,
>
    decreases pending.len(),
{
    if pending.len() == 0 {
        Seq::empty()
    } else {
        let rest = kept(pending.drop_last(), rule, buffer);
        if selected(pending.last(), rule, buffer) {
            rest
        } else {
            rest.push(pending.last())
        }
    }
}

/// The segments made by closing every open utterance at `now`.
pub open spec fn closed(open: Seq<OpenModel>, now: u64, labels: Seq<LabelModel>) -> Seq<
    SegmentModel,
> {
    Seq::new(open.len(), |i: int| closed_at(open[i], now, labels))
}

/// Index of the first open utterance of `user` at or after `from`; the
/// table's length when there is none.
pub open spec fn open_index(open: Seq<OpenModel>, user: Seq<char>, from: int) -> int
    decreases open.len() - from,
{
    if from < 0 || from >= open.len() {
        open.len() as int
    } else if open[from].user_id == user {
        from
    } else {
        open_index(open, user, from + 1)
    }
}

/// Index of the first pending utterance of `user` at or after `from`; the
/// table's length when there is none.
pub open spec fn pending_index(pending: Seq<PendingModel>, user: Seq<char>, from: int) -> int
    decreases pending.len() - from,
{
    if from < 0 || from >= pending.len() {
        pending.len() as int
    } else if pending[from].user_id == user {
        from
    } else {
        pending_index(pending, user, from + 1)
    }
}

/// The state after the pending utterances chosen by `rule` are finalized.
pub open spec fn flush(m: SessionModel, rule: FlushRule) -> SessionModel {
    SessionModel {
        segments: m.segments + flushed(m.pending, rule, m.merge_buffer_ms, m.labels),
        pending: kept(m.pending, rule, m.merge_buffer_ms),
        ..m
    }
}

/// The state after `user` starts speaking at `now`.
///
/// A start by a user who is already open is a duplicate and changes
/// nothing. Otherwise other users' pending utterances are finalized, and
/// the user's own pending utterance is reopened when it stopped within the
/// merge buffer, or finalized when it stopped earlier; then the user is
/// open.
pub open spec fn on_start(m: SessionModel, user: Seq<char>, now: u64) -> SessionModel {
    let f = flush(m, FlushRule::Others(user));
    if open_index(m.open, user, 0) < m.open.len() {
        m
    } else if f.pending.len() > 0 {
        let p = f.pending[0];
        if gap(now, p.stop_ms) <= f.merge_buffer_ms {
            SessionModel {
                pending: f.pending.drop_first(),
                open: f.open.push(OpenModel { user_id: user, start_ms: p.start_ms }),
                ..f
            }
        } else {
            SessionModel {
                segments: f.segments.push(finalized(p, f.labels)),
                pending: f.pending.drop_first(),
                open: f.open.push(OpenModel { user_id: user, start_ms: now }),
                ..f
            }
        }
    } else {
        SessionModel { open: f.open.push(OpenModel { user_id: user, start_ms: now }), ..f }
    }
}

/// The state after `user` stops speaking at `now`: an open utterance
/// becomes pending, a pending one has its stop time moved to `now`, and a
/// stop by an unknown user changes nothing.
pub open spec fn on_stop(m: SessionModel, user: Seq<char>, now: u64) -> SessionModel {
    let k = open_index(m.open, user, 0);
    if k < m.open.len() {
        SessionModel {
            open: m.open.remove(k),
            pending: m.pending.push(
                PendingModel { user_id: user, start_ms: m.open[k].start_ms, stop_ms: now },
            ),
            ..m
        }
    } else {
        let j = pending_index(m.pending, user, 0);
        if j < m.pending.len() {
            SessionModel {
                pending: m.pending.update(j, PendingModel { stop_ms: now, ..m.pending[j] }),
                ..m
            }
        } else {
            m
        }
    }
}

/// The state after a periodic flush at `now`.
pub open spec fn on_tick(m: SessionModel, now: u64) -> SessionModel {
    flush(m, FlushRule::Elapsed(now))
}

/// The state after the session is stopped at `now`: every pending
/// utterance is finalized, then every open one is closed at `now`.
pub open spec fn on_finish(m: SessionModel, now: u64) -> SessionModel {
    SessionModel {
        segments: m.segments + flushed(m.pending, FlushRule::Every, m.merge_buffer_ms, m.labels)
            + closed(m.open, now, m.labels),
        open: Seq::empty(),
        pending: Seq::empty(),
        ..m
    }
}

/// A session that has seen no event yet.
pub open spec fn fresh(merge_buffer_ms: u64, labels: Seq<LabelModel>) -> SessionModel {
    SessionModel {
        segments: Seq::empty(),
        open: Seq::empty(),
        pending: Seq::empty(),
        merge_buffer_ms: if merge_buffer_ms < 1 {
            1
        } else {
            merge_buffer_ms
        },
        labels,
    }
}

/// The tables' invariant: no user occurs twice in `open` or twice in
/// `pending`, none occurs in both, and the merge buffer is at least 1 ms.
pub open spec fn well_formed(m: SessionModel) -> bool {
    &&& m.merge_buffer_ms >= 1
    &&& forall|i: int, j: int|
        0 <= i < j < m.open.len() ==> #[trigger] m.open[i].user_id != #[trigger] m.open[j].user_id
    &&& forall|i: int, j: int|
        0 <= i < j < m.pending.len() ==> #[trigger] m.pending[i].user_id
            != #[trigger] m.pending[j].user_id
    &&& forall|i: int, j: int|
        0 <= i < m.open.len() && 0 <= j < m.pending.len() ==> #[trigger] m.open[i].user_id
            != #[trigger] m.pending[j].user_id
}

} // verus!
