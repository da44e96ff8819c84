//! Properties of route editing that span several operations.
use vstd::prelude::*;

use crate::coordinate::Coordinate;
use crate::operation::{
    add_templates, apply_templates, applies_to, move_templates, recorded_pos, remove_templates,
    reversed, OperationView, SegmentTemplate,
};
use crate::segment::DrawingMode;

verus! {

/// The waypoints of segments drawn as `t`: where each segment starts.
pub open spec fn waypoints_of(t: Seq<SegmentTemplate>) -> Seq<Coordinate> {
    t.map_values(|s: SegmentTemplate| s.start)
}

/// Whether segments drawn as `t` form one line: each ends where the next
/// starts, and the last one is the single final waypoint.
pub open spec fn connected(t: Seq<SegmentTemplate>) -> bool {
    &&& forall|i: int| 0 <= i < t.len() - 1 ==> #[trigger] t[i].goal == t[i + 1].start
    &&& t.len() > 0 ==> t.last().goal == t.last().start
}

/// Undoing an edit twice gives the edit back.
pub proof fn lemma_reverse_involution(op: OperationView)
    ensures
        reversed(reversed(op)) == op,
{
}

/// Undo restores: after an edit is applied to segments it fits, its reverse
/// fits the result, and applying the reverse gives the segments back.
pub proof fn lemma_undo_restores(op: OperationView, t: Seq<SegmentTemplate>)
    requires
        applies_to(op, t),
    ensures
        applies_to(reversed(op), apply_templates(op, t)),
        apply_templates(reversed(op), apply_templates(op, t)) == t,
{
    let a = apply_templates(op, t);
    let r = reversed(op);
    assert(a.subrange(r.pos, r.pos + r.org.len()) =~= op.new);
    let b = apply_templates(r, a);
    assert(b =~= t);
}

/// Redo restores: after the reverse of an edit is applied to segments it
/// fits, applying the edit again gives the segments back.
pub proof fn lemma_redo_restores(op: OperationView, t: Seq<SegmentTemplate>)
    requires
        applies_to(reversed(op), t),
    ensures
        applies_to(op, apply_templates(reversed(op), t)),
        apply_templates(op, apply_templates(reversed(op), t)) == t,
{
    lemma_undo_restores(reversed(op), t);
    lemma_reverse_involution(op);
}

/// Adding the waypoint `coord` at index `pos` puts it among the waypoints at `pos`.
pub proof fn lemma_add_inserts_waypoint(
    pos: int,
    coord: Coordinate,
    t: Seq<SegmentTemplate>,
    mode: DrawingMode,
    op: OperationView,
)
    requires
        0 <= pos <= t.len(),
        op.pos == recorded_pos(pos),
        (op.org, op.new) == add_templates(pos, coord, t, mode),
    ensures
        waypoints_of(apply_templates(op, t)) == waypoints_of(t).insert(pos, coord),
{
    let a = apply_templates(op, t);
    assert(waypoints_of(a) =~= waypoints_of(t).insert(pos, coord));
}

/// Removing the waypoint at index `pos` takes it out of the waypoints.
pub proof fn lemma_remove_drops_waypoint(
    pos: int,
    t: Seq<SegmentTemplate>,
    mode: DrawingMode,
    op: OperationView,
)
    requires
        0 <= pos < t.len(),
        op.pos == recorded_pos(pos),
        (op.org, op.new) == remove_templates(pos, t, mode),
    ensures
        waypoints_of(apply_templates(op, t)) == waypoints_of(t).remove(pos),
{
    let a = apply_templates(op, t);
    assert(waypoints_of(a) =~= waypoints_of(t).remove(pos));
}

/// Moving the waypoint at index `pos` to `coord` replaces it by `coord`.
pub proof fn lemma_move_replaces_waypoint(
    pos: int,
    coord: Coordinate,
    t: Seq<SegmentTemplate>,
    mode: DrawingMode,
    op: OperationView,
)
    requires
        0 <= pos < t.len(),
        op.pos == recorded_pos(pos),
        (op.org, op.new) == move_templates(pos, coord, t, mode),
    ensures
        waypoints_of(apply_templates(op, t)) == waypoints_of(t).update(pos, coord),
{
    let a = apply_templates(op, t);
    assert(waypoints_of(a) =~= waypoints_of(t).update(pos, coord));
}

/// Adding a waypoint keeps connected segments connected.
pub proof fn lemma_add_keeps_connected(
    pos: int,
    coord: Coordinate,
    t: Seq<SegmentTemplate>,
    mode: DrawingMode,
    op: OperationView,
)
    requires
        connected(t),
        0 <= pos <= t.len(),
        op.pos == recorded_pos(pos),
        (op.org, op.new) == add_templates(pos, coord, t, mode),
    ensures
        connected(apply_templates(op, t)),
{
    let a = apply_templates(op, t);
    assert(a.len() == t.len() + 1);
    assert forall|j: int| 0 <= j < a.len() implies #[trigger] a[j] == (if j < pos - 1 {
        t[j]
    } else if j == pos - 1 {
        op.new[0]
    } else if j == pos {
        op.new.last()
    } else {
        t[j - 1]
    }) by {}
    assert forall|i: int| 0 <= i < a.len() - 1 implies #[trigger] a[i].goal == a[i + 1].start by {
        assert(a[i] == a[i]);
        assert(a[i + 1] == a[i + 1]);
        if i + 1 < pos - 1 {
            assert(t[i].goal == t[i + 1].start);
        } else if i + 1 == pos - 1 {
            assert(t[i].goal == t[i + 1].start);
        } else if i > pos {
            assert(t[i - 1].goal == t[i].start);
        }
    }
    if pos == t.len() && t.len() > 0 {
        assert(a.last() == a[a.len() - 1]);
    }
}

/// Moving a waypoint keeps connected segments connected.
pub proof fn lemma_move_keeps_connected(
    pos: int,
    coord: Coordinate,
    t: Seq<SegmentTemplate>,
    mode: DrawingMode,
    op: OperationView,
)
    requires
        connected(t),
        0 <= pos < t.len(),
        op.pos == recorded_pos(pos),
        (op.org, op.new) == move_templates(pos, coord, t, mode),
    ensures
        connected(apply_templates(op, t)),
{
    let a = apply_templates(op, t);
    assert(a.len() == t.len());
    assert forall|j: int| 0 <= j < a.len() implies #[trigger] a[j] == (if j < pos - 1 {
        t[j]
    } else if j == pos - 1 {
        op.new[0]
    } else if j == pos {
        op.new.last()
    } else {
        t[j]
    }) by {}
    assert forall|i: int| 0 <= i < a.len() - 1 implies #[trigger] a[i].goal == a[i + 1].start by {
        assert(a[i] == a[i]);
        assert(a[i + 1] == a[i + 1]);
        if i + 1 < pos {
            assert(t[i].goal == t[i + 1].start);
        } else if i > pos {
            assert(t[i].goal == t[i + 1].start);
        }
    }
    assert(a.last() == a[a.len() - 1]);
}

/// Removing a waypoint other than the last of several keeps connected
/// segments connected.
pub proof fn lemma_remove_keeps_connected(
    pos: int,
    t: Seq<SegmentTemplate>,
    mode: DrawingMode,
    op: OperationView,
)
    requires
        connected(t),
        0 <= pos < t.len(),
        pos == 0 || pos < t.len() - 1,
        op.pos == recorded_pos(pos),
        (op.org, op.new) == remove_templates(pos, t, mode),
    ensures
        connected(apply_templates(op, t)),
{
    let a = apply_templates(op, t);
    assert(a.len() == t.len() - 1);
    assert forall|j: int| 0 <= j < a.len() implies #[trigger] a[j] == (if j < pos - 1 {
        t[j]
    } else if j == pos - 1 {
        op.new[0]
    } else {
        t[j + 1]
    }) by {}
    assert forall|i: int| 0 <= i < a.len() - 1 implies #[trigger] a[i].goal == a[i + 1].start by {
        assert(a[i] == a[i]);
        assert(a[i + 1] == a[i + 1]);
        if i + 1 < pos - 1 {
            assert(t[i].goal == t[i + 1].start);
        } else if i + 1 == pos - 1 {
            assert(t[i].goal == t[i + 1].start);
        } else if i == pos - 1 {
            assert(t[pos].goal == t[pos + 1].start);
        } else {
            assert(t[i + 1].goal == t[i + 2].start);
        }
    }
    if a.len() > 0 {
        assert(a.last() == a[a.len() - 1]);
        assert(t.last() == t[t.len() - 1]);
    }
}

/// The segments reached from `base` by applying the first `k` edits of `ops`.
pub open spec fn replay(ops: Seq<OperationView>, k: int, base: Seq<SegmentTemplate>) -> Seq<SegmentTemplate>
    decreases k,
{
    if k <= 0 {
        base
    } else {
        apply_templates(ops[k - 1], replay(ops, k - 1, base))
    }
}

/// Whether edits `ops`, starting from `base`, each fit the segments they meet,
/// and applying the first `n` of them gives `t`.
pub open spec fn history_from(ops: Seq<OperationView>, n: int, t: Seq<SegmentTemplate>, base: Seq<SegmentTemplate>) -> bool {
    &&& 0 <= n <= ops.len()
    &&& forall|k: int| 0 <= k < ops.len() ==> applies_to(#[trigger] ops[k], replay(ops, k, base))
    &&& replay(ops, n, base) == t
}

/// Whether the edit history `ops`, with `n` of them applied, is consistent
/// with the current segments `t`.
pub open spec fn history_consistent(ops: Seq<OperationView>, n: int, t: Seq<SegmentTemplate>) -> bool {
    exists|base: Seq<SegmentTemplate>| history_from(ops, n, t, base)
}

proof fn lemma_replay_prefix(ops: Seq<OperationView>, more: Seq<OperationView>, k: int, base: Seq<SegmentTemplate>)
    requires
        0 <= k <= ops.len(),
        ops.len() <= more.len(),
        forall|i: int| 0 <= i < ops.len() ==> more[i] == ops[i],
    ensures
        replay(more, k, base) == replay(ops, k, base),
    decreases k,
{
    if k > 0 {
        lemma_replay_prefix(ops, more, k - 1, base);
    }
}

/// A consistent history lets the next undone edit be redone: it fits the
/// current segments.
pub proof fn lemma_consistent_redo_fits(ops: Seq<OperationView>, n: int, t: Seq<SegmentTemplate>)
    requires
        history_consistent(ops, n, t),
        n < ops.len(),
    ensures
        applies_to(ops[n], t),
{
    let base = choose|base: Seq<SegmentTemplate>| history_from(ops, n, t, base);
    assert(applies_to(ops[n], replay(ops, n, base)));
}

/// A consistent history lets the last applied edit be undone: its reverse
/// fits the current segments.
pub proof fn lemma_consistent_undo_fits(ops: Seq<OperationView>, n: int, t: Seq<SegmentTemplate>)
    requires
        history_consistent(ops, n, t),
        0 < n,
    ensures
        applies_to(reversed(ops[n - 1]), t),
{
    let base = choose|base: Seq<SegmentTemplate>| history_from(ops, n, t, base);
    assert(applies_to(ops[n - 1], replay(ops, n - 1, base)));
    lemma_undo_restores(ops[n - 1], replay(ops, n - 1, base));
}

/// Pushing an edit that fits the current segments onto a consistent history
/// (dropping the undone edits) keeps it consistent.
pub proof fn lemma_push_keeps_consistent(
    ops: Seq<OperationView>,
    n: int,
    t: Seq<SegmentTemplate>,
    op: OperationView,
)
    requires
        history_consistent(ops, n, t),
        applies_to(op, t),
    ensures
        history_consistent(ops.subrange(0, n).push(op), n + 1, apply_templates(op, t)),
{
    let base = choose|base: Seq<SegmentTemplate>| history_from(ops, n, t, base);
    let ops2 = ops.subrange(0, n).push(op);
    let pre = ops.subrange(0, n);
    assert forall|k: int| 0 <= k <= n implies replay(ops2, k, base) == replay(ops, k, base) by {
        lemma_replay_prefix(pre, ops2, k, base);
        lemma_replay_prefix(pre, ops, k, base);
    }
    assert forall|k: int| 0 <= k < ops2.len() implies applies_to(#[trigger] ops2[k], replay(ops2, k, base)) by {
        if k < n {
            assert(ops2[k] == ops[k]);
        } else {
            assert(ops2[k] == op);
        }
    }
    assert(replay(ops2, n + 1, base) == apply_templates(op, t));
    assert(history_from(ops2, n + 1, apply_templates(op, t), base));
}

/// Undoing the last applied edit of a consistent history keeps it consistent.
pub proof fn lemma_undo_keeps_consistent(ops: Seq<OperationView>, n: int, t: Seq<SegmentTemplate>)
    requires
        history_consistent(ops, n, t),
        0 < n,
    ensures
        history_consistent(ops, n - 1, apply_templates(reversed(ops[n - 1]), t)),
{
    let base = choose|base: Seq<SegmentTemplate>| history_from(ops, n, t, base);
    assert(applies_to(ops[n - 1], replay(ops, n - 1, base)));
    lemma_undo_restores(ops[n - 1], replay(ops, n - 1, base));
    assert(history_from(ops, n - 1, apply_templates(reversed(ops[n - 1]), t), base));
}

/// Redoing the next undone edit of a consistent history keeps it consistent.
pub proof fn lemma_redo_keeps_consistent(ops: Seq<OperationView>, n: int, t: Seq<SegmentTemplate>)
    requires
        history_consistent(ops, n, t),
        n < ops.len(),
    ensures
        history_consistent(ops, n + 1, apply_templates(ops[n], t)),
{
    let base = choose|base: Seq<SegmentTemplate>| history_from(ops, n, t, base);
    assert(applies_to(ops[n], replay(ops, n, base)));
    assert(history_from(ops, n + 1, apply_templates(ops[n], t), base));
}

} // verus!
