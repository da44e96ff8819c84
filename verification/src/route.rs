use vstd::prelude::*;

use crate::error::{ApplicationError, ApplicationResult};
use crate::laws::{lemma_add_inserts_waypoint, lemma_move_replaces_waypoint, lemma_remove_drops_waypoint, waypoints_of};
use crate::operation::{
    add_templates, move_templates, recorded_pos, remove_templates, reversed, templates_of, Operation,
    OperationType, OperationView,
};
use crate::route_info::RouteInfo;
use crate::coordinate::Coordinate;
use crate::segment::{points_have_distance, same_frame, DrawingMode, Segment};
use crate::segment_list::{
    attached_distances, distances_fit, list_gain, steps_view, with_elevation_if_missing, SegmentList,
};
use crate::values::{Distance, Elevation};
use crate::text::owned;

verus! {

/// The contents of the operations `ops`, in order.
pub open spec fn ops_view(ops: Seq<Operation>) -> Seq<OperationView> {
    ops.map_values(|o: Operation| o@)
}

/// `info` with its count of applied edits set to `n`.
pub open spec fn with_op_num(info: RouteInfo, n: usize) -> RouteInfo {
    RouteInfo { op_num: n, ..info }
}

/// A route: its stored information, its edit history (of which the first
/// `info.op_num` edits are applied) and its current segments.
pub struct Route {
    pub info: RouteInfo,
    pub op_list: Vec<Operation>,
    pub seg_list: SegmentList,
}

impl Route {
    /// The route made of the given parts.
    pub fn new(info: RouteInfo, op_list: Vec<Operation>, seg_list: SegmentList) -> (r: Route)
        ensures
            r.info == info,
            r.op_list@ == op_list@,
            r.seg_list == seg_list,
    {
        Route { info, op_list, seg_list }
    }

    /// The stored information.
    pub fn info(&self) -> (i: &RouteInfo)
        ensures
            *i == self.info,
    {
        &self.info
    }

    /// The edit history.
    pub fn op_list(&self) -> (l: &Vec<Operation>)
        ensures
            l@ == self.op_list@,
    {
        &self.op_list
    }

    /// The current segments.
    pub fn seg_list(&self) -> (l: &SegmentList)
        ensures
            *l == self.seg_list,
    {
        &self.seg_list
    }

    /// The edit at index `pos` of the history; refused when there is none.
    pub fn get_operation(&self, pos: usize) -> (r: ApplicationResult<&Operation>)
        ensures
            r is Ok <==> pos < self.op_list@.len(),
            r matches Ok(op) ==> *op == self.op_list@[pos as int],
            r matches Err(e) ==> e is DomainError,
    {
        if pos < self.op_list.len() {
            Ok(&self.op_list[pos])
        } else {
            Err(ApplicationError::DomainError(owned("Index out of range for RouteEditor.op_list!")))
        }
    }

    /// Applies the next edit of the history (`reverse` false) or undoes the
    /// last applied one (`reverse` true).
    fn apply_operation(&mut self, reverse: bool) -> (r: ApplicationResult<()>)
        requires
            reverse ==> old(self).info.op_num > 0,
            !reverse && old(self).info.op_num < old(self).op_list@.len() ==> {
                let op = old(self).op_list@[old(self).info.op_num as int];
                op.pos + op.org_seg_templates@.len() <= old(self).seg_list.segments@.len()
            },
            reverse && old(self).info.op_num - 1 < old(self).op_list@.len() ==> {
                let op = old(self).op_list@[old(self).info.op_num - 1];
                op.pos + op.new_seg_templates@.len() <= old(self).seg_list.segments@.len()
            },
        ensures
            final(self).op_list@ == old(self).op_list@,
            !reverse ==> {
                let n = old(self).info.op_num;
                &&& (r is Ok <==> n < old(self).op_list@.len())
                &&& r is Ok ==> final(self).info == with_op_num(old(self).info, (n + 1) as usize)
                    && final(self).seg_list.replaced_by(old(self).seg_list, old(self).op_list@[n as int]@)
                &&& r is Err ==> final(self).info == old(self).info && final(self).seg_list == old(self).seg_list
            },
            reverse ==> {
                let n = old(self).info.op_num;
                &&& final(self).info == with_op_num(old(self).info, (n - 1) as usize)
                &&& (r is Ok <==> n - 1 < old(self).op_list@.len())
                &&& r is Ok ==> final(self).seg_list.replaced_by(
                    old(self).seg_list,
                    reversed(old(self).op_list@[n - 1]@),
                )
                &&& r is Err ==> final(self).seg_list == old(self).seg_list
            },
            r matches Err(e) ==> e is DomainError,
    {
        let mut op;
        if reverse {
            self.info.op_num = self.info.op_num - 1;
            op = self.get_operation(self.info.op_num)?.clone();
            op.reverse();
        } else {
            let len = self.op_list.len();
            op = self.get_operation(self.info.op_num)?.clone();
            assert(self.info.op_num < len);
            self.info.op_num = self.info.op_num + 1;
        }
        op.apply(&mut self.seg_list)?;
        Ok(())
    }

    /// Records `op` as the next edit, dropping every undone edit after the
    /// applied ones, and applies it. Refused, after the history is changed,
    /// when the count of applied edits exceeds the history.
    pub fn push_operation(&mut self, op: Operation) -> (r: ApplicationResult<()>)
        requires
            old(self).info.op_num <= old(self).op_list@.len() ==> op.pos + op.org_seg_templates@.len()
                <= old(self).seg_list.segments@.len(),
        ensures
            ({
                let n = old(self).info.op_num;
                let l = old(self).op_list@;
                let kept = if n <= l.len() { l.subrange(0, n as int) } else { l };
                &&& final(self).op_list@ == kept.push(op)
                &&& (r is Ok <==> n <= l.len())
                &&& r is Ok ==> final(self).info == with_op_num(old(self).info, (n + 1) as usize)
                    && final(self).seg_list.replaced_by(old(self).seg_list, op@)
                &&& r is Err ==> final(self).info == old(self).info && final(self).seg_list == old(self).seg_list
            }),
            r matches Err(e) ==> e is DomainError,
    {
        let n = self.info.op_num;
        self.op_list.truncate(n);
        self.op_list.push(op);
        self.apply_operation(false)
    }

    /// Applies again the first undone edit; refused when there is none (see
    /// [`redo_outcome`]).
    pub fn redo_operation(&mut self) -> (r: ApplicationResult<()>)
        requires
            old(self).info.op_num < old(self).op_list@.len() ==> {
                let op = old(self).op_list@[old(self).info.op_num as int];
                op.pos + op.org_seg_templates@.len() <= old(self).seg_list.segments@.len()
            },
        ensures
            redo_outcome(*old(self), *final(self), r),
    {
        if self.info.op_num < self.op_list.len() {
            self.apply_operation(false)
        } else {
            Err(ApplicationError::InvalidOperation("No more operations to redo."))
        }
    }

    /// Undoes the last applied edit (see [`undo_outcome`]).
    pub fn undo_operation(&mut self) -> (r: ApplicationResult<()>)
        requires
            0 < old(self).info.op_num <= old(self).op_list@.len() ==> {
                let op = old(self).op_list@[old(self).info.op_num - 1];
                op.pos + op.new_seg_templates@.len() <= old(self).seg_list.segments@.len()
            },
        ensures
            undo_outcome(*old(self), *final(self), r),
    {
        if self.info.op_num > 0 {
            self.apply_operation(true)
        } else {
            Err(ApplicationError::InvalidOperation("No more operations to undo."))
        }
    }
}

/// What redoing makes of the route `old` (giving `new` and the answer `r`):
/// the history is kept; when an undone edit is left, the first one is
/// applied again and one more edit counted; else it is refused with
/// "No more operations to redo." and nothing changes.
pub open spec fn redo_outcome(old: Route, new: Route, r: ApplicationResult<()>) -> bool {
    let n = old.info.op_num;
    &&& new.op_list@ == old.op_list@
    &&& (r is Ok <==> n < old.op_list@.len())
    &&& r is Ok ==> new.info == with_op_num(old.info, (n + 1) as usize) && new.seg_list.replaced_by(
        old.seg_list,
        old.op_list@[n as int]@,
    )
    &&& r is Err ==> new.info == old.info && new.seg_list == old.seg_list
    &&& r is Err ==> (r matches Err(ApplicationError::InvalidOperation(m)) && m@ == "No more operations to redo."@)
}

/// What undoing makes of the route `old` (giving `new` and the answer `r`):
/// the history is kept; with no edit applied it is refused with "No more
/// operations to undo." and nothing changes; else one edit less is counted
/// and the reverse of the last applied edit is applied, refused (segments
/// unchanged) when more edits were counted than the history holds.
pub open spec fn undo_outcome(old: Route, new: Route, r: ApplicationResult<()>) -> bool {
    let n = old.info.op_num;
    &&& new.op_list@ == old.op_list@
    &&& (r is Ok <==> 0 < n <= old.op_list@.len())
    &&& n == 0 ==> new.info == old.info && new.seg_list == old.seg_list && (r matches Err(
        ApplicationError::InvalidOperation(m),
    ) && m@ == "No more operations to undo."@)
    &&& n > 0 ==> new.info == with_op_num(old.info, (n - 1) as usize)
    &&& n > old.op_list@.len() ==> new.seg_list == old.seg_list && (r matches Err(e) && e is DomainError)
    &&& r is Ok ==> new.seg_list.replaced_by(old.seg_list, reversed(old.op_list@[n - 1]@))
}

impl Route {
    /// Total ascent and descent of the route (see [`SegmentList::calc_elevation_gain`]).
    pub fn calc_elevation_gain(&self) -> (r: (Elevation, Elevation))
        requires
            list_gain(self.seg_list.segments@).0 <= i32::MAX,
            list_gain(self.seg_list.segments@).1 <= i32::MAX,
        ensures
            r.0@ == list_gain(self.seg_list.segments@).0,
            r.1@ == list_gain(self.seg_list.segments@).1,
    {
        self.seg_list.calc_elevation_gain()
    }

    /// Gives every point its distance from the start of the route (see
    /// [`SegmentList::attach_distance_from_start`]); the rest is unchanged.
    pub fn attach_distance_from_start(&mut self, steps: &Vec<Vec<Distance>>)
        requires
            steps@.len() == old(self).seg_list.segments@.len(),
            forall|i: int| 0 <= i < old(self).seg_list.segments@.len() ==> (#[trigger] old(self).seg_list.segments@[i]).points@.len() >= 1,
            forall|i: int| 0 <= i < old(self).seg_list.segments@.len() && !points_have_distance(old(self).seg_list.segments@[i].points@)
                ==> (#[trigger] steps@[i])@.len() + 1 == old(self).seg_list.segments@[i].points@.len(),
            distances_fit(old(self).seg_list.segments@, steps_view(steps@)),
        ensures
            final(self).info == old(self).info,
            final(self).op_list@ == old(self).op_list@,
            final(self).seg_list.segments@.len() == old(self).seg_list.segments@.len(),
            forall|i: int| 0 <= i < old(self).seg_list.segments@.len() ==> {
                &&& same_frame(#[trigger] final(self).seg_list.segments@[i], old(self).seg_list.segments@[i])
                &&& final(self).seg_list.segments@[i].points@ == attached_distances(old(self).seg_list.segments@, steps_view(steps@), i)
            },
    {
        self.seg_list.attach_distance_from_start(steps)
    }

    /// Gives every point without an elevation the looked-up one (see
    /// [`SegmentList::attach_elevations`]); the rest is unchanged.
    pub fn attach_elevations(&mut self, elevations: &Vec<Vec<Option<Elevation>>>)
        requires
            elevations@.len() == old(self).seg_list.segments@.len(),
            forall|i: int| 0 <= i < elevations@.len() ==> (#[trigger] elevations@[i])@.len() == old(self).seg_list.segments@[i].points@.len(),
        ensures
            final(self).info == old(self).info,
            final(self).op_list@ == old(self).op_list@,
            final(self).seg_list.segments@.len() == old(self).seg_list.segments@.len(),
            forall|i: int| 0 <= i < old(self).seg_list.segments@.len() ==> {
                &&& same_frame(#[trigger] final(self).seg_list.segments@[i], old(self).seg_list.segments@[i])
                &&& final(self).seg_list.segments@[i].points@.len() == old(self).seg_list.segments@[i].points@.len()
                &&& forall|j: int| 0 <= j < old(self).seg_list.segments@[i].points@.len() ==>
                    #[trigger] final(self).seg_list.segments@[i].points@[j] == with_elevation_if_missing(
                        old(self).seg_list.segments@[i].points@[j], elevations@[i]@[j])
            },
    {
        self.seg_list.attach_elevations(elevations)
    }

    /// The length of the route (see [`SegmentList::get_total_distance`]).
    pub fn get_total_distance(&self) -> (r: ApplicationResult<Distance>)
        ensures
            ({
                let segs = self.seg_list.segments@;
                if segs.len() == 0 {
                    r matches Ok(d) && d@ == 0
                } else {
                    let pts = segs.last().points@;
                    &&& (r is Ok <==> pts.len() > 0 && pts.last().distance_from_start is Some)
                    &&& r matches Ok(d) ==> Some(d) == pts.last().distance_from_start
                    &&& r matches Err(e) ==> e is DomainError
                }
            }),
    {
        self.seg_list.get_total_distance()
    }

    /// The waypoints of the route.
    pub fn gather_waypoints(&self) -> (r: Vec<Coordinate>)
        ensures
            r@ == self.seg_list.segments@.map_values(|s: Segment| s.start),
    {
        self.seg_list.gather_waypoints()
    }

    /// The segments between waypoints (all but the final one-point segment).
    pub fn into_segments_in_between(self) -> (r: Vec<Segment>)
        ensures
            self.seg_list.segments@.len() == 0 ==> r@.len() == 0,
            self.seg_list.segments@.len() > 0 ==> r@ == self.seg_list.segments@.drop_last(),
    {
        self.seg_list.into_segments_in_between()
    }

    /// The route's parts, taken apart.
    pub fn into_parts(self) -> (r: (RouteInfo, Vec<Operation>, SegmentList))
        ensures
            r.0 == self.info,
            r.1@ == self.op_list@,
            r.2 == self.seg_list,
    {
        (self.info, self.op_list, self.seg_list)
    }
}


/// What adding the waypoint `coord` at index `pos` by `mode` makes of the
/// route `old` (giving `new` and the answer `r`): refused, nothing changed,
/// when `pos` is past the last waypoint; refused when more edits are counted
/// as applied than the history holds; else the applied edits are kept, the
/// undone ones dropped, the new edit (of kind `Add`, at the recorded
/// position, with the templates of [`add_templates`]) put last and applied,
/// and one more edit counted.
pub open spec fn add_point_outcome(
    old: Route,
    new: Route,
    pos: usize,
    coord: Coordinate,
    mode: DrawingMode,
    r: ApplicationResult<()>,
) -> bool {
    let t = templates_of(old.seg_list.segments@);
    &&& pos > old.seg_list.segments@.len() ==> new.info == old.info && new.op_list@ == old.op_list@
        && new.seg_list == old.seg_list
    &&& (r is Ok <==> (pos <= old.seg_list.segments@.len() && old.info.op_num <= old.op_list@.len()))
    &&& r matches Err(e) ==> e is DomainError
    &&& r is Ok ==> {
        let op = new.op_list@.last()@;
        &&& new.info == with_op_num(old.info, (old.info.op_num + 1) as usize)
        &&& new.op_list@ == old.op_list@.subrange(0, old.info.op_num as int).push(new.op_list@.last())
        &&& op.op_type == OperationType::Add
        &&& op.pos == recorded_pos(pos as int)
        &&& (op.org, op.new) == add_templates(pos as int, coord, t, mode)
        &&& new.seg_list.replaced_by(old.seg_list, op)
        &&& waypoints_of(templates_of(new.seg_list.segments@)) == waypoints_of(t).insert(pos as int, coord)
    }
}

/// After a waypoint is added, every segment that the edit put into the route
/// (the one or two from the waypoint before it on) is drawn by the mode asked for.
pub proof fn added_segments_have_requested_mode(old: Route, new: Route, pos: usize, coord: Coordinate, mode: DrawingMode)
    requires
        add_point_outcome(old, new, pos, coord, mode, Ok::<(), ApplicationError>(())),
    ensures
        forall|i: int|
            recorded_pos(pos as int) <= i < recorded_pos(pos as int) + (if pos > 0 { 2int } else { 1int })
                ==> (#[trigger] new.seg_list.segments@[i]).mode == mode,
{
    let t = templates_of(old.seg_list.segments@);
    crate::operation::add_draws_new_segments_in_mode(pos as int, coord, t, mode);
    let op = new.op_list@.last()@;
    assert forall|i: int|
        recorded_pos(pos as int) <= i < recorded_pos(pos as int) + (if pos > 0 { 2int } else { 1int }) implies (
        #[trigger] new.seg_list.segments@[i]).mode == mode by {
        assert(crate::operation::template_of(new.seg_list.segments@[i]) == op.new[i - op.pos]);
        assert(op.new[i - op.pos].mode == mode);
    }
}

/// What removing the waypoint at index `pos` by `mode` makes of the route
/// `old` (see [`add_point_outcome`]; the edit is of kind `Remove`, with the
/// templates of [`remove_templates`]).
pub open spec fn remove_point_outcome(old: Route, new: Route, pos: usize, mode: DrawingMode, r: ApplicationResult<()>) -> bool {
    let t = templates_of(old.seg_list.segments@);
    &&& pos >= old.seg_list.segments@.len() ==> new.info == old.info && new.op_list@ == old.op_list@
        && new.seg_list == old.seg_list
    &&& (r is Ok <==> (pos < old.seg_list.segments@.len() && old.info.op_num <= old.op_list@.len()))
    &&& r matches Err(e) ==> e is DomainError
    &&& r is Ok ==> {
        let op = new.op_list@.last()@;
        &&& new.info == with_op_num(old.info, (old.info.op_num + 1) as usize)
        &&& new.op_list@ == old.op_list@.subrange(0, old.info.op_num as int).push(new.op_list@.last())
        &&& op.op_type == OperationType::Remove
        &&& op.pos == recorded_pos(pos as int)
        &&& (op.org, op.new) == remove_templates(pos as int, t, mode)
        &&& new.seg_list.replaced_by(old.seg_list, op)
        &&& waypoints_of(templates_of(new.seg_list.segments@)) == waypoints_of(t).remove(pos as int)
    }
}

/// What moving the waypoint at index `pos` to `coord` by `mode` makes of the
/// route `old` (see [`add_point_outcome`]; the edit is of kind `Move`, with
/// the templates of [`move_templates`]).
pub open spec fn move_point_outcome(
    old: Route,
    new: Route,
    pos: usize,
    coord: Coordinate,
    mode: DrawingMode,
    r: ApplicationResult<()>,
) -> bool {
    let t = templates_of(old.seg_list.segments@);
    &&& pos >= old.seg_list.segments@.len() ==> new.info == old.info && new.op_list@ == old.op_list@
        && new.seg_list == old.seg_list
    &&& (r is Ok <==> (pos < old.seg_list.segments@.len() && old.info.op_num <= old.op_list@.len()))
    &&& r matches Err(e) ==> e is DomainError
    &&& r is Ok ==> {
        let op = new.op_list@.last()@;
        &&& new.info == with_op_num(old.info, (old.info.op_num + 1) as usize)
        &&& new.op_list@ == old.op_list@.subrange(0, old.info.op_num as int).push(new.op_list@.last())
        &&& op.op_type == OperationType::Move
        &&& op.pos == recorded_pos(pos as int)
        &&& (op.org, op.new) == move_templates(pos as int, coord, t, mode)
        &&& new.seg_list.replaced_by(old.seg_list, op)
        &&& waypoints_of(templates_of(new.seg_list.segments@)) == waypoints_of(t).update(pos as int, coord)
    }
}

impl Route {
    /// Adds the waypoint `coord` at waypoint index `pos`, drawing the new
    /// segments by `mode`, as a new edit of the history (see
    /// [`add_point_outcome`]).
    pub fn add_point(&mut self, pos: usize, coord: Coordinate, mode: DrawingMode) -> (r: ApplicationResult<()>)
        ensures
            add_point_outcome(*old(self), *final(self), pos, coord, mode, r),
    {
        let op = Operation::new_add(pos, coord, &self.seg_list, mode)?;
        let ghost opv = op@;
        let ghost t = templates_of(self.seg_list.segments@);
        let r = self.push_operation(op);
        proof {
            if r is Ok {
                lemma_add_inserts_waypoint(pos as int, coord, t, mode, opv);
            }
        }
        r
    }

    /// Removes the waypoint at index `pos`, redrawing the joined segment by
    /// `mode`, as a new edit of the history (see [`remove_point_outcome`]).
    pub fn remove_point(&mut self, pos: usize, mode: DrawingMode) -> (r: ApplicationResult<()>)
        ensures
            remove_point_outcome(*old(self), *final(self), pos, mode, r),
    {
        let op = Operation::new_remove(pos, &self.seg_list, mode)?;
        let ghost opv = op@;
        let ghost t = templates_of(self.seg_list.segments@);
        let r = self.push_operation(op);
        proof {
            if r is Ok {
                lemma_remove_drops_waypoint(pos as int, t, mode, opv);
            }
        }
        r
    }

    /// Moves the waypoint at index `pos` to `coord`, redrawing its segments by
    /// `mode`, as a new edit of the history (see [`move_point_outcome`]).
    pub fn move_point(&mut self, pos: usize, coord: Coordinate, mode: DrawingMode) -> (r: ApplicationResult<()>)
        ensures
            move_point_outcome(*old(self), *final(self), pos, coord, mode, r),
    {
        let op = Operation::new_move(pos, coord, &self.seg_list, mode)?;
        let ghost opv = op@;
        let ghost t = templates_of(self.seg_list.segments@);
        let r = self.push_operation(op);
        proof {
            if r is Ok {
                lemma_move_replaces_waypoint(pos as int, coord, t, mode, opv);
            }
        }
        r
    }

    /// The route with its information reset to no applied edits, and no edits
    /// nor segments.
    pub fn cleared(info: RouteInfo) -> (r: Route)
        ensures
            r.info == with_op_num(info, 0),
            r.op_list@.len() == 0,
            r.seg_list.segments@.len() == 0,
    {
        let mut info = info;
        info.clear_route();
        Route { info, op_list: Vec::new(), seg_list: SegmentList::from_segments(Vec::new()) }
    }
}

impl Route {
    /// The place in the stored history at which the last edit is to be
    /// written when the route is saved: the last index of the history when
    /// every edit of it is applied and there is one, else none (nothing new
    /// to write).
    pub fn operation_to_store(&self) -> (r: Option<usize>)
        ensures
            r is Some <==> (self.info.op_num == self.op_list@.len() && self.op_list@.len() > 0),
            r matches Some(i) ==> i == self.op_list@.len() - 1,
    {
        let n = self.op_list.len();
        if self.info.op_num == n && n > 0 {
            Some(n - 1)
        } else {
            None
        }
    }
}

} // verus!
