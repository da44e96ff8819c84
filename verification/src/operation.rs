use vstd::prelude::*;

use crate::coordinate::Coordinate;
use crate::error::{ApplicationError, ApplicationResult};
use crate::segment::{DrawingMode, Segment};
use crate::segment_list::SegmentList;
use crate::text::{decimal, owned, push_decimal, str_equals};
use crate::types::NanoId;

verus! {

/// The kind of an edit operation on a route.
#[derive(Clone, Copy, Debug, PartialEq, Eq, Structural)]
pub enum OperationType {
    Add,
    Remove,
    Move,
}

/// The kind of edit that undoes an edit of kind `t`.
pub open spec fn reverse_type(t: OperationType) -> OperationType {
    match t {
        OperationType::Add => OperationType::Remove,
        OperationType::Remove => OperationType::Add,
        OperationType::Move => OperationType::Move,
    }
}

/// The code that an operation kind is stored under.
pub open spec fn operation_type_code(t: OperationType) -> Seq<char> {
    match t {
        OperationType::Add => "ad"@,
        OperationType::Remove => "rm"@,
        OperationType::Move => "mv"@,
    }
}

/// The operation kind stored under `code`, if any.
pub open spec fn parse_operation_type(code: Seq<char>) -> Option<OperationType> {
    if code == "ad"@ {
        Some(OperationType::Add)
    } else if code == "rm"@ {
        Some(OperationType::Remove)
    } else if code == "mv"@ {
        Some(OperationType::Move)
    } else {
        None
    }
}

impl OperationType {
    /// The kind of edit that undoes this one: adding and removing swap, moving stays.
    pub fn reverse(&self) -> (r: OperationType)
        ensures
            r == reverse_type(*self),
    {
        match *self {
            OperationType::Add => OperationType::Remove,
            OperationType::Remove => OperationType::Add,
            OperationType::Move => OperationType::Move,
        }
    }

    /// The stored code: `ad`, `rm` or `mv`.
    pub fn as_str(&self) -> (s: &'static str)
        ensures
            s@ == operation_type_code(*self),
    {
        match self {
            OperationType::Add => "ad",
            OperationType::Remove => "rm",
            OperationType::Move => "mv",
        }
    }

    /// The kind stored under `code`, if any.
    pub fn from_str(code: &str) -> (r: Option<OperationType>)
        ensures
            r == parse_operation_type(code@),
    {
        if str_equals(code, "ad") {
            Some(OperationType::Add)
        } else if str_equals(code, "rm") {
            Some(OperationType::Remove)
        } else if str_equals(code, "mv") {
            Some(OperationType::Move)
        } else {
            None
        }
    }
}

/// What an operation records of a segment: its ends and drawing mode.
#[derive(Clone, Copy, Debug, PartialEq, Eq, Structural)]
pub struct SegmentTemplate {
    pub start: Coordinate,
    pub goal: Coordinate,
    pub mode: DrawingMode,
}

/// The template of segment `s`.
pub open spec fn template_of(s: Segment) -> SegmentTemplate {
    SegmentTemplate { start: s.start, goal: s.goal, mode: s.mode }
}

/// The templates of the segments `segs`, in order.
pub open spec fn templates_of(segs: Seq<Segment>) -> Seq<SegmentTemplate> {
    segs.map_values(|s: Segment| template_of(s))
}

impl SegmentTemplate {
    /// The template from `start` to `goal` drawn by `mode`.
    pub fn new(start: Coordinate, goal: Coordinate, mode: DrawingMode) -> (t: SegmentTemplate)
        ensures
            t == (SegmentTemplate { start, goal, mode }),
    {
        SegmentTemplate { start, goal, mode }
    }

    /// The template of `segment`.
    pub fn from_segment(segment: &Segment) -> (t: SegmentTemplate)
        ensures
            t == template_of(*segment),
    {
        SegmentTemplate { start: segment.start, goal: segment.goal, mode: segment.mode }
    }

    /// An empty segment with a fresh id, drawn as the template says.
    pub fn to_segment(&self) -> (s: Segment)
        ensures
            template_of(s) == *self,
            s.points@.len() == 0,
    {
        Segment::new_empty(self.start, self.goal, self.mode)
    }
}

/// Marks the ids of operations.
pub struct OperationMarker;

/// Identifier of an operation.
pub type OperationId = NanoId<OperationMarker, 21>;

/// An edit of a route: at segment index `pos`, the segments drawn as
/// `org_seg_templates` are replaced by segments drawn as `new_seg_templates`.
pub struct Operation {
    pub id: OperationId,
    pub op_type: OperationType,
    pub pos: usize,
    pub org_seg_templates: Vec<SegmentTemplate>,
    pub new_seg_templates: Vec<SegmentTemplate>,
}

/// The mathematical content of an operation.
pub struct OperationView {
    pub id: Seq<char>,
    pub op_type: OperationType,
    pub pos: int,
    pub org: Seq<SegmentTemplate>,
    pub new: Seq<SegmentTemplate>,
}

impl View for Operation {
    type V = OperationView;

    open spec fn view(&self) -> OperationView {
        OperationView {
            id: self.id@,
            op_type: self.op_type,
            pos: self.pos as int,
            org: self.org_seg_templates@,
            new: self.new_seg_templates@,
        }
    }
}

/// The operation that undoes `op`: the kind reversed, the two template lists swapped.
pub open spec fn reversed(op: OperationView) -> OperationView {
    OperationView { op_type: reverse_type(op.op_type), org: op.new, new: op.org, ..op }
}

/// Whether `op` can be applied to segments drawn as `t`: the segments it
/// replaces are there and drawn as it recorded.
pub open spec fn applies_to(op: OperationView, t: Seq<SegmentTemplate>) -> bool {
    &&& 0 <= op.pos
    &&& op.pos + op.org.len() <= t.len()
    &&& t.subrange(op.pos, op.pos + op.org.len()) == op.org
}

/// Segments drawn as `t` after `op` replaced its part of them.
pub open spec fn apply_templates(op: OperationView, t: Seq<SegmentTemplate>) -> Seq<SegmentTemplate> {
    t.subrange(0, op.pos) + op.new + t.subrange(op.pos + op.org.len(), t.len() as int)
}

/// The position an operation is recorded at: one before the edited index, but not below zero.
pub open spec fn recorded_pos(pos: int) -> int {
    if pos > 0 { pos - 1 } else { 0 }
}

/// Templates recorded by adding the waypoint `coord` at index `pos` of `t`:
/// the replaced segments and the new ones.
pub open spec fn add_templates(pos: int, coord: Coordinate, t: Seq<SegmentTemplate>, mode: DrawingMode) -> (
    Seq<SegmentTemplate>,
    Seq<SegmentTemplate>,
) {
    let goal = if pos < t.len() { t[pos].start } else { coord };
    if pos > 0 {
        (
            seq![t[pos - 1]],
            seq![
                SegmentTemplate { start: t[pos - 1].start, goal: coord, mode },
                SegmentTemplate { start: coord, goal, mode },
            ],
        )
    } else {
        (Seq::empty(), seq![SegmentTemplate { start: coord, goal, mode }])
    }
}

/// Templates recorded by removing the waypoint at index `pos` of `t`.
pub open spec fn remove_templates(pos: int, t: Seq<SegmentTemplate>, mode: DrawingMode) -> (
    Seq<SegmentTemplate>,
    Seq<SegmentTemplate>,
) {
    if pos > 0 {
        (
            seq![t[pos - 1], t[pos]],
            seq![SegmentTemplate { start: t[pos - 1].start, goal: t[pos].goal, mode }],
        )
    } else {
        (seq![t[pos]], Seq::empty())
    }
}

/// Templates recorded by moving the waypoint at index `pos` of `t` to `coord`.
pub open spec fn move_templates(pos: int, coord: Coordinate, t: Seq<SegmentTemplate>, mode: DrawingMode) -> (
    Seq<SegmentTemplate>,
    Seq<SegmentTemplate>,
) {
    let goal = if pos + 1 < t.len() { t[pos + 1].start } else { coord };
    if pos > 0 {
        (
            seq![t[pos - 1], t[pos]],
            seq![
                SegmentTemplate { start: t[pos - 1].start, goal: coord, mode },
                SegmentTemplate { start: coord, goal, mode },
            ],
        )
    } else {
        (seq![t[pos]], seq![SegmentTemplate { start: coord, goal, mode }])
    }
}

/// Adding a waypoint draws every segment it puts in by the mode asked for:
/// two segments (from the previous waypoint to the new one, and from the
/// new one on) when there is a waypoint before it, one otherwise; the
/// segment it replaces keeps its own mode only in the record of what was there.
pub proof fn add_draws_new_segments_in_mode(pos: int, coord: Coordinate, t: Seq<SegmentTemplate>, mode: DrawingMode)
    requires
        0 <= pos <= t.len(),
    ensures
        add_templates(pos, coord, t, mode).1.len() == (if pos > 0 { 2int } else { 1int }),
        forall|k: int|
            0 <= k < add_templates(pos, coord, t, mode).1.len() ==> (#[trigger] add_templates(pos, coord, t, mode).1[k]).mode
                == mode,
        pos > 0 ==> add_templates(pos, coord, t, mode).1[0].start == t[pos - 1].start
            && add_templates(pos, coord, t, mode).1[0].goal == coord,
        add_templates(pos, coord, t, mode).1.last().start == coord,
{
}

/// Removing a waypoint draws the segment that joins its neighbours by the
/// mode asked for.
pub proof fn remove_draws_new_segment_in_mode(pos: int, t: Seq<SegmentTemplate>, mode: DrawingMode)
    requires
        0 <= pos < t.len(),
    ensures
        forall|k: int|
            0 <= k < remove_templates(pos, t, mode).1.len() ==> (#[trigger] remove_templates(pos, t, mode).1[k]).mode == mode,
{
}

/// Moving a waypoint draws every segment it puts in by the mode asked for.
pub proof fn move_draws_new_segments_in_mode(pos: int, coord: Coordinate, t: Seq<SegmentTemplate>, mode: DrawingMode)
    requires
        0 <= pos < t.len(),
    ensures
        forall|k: int|
            0 <= k < move_templates(pos, coord, t, mode).1.len() ==> (#[trigger] move_templates(pos, coord, t, mode).1[k]).mode
                == mode,
{
}

fn copy_templates(v: &Vec<SegmentTemplate>) -> (r: Vec<SegmentTemplate>)
    ensures
        r@ == v@,
{
    let mut r: Vec<SegmentTemplate> = Vec::new();
    let mut i: usize = 0;
    while i < v.len()
        invariant
            i <= v@.len(),
            r@ == v@.subrange(0, i as int),
        decreases v@.len() - i,
    {
        r.push(v[i]);
        i = i + 1;
        assert(r@ =~= v@.subrange(0, i as int));
    }
    assert(r@ =~= v@);
    r
}

/// The text `pos(<pos>)<middle><len><tail>` of a refused edit position.
pub open spec fn position_error_text(pos: nat, len: nat, middle: Seq<char>, tail: Seq<char>) -> Seq<char> {
    "pos("@ + decimal(pos) + ")"@ + middle + decimal(len) + tail
}

/// The text refusing to add a waypoint at `pos` of `len` segments.
pub open spec fn new_add_error(pos: nat, len: nat) -> Seq<char> {
    position_error_text(pos, len, " cannot be greater than org_seg_list.len()("@, ") at Operation::new_add"@)
}

/// The text refusing to remove the waypoint at `pos` of `len` segments.
pub open spec fn new_remove_error(pos: nat, len: nat) -> Seq<char> {
    position_error_text(
        pos,
        len,
        " cannot be greater than or equal to org_seg_list.len()("@,
        ") at Operation::new_remove"@,
    )
}

/// The text refusing to move the waypoint at `pos` of `len` segments.
pub open spec fn new_move_error(pos: nat, len: nat) -> Seq<char> {
    position_error_text(
        pos,
        len,
        " cannot be greater than or equal to org_seg_list.len()("@,
        ") at Operation::new_move"@,
    )
}

fn position_error(pos: usize, len: usize, middle: &str, tail: &str) -> (m: String)
    ensures
        m@ == position_error_text(pos as nat, len as nat, middle@, tail@),
{
    let mut m = owned("pos(");
    push_decimal(&mut m, pos as u64);
    m.append(")");
    m.append(middle);
    push_decimal(&mut m, len as u64);
    m.append(tail);
    m
}

impl Operation {
    /// An operation with a fresh id.
    pub fn new(
        op_type: OperationType,
        pos: usize,
        org_seg_templates: Vec<SegmentTemplate>,
        new_seg_templates: Vec<SegmentTemplate>,
    ) -> (op: Operation)
        ensures
            op.op_type == op_type,
            op.pos == pos,
            op.org_seg_templates@ == org_seg_templates@,
            op.new_seg_templates@ == new_seg_templates@,
            op.id@.len() == 21,
    {
        Operation { id: OperationId::new(), op_type, pos, org_seg_templates, new_seg_templates }
    }

    /// The operation stored under `id` with the given parts.
    pub fn from_parts(
        id: OperationId,
        op_type: OperationType,
        pos: usize,
        org_seg_templates: Vec<SegmentTemplate>,
        new_seg_templates: Vec<SegmentTemplate>,
    ) -> (op: Operation)
        ensures
            op@ == (OperationView {
                id: id@,
                op_type,
                pos: pos as int,
                org: org_seg_templates@,
                new: new_seg_templates@,
            }),
    {
        Operation { id, op_type, pos, org_seg_templates, new_seg_templates }
    }

    /// The id.
    pub fn id(&self) -> (id: &OperationId)
        ensures
            id@ == self@.id,
    {
        &self.id
    }

    /// The kind.
    pub fn op_type(&self) -> (t: &OperationType)
        ensures
            *t == self.op_type,
    {
        &self.op_type
    }

    /// The segment index the operation starts at.
    pub fn pos(&self) -> (p: &usize)
        ensures
            *p == self.pos,
    {
        &self.pos
    }

    /// The templates of the segments the operation replaces.
    pub fn org_seg_templates(&self) -> (t: &Vec<SegmentTemplate>)
        ensures
            t@ == self@.org,
    {
        &self.org_seg_templates
    }

    /// The templates of the segments the operation puts in.
    pub fn new_seg_templates(&self) -> (t: &Vec<SegmentTemplate>)
        ensures
            t@ == self@.new,
    {
        &self.new_seg_templates
    }

    /// A copy with the same id and content.
    pub fn clone(&self) -> (op: Operation)
        ensures
            op@ == self@,
    {
        Operation {
            id: self.id.clone(),
            op_type: self.op_type,
            pos: self.pos,
            org_seg_templates: copy_templates(&self.org_seg_templates),
            new_seg_templates: copy_templates(&self.new_seg_templates),
        }
    }

    /// The operation that adds the waypoint `coord` at waypoint index `pos`
    /// of `org_seg_list`: the segment before it is split in two at `coord`,
    /// and `coord` is joined to the next waypoint (or to itself at the end).
    /// Refused when `pos` is past the end of the list.
    pub fn new_add(pos: usize, coord: Coordinate, org_seg_list: &SegmentList, mode: DrawingMode) -> (r:
        ApplicationResult<Operation>)
        ensures
            r is Ok <==> pos <= org_seg_list.segments@.len(),
            r matches Ok(op) ==> {
                let t = templates_of(org_seg_list.segments@);
                &&& op.op_type == OperationType::Add
                &&& op@.pos == recorded_pos(pos as int)
                &&& (op@.org, op@.new) == add_templates(pos as int, coord, t, mode)
                &&& applies_to(op@, t)
            },
            r matches Ok(op) ==> forall|k: int| 0 <= k < op@.new.len() ==> (#[trigger] op@.new[k]).mode == mode,
            r matches Err(e) ==> e is DomainError,
            r matches Err(ApplicationError::DomainError(m)) ==> m@ == new_add_error(pos as nat, org_seg_list.segments@.len()),
    {
        let segs = &org_seg_list.segments;
        let ghost t = templates_of(segs@);
        if pos <= segs.len() {
            let mut org_seg_templates: Vec<SegmentTemplate> = Vec::new();
            let mut new_seg_templates: Vec<SegmentTemplate> = Vec::new();
            if pos > 0 {
                let org_seg = &segs[pos - 1];
                org_seg_templates.push(SegmentTemplate::from_segment(org_seg));
                new_seg_templates.push(SegmentTemplate::new(org_seg.start, coord, mode));
            }
            let goal = if pos < segs.len() { segs[pos].start } else { coord };
            new_seg_templates.push(SegmentTemplate::new(coord, goal, mode));
            let op_pos = if pos > 0 { pos - 1 } else { 0 };
            let op = Operation::new(OperationType::Add, op_pos, org_seg_templates, new_seg_templates);
            proof {
                let (o, n) = add_templates(pos as int, coord, t, mode);
                assert(op@.org =~= o);
                assert(op@.new =~= n);
                add_draws_new_segments_in_mode(pos as int, coord, t, mode);
                assert(t.subrange(op@.pos, op@.pos + op@.org.len()) =~= op@.org);
            }
            Ok(op)
        } else {
            Err(ApplicationError::DomainError(position_error(pos, segs.len(), " cannot be greater than org_seg_list.len()(", ") at Operation::new_add")))
        }
    }

    /// The operation that removes the waypoint at index `pos` of
    /// `org_seg_list`: its segment goes, and the segment before it is redrawn
    /// to the removed segment's goal. Refused when `pos` is not an index of the list.
    pub fn new_remove(pos: usize, org_seg_list: &SegmentList, mode: DrawingMode) -> (r: ApplicationResult<Operation>)
        ensures
            r is Ok <==> pos < org_seg_list.segments@.len(),
            r matches Ok(op) ==> {
                let t = templates_of(org_seg_list.segments@);
                &&& op.op_type == OperationType::Remove
                &&& op@.pos == recorded_pos(pos as int)
                &&& (op@.org, op@.new) == remove_templates(pos as int, t, mode)
                &&& applies_to(op@, t)
            },
            r matches Err(e) ==> e is DomainError,
            r matches Err(ApplicationError::DomainError(m)) ==> m@ == new_remove_error(pos as nat, org_seg_list.segments@.len()),
    {
        let segs = &org_seg_list.segments;
        let ghost t = templates_of(segs@);
        if pos < segs.len() {
            let mut org_seg_templates: Vec<SegmentTemplate> = Vec::new();
            let mut new_seg_templates: Vec<SegmentTemplate> = Vec::new();
            if pos > 0 {
                let start = segs[pos - 1].start;
                let goal = segs[pos].goal;
                org_seg_templates.push(SegmentTemplate::from_segment(&segs[pos - 1]));
                new_seg_templates.push(SegmentTemplate::new(start, goal, mode));
            }
            org_seg_templates.push(SegmentTemplate::from_segment(&segs[pos]));
            let op_pos = if pos > 0 { pos - 1 } else { 0 };
            let op = Operation::new(OperationType::Remove, op_pos, org_seg_templates, new_seg_templates);
            proof {
                let (o, n) = remove_templates(pos as int, t, mode);
                assert(op@.org =~= o);
                assert(op@.new =~= n);
                assert(t.subrange(op@.pos, op@.pos + op@.org.len()) =~= op@.org);
            }
            Ok(op)
        } else {
            Err(ApplicationError::DomainError(position_error(pos, segs.len(), " cannot be greater than or equal to org_seg_list.len()(", ") at Operation::new_remove")))
        }
    }

    /// The operation that moves the waypoint at index `pos` of `org_seg_list`
    /// to `coord`: the segment before it and its own segment are redrawn
    /// through `coord`. Refused when `pos` is not an index of the list.
    pub fn new_move(pos: usize, coord: Coordinate, org_seg_list: &SegmentList, mode: DrawingMode) -> (r:
        ApplicationResult<Operation>)
        ensures
            r is Ok <==> pos < org_seg_list.segments@.len(),
            r matches Ok(op) ==> {
                let t = templates_of(org_seg_list.segments@);
                &&& op.op_type == OperationType::Move
                &&& op@.pos == recorded_pos(pos as int)
                &&& (op@.org, op@.new) == move_templates(pos as int, coord, t, mode)
                &&& applies_to(op@, t)
            },
            r matches Err(e) ==> e is DomainError,
            r matches Err(ApplicationError::DomainError(m)) ==> m@ == new_move_error(pos as nat, org_seg_list.segments@.len()),
    {
        let segs = &org_seg_list.segments;
        let ghost t = templates_of(segs@);
        if pos < segs.len() {
            let mut org_seg_templates: Vec<SegmentTemplate> = Vec::new();
            let mut new_seg_templates: Vec<SegmentTemplate> = Vec::new();
            if pos > 0 {
                let start = segs[pos - 1].start;
                org_seg_templates.push(SegmentTemplate::from_segment(&segs[pos - 1]));
                new_seg_templates.push(SegmentTemplate::new(start, coord, mode));
            }
            let goal = if pos + 1 < segs.len() { segs[pos + 1].start } else { coord };
            org_seg_templates.push(SegmentTemplate::from_segment(&segs[pos]));
            new_seg_templates.push(SegmentTemplate::new(coord, goal, mode));
            let op_pos = if pos > 0 { pos - 1 } else { 0 };
            let op = Operation::new(OperationType::Move, op_pos, org_seg_templates, new_seg_templates);
            proof {
                let (o, n) = move_templates(pos as int, coord, t, mode);
                assert(op@.org =~= o);
                assert(op@.new =~= n);
                assert(t.subrange(op@.pos, op@.pos + op@.org.len()) =~= op@.org);
            }
            Ok(op)
        } else {
            Err(ApplicationError::DomainError(position_error(pos, segs.len(), " cannot be greater than or equal to org_seg_list.len()(", ") at Operation::new_move")))
        }
    }

    /// Replaces the segments this operation covers in `seg_list` by empty
    /// segments drawn as its new templates; the other segments stay as they are.
    pub fn apply(&self, seg_list: &mut SegmentList) -> (r: ApplicationResult<()>)
        requires
            self.pos + self.org_seg_templates@.len() <= old(seg_list).segments@.len(),
        ensures
            r is Ok,
            final(seg_list).replaced_by(*old(seg_list), self@),
    {
        seg_list.splice_templates(self.pos, self.org_seg_templates.len(), &self.new_seg_templates);
        Ok(())
    }

    /// Turns the operation into the one that undoes it.
    pub fn reverse(&mut self)
        ensures
            final(self)@ == reversed(old(self)@),
    {
        self.op_type = self.op_type.reverse();
        std::mem::swap(&mut self.org_seg_templates, &mut self.new_seg_templates);
    }
}

} // verus!
