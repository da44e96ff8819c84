//! Edits recorded directly on the list of waypoints (the coordinates a
//! route passes through), with their undo.
use vstd::prelude::*;

use crate::coordinate::Coordinate;
use crate::error::{ApplicationError, ApplicationResult};
use crate::text::{owned, str_equals};

verus! {

/// The kind of a waypoint edit.
#[derive(Clone, Copy, Debug, PartialEq, Eq, Structural)]
pub enum OperationType {
    Add,
    Remove,
    Move,
    Clear,
    /// Puts a whole list of waypoints back; undoes `Clear`.
    InitWithList,
}

/// The kind of edit that undoes an edit of kind `t`.
pub open spec fn reverse_type(t: OperationType) -> OperationType {
    match t {
        OperationType::Add => OperationType::Remove,
        OperationType::Remove => OperationType::Add,
        OperationType::Move => OperationType::Move,
        OperationType::Clear => OperationType::InitWithList,
        OperationType::InitWithList => OperationType::Clear,
    }
}

/// The code an edit kind is stored under.
pub open spec fn type_code(t: OperationType) -> Seq<char> {
    match t {
        OperationType::Add => "ad"@,
        OperationType::Remove => "rm"@,
        OperationType::Move => "mv"@,
        OperationType::Clear => "cl"@,
        OperationType::InitWithList => "in"@,
    }
}

/// The edit kind stored under `code`, if any.
pub open spec fn parse_type(code: Seq<char>) -> Option<OperationType> {
    if code == "ad"@ {
        Some(OperationType::Add)
    } else if code == "rm"@ {
        Some(OperationType::Remove)
    } else if code == "mv"@ {
        Some(OperationType::Move)
    } else if code == "cl"@ {
        Some(OperationType::Clear)
    } else if code == "in"@ {
        Some(OperationType::InitWithList)
    } else {
        None
    }
}

impl OperationType {
    /// The kind of edit that undoes this one.
    pub fn reverse(&self) -> (r: OperationType)
        ensures
            r == reverse_type(*self),
    {
        match *self {
            OperationType::Add => OperationType::Remove,
            OperationType::Remove => OperationType::Add,
            OperationType::Move => OperationType::Move,
            OperationType::Clear => OperationType::InitWithList,
            OperationType::InitWithList => OperationType::Clear,
        }
    }

    /// The kind stored under `code`; refused when the code is unknown.
    pub fn try_from(code: &str) -> (r: ApplicationResult<OperationType>)
        ensures
            r is Ok <==> parse_type(code@) is Some,
            r matches Ok(t) ==> Some(t) == parse_type(code@),
            r matches Err(e) ==> e is DomainError,
    {
        if str_equals(code, "ad") {
            Ok(OperationType::Add)
        } else if str_equals(code, "rm") {
            Ok(OperationType::Remove)
        } else if str_equals(code, "mv") {
            Ok(OperationType::Move)
        } else if str_equals(code, "cl") {
            Ok(OperationType::Clear)
        } else if str_equals(code, "in") {
            Ok(OperationType::InitWithList)
        } else {
            Err(ApplicationError::DomainError(owned("Cannot convert the code into OperationType!")))
        }
    }

    /// The stored code: `ad`, `rm`, `mv`, `cl` or `in`.
    pub fn to_code(&self) -> (s: String)
        ensures
            s@ == type_code(*self),
    {
        match self {
            OperationType::Add => owned("ad"),
            OperationType::Remove => owned("rm"),
            OperationType::Move => owned("mv"),
            OperationType::Clear => owned("cl"),
            OperationType::InitWithList => owned("in"),
        }
    }
}

/// A waypoint edit: from index `start_pos`, the waypoints `org_coords` are
/// replaced by `new_coords`.
pub struct Operation {
    pub op_type: OperationType,
    pub start_pos: usize,
    pub org_coords: Vec<Coordinate>,
    pub new_coords: Vec<Coordinate>,
}

/// The waypoints `w` after replacing, from index `start`, `org_len` of them by `new`.
pub open spec fn replace_range(w: Seq<Coordinate>, start: int, org_len: int, new: Seq<Coordinate>) -> Seq<Coordinate> {
    w.subrange(0, start) + new + w.subrange(start + org_len, w.len() as int)
}

/// Whether an edit replacing `org` from `start` fits the waypoints `w`.
pub open spec fn fits(w: Seq<Coordinate>, start: int, org: Seq<Coordinate>) -> bool {
    0 <= start && start + org.len() <= w.len() && w.subrange(start, start + org.len()) == org
}

impl Operation {
    /// The edit made of the given parts.
    pub fn new(op_type: OperationType, start_pos: usize, org_coords: Vec<Coordinate>, new_coords: Vec<Coordinate>) -> (op: Operation)
        ensures
            op.op_type == op_type,
            op.start_pos == start_pos,
            op.org_coords@ == org_coords@,
            op.new_coords@ == new_coords@,
    {
        Operation { op_type, start_pos, org_coords, new_coords }
    }

    /// Adds waypoint `coord` at index `pos`.
    pub fn new_add(pos: usize, coord: Coordinate) -> (op: Operation)
        ensures
            op.op_type == OperationType::Add,
            op.start_pos == pos,
            op.org_coords@ == Seq::<Coordinate>::empty(),
            op.new_coords@ == seq![coord],
    {
        let mut new_coords = Vec::new();
        new_coords.push(coord);
        let op = Self::new(OperationType::Add, pos, Vec::new(), new_coords);
        assert(op.new_coords@ =~= seq![coord]);
        op
    }

    /// Removes waypoint `pos` of `org_waypoints`.
    pub fn new_remove(pos: usize, org_waypoints: Vec<Coordinate>) -> (op: Operation)
        requires
            pos < org_waypoints@.len(),
        ensures
            op.op_type == OperationType::Remove,
            op.start_pos == pos,
            op.org_coords@ == seq![org_waypoints@[pos as int]],
            op.new_coords@ == Seq::<Coordinate>::empty(),
    {
        let mut org_coords = Vec::new();
        org_coords.push(org_waypoints[pos]);
        let op = Self::new(OperationType::Remove, pos, org_coords, Vec::new());
        assert(op.org_coords@ =~= seq![org_waypoints@[pos as int]]);
        op
    }

    /// Moves waypoint `pos` of `org_waypoints` to `coord`.
    pub fn new_move(pos: usize, coord: Coordinate, org_waypoints: Vec<Coordinate>) -> (op: Operation)
        requires
            pos < org_waypoints@.len(),
        ensures
            op.op_type == OperationType::Move,
            op.start_pos == pos,
            op.org_coords@ == seq![org_waypoints@[pos as int]],
            op.new_coords@ == seq![coord],
    {
        let mut org_coords = Vec::new();
        org_coords.push(org_waypoints[pos]);
        let mut new_coords = Vec::new();
        new_coords.push(coord);
        let op = Self::new(OperationType::Move, pos, org_coords, new_coords);
        assert(op.org_coords@ =~= seq![org_waypoints@[pos as int]]);
        assert(op.new_coords@ =~= seq![coord]);
        op
    }

    /// Removes every waypoint of `org_waypoints`.
    pub fn new_clear(org_waypoints: Vec<Coordinate>) -> (op: Operation)
        ensures
            op.op_type == OperationType::Clear,
            op.start_pos == 0,
            op.org_coords@ == org_waypoints@,
            op.new_coords@ == Seq::<Coordinate>::empty(),
    {
        Self::new(OperationType::Clear, 0, org_waypoints, Vec::new())
    }

    /// Applies the edit to the waypoints.
    pub fn apply(&self, waypoints: &mut Vec<Coordinate>) -> (r: ApplicationResult<()>)
        requires
            self.start_pos + self.org_coords@.len() <= old(waypoints)@.len(),
        ensures
            r is Ok,
            final(waypoints)@ == replace_range(old(waypoints)@, self.start_pos as int, self.org_coords@.len() as int, self.new_coords@),
    {
        let mut tail = waypoints.split_off(self.start_pos);
        let mut rest = tail.split_off(self.org_coords.len());
        let mut i: usize = 0;
        while i < self.new_coords.len()
            invariant
                i <= self.new_coords@.len(),
                waypoints@ == old(waypoints)@.subrange(0, self.start_pos as int) + self.new_coords@.subrange(0, i as int),
            decreases self.new_coords@.len() - i,
        {
            waypoints.push(self.new_coords[i]);
            i = i + 1;
            assert(waypoints@ =~= old(waypoints)@.subrange(0, self.start_pos as int) + self.new_coords@.subrange(0, i as int));
        }
        waypoints.append(&mut rest);
        assert(self.new_coords@.subrange(0, i as int) =~= self.new_coords@);
        assert(waypoints@ =~= replace_range(old(waypoints)@, self.start_pos as int, self.org_coords@.len() as int, self.new_coords@));
        Ok(())
    }

    /// Turns the edit into the one that undoes it.
    pub fn reverse(&mut self)
        ensures
            final(self).op_type == reverse_type(old(self).op_type),
            final(self).start_pos == old(self).start_pos,
            final(self).org_coords@ == old(self).new_coords@,
            final(self).new_coords@ == old(self).org_coords@,
    {
        self.op_type = self.op_type.reverse();
        std::mem::swap(&mut self.org_coords, &mut self.new_coords);
    }
}

/// Undoing a waypoint edit restores the waypoints: when the edit fits `w`,
/// its reverse fits the result and gives `w` back.
pub proof fn lemma_waypoint_undo_restores(w: Seq<Coordinate>, start: int, org: Seq<Coordinate>, new: Seq<Coordinate>)
    requires
        fits(w, start, org),
    ensures
        fits(replace_range(w, start, org.len() as int, new), start, new),
        replace_range(replace_range(w, start, org.len() as int, new), start, new.len() as int, org) == w,
{
    let a = replace_range(w, start, org.len() as int, new);
    assert(a.subrange(start, start + new.len()) =~= new);
    assert(replace_range(a, start, new.len() as int, org) =~= w);
}

/// Undoing twice gives the kind back.
pub proof fn lemma_waypoint_reverse_type_involution(t: OperationType)
    ensures
        reverse_type(reverse_type(t)) == t,
{
}

/// Adding, removing, moving and clearing do to the waypoints what they say.
pub proof fn lemma_waypoint_edits(w: Seq<Coordinate>, pos: int, coord: Coordinate)
    requires
        0 <= pos <= w.len(),
    ensures
        replace_range(w, pos, 0, seq![coord]) == w.insert(pos, coord),
        pos < w.len() ==> replace_range(w, pos, 1, Seq::empty()) == w.remove(pos),
        pos < w.len() ==> replace_range(w, pos, 1, seq![coord]) == w.update(pos, coord),
        replace_range(w, 0, w.len() as int, Seq::empty()) == Seq::<Coordinate>::empty(),
{
    assert(replace_range(w, pos, 0, seq![coord]) =~= w.insert(pos, coord));
    if pos < w.len() {
        assert(replace_range(w, pos, 1, Seq::empty()) =~= w.remove(pos));
        assert(replace_range(w, pos, 1, seq![coord]) =~= w.update(pos, coord));
    }
    assert(replace_range(w, 0, w.len() as int, Seq::empty()) =~= Seq::<Coordinate>::empty());
}

} // verus!
