use vstd::prelude::*;

use crate::coordinate::Coordinate;
use crate::error::{ApplicationError, ApplicationResult};
use crate::text::{owned, str_equals};
use crate::types::NanoId;
use crate::values::Distance;

verus! {

/// How the points of a segment are drawn between its two ends.
#[derive(Clone, Copy, Debug, PartialEq, Eq, Structural)]
pub enum DrawingMode {
    /// Along roads, as the routing engine finds them.
    FollowRoad,
    /// In a straight line.
    Freehand,
}

/// The name that a drawing mode is stored and sent under.
pub open spec fn drawing_mode_name(m: DrawingMode) -> Seq<char> {
    match m {
        DrawingMode::FollowRoad => "follow_road"@,
        DrawingMode::Freehand => "freehand"@,
    }
}

/// The drawing mode whose name is `s`, if any.
pub open spec fn parse_drawing_mode(s: Seq<char>) -> Option<DrawingMode> {
    if s == "follow_road"@ {
        Some(DrawingMode::FollowRoad)
    } else if s == "freehand"@ {
        Some(DrawingMode::Freehand)
    } else {
        None
    }
}

impl DrawingMode {
    /// The mode whose name is `s` (`follow_road` or `freehand`), if any.
    pub fn from_str(s: &str) -> (r: Option<DrawingMode>)
        ensures
            r == parse_drawing_mode(s@),
    {
        if str_equals(s, "follow_road") {
            Some(DrawingMode::FollowRoad)
        } else if str_equals(s, "freehand") {
            Some(DrawingMode::Freehand)
        } else {
            None
        }
    }

    /// The name of the mode.
    pub fn as_str(&self) -> (s: &'static str)
        ensures
            s@ == drawing_mode_name(*self),
    {
        match self {
            DrawingMode::FollowRoad => "follow_road",
            DrawingMode::Freehand => "freehand",
        }
    }
}

/// Marks the ids of segments.
pub struct SegmentMarker;

/// Identifier of a segment.
pub type SegmentId = NanoId<SegmentMarker, 21>;

/// The part of a route between two consecutive waypoints: its two ends, how
/// it is drawn, and the points that draw it (empty until interpolated).
pub struct Segment {
    pub id: SegmentId,
    pub start: Coordinate,
    pub goal: Coordinate,
    pub mode: DrawingMode,
    pub points: Vec<Coordinate>,
}

/// `c` with its distance from the start set to `d`.
pub open spec fn with_distance(c: Coordinate, d: int) -> Coordinate {
    Coordinate { distance_from_start: Some(Distance(d as i64)), ..c }
}

/// `c` with its distance from the start, if any, moved by `delta`.
pub open spec fn shift_distance(c: Coordinate, delta: int) -> Coordinate {
    match c.distance_from_start {
        Some(d) => with_distance(c, d@ + delta),
        None => c,
    }
}

/// The distance held by the last point, or zero.
pub open spec fn last_distance(points: Seq<Coordinate>) -> int {
    if points.len() > 0 && points.last().distance_from_start is Some {
        points.last().distance_from_start.unwrap()@
    } else {
        0
    }
}

/// The distance held by the first point, or zero.
pub open spec fn first_distance(points: Seq<Coordinate>) -> int {
    if points.len() > 0 && points[0].distance_from_start is Some {
        points[0].distance_from_start.unwrap()@
    } else {
        0
    }
}

/// Whether the first point holds a distance.
pub open spec fn points_have_distance(points: Seq<Coordinate>) -> bool {
    points.len() > 0 && points[0].distance_from_start is Some
}

/// The sum of the first `j` steps.
pub open spec fn prefix_sum(steps: Seq<Distance>, j: int) -> int
    decreases j,
{
    if j <= 0 {
        0
    } else {
        prefix_sum(steps, j - 1) + steps[j - 1]@
    }
}

/// The distance from the start grows by each step: nothing before the first
/// step, one step more at each point than at the one before, and the
/// distance over two runs of steps put together is the sum of their own.
pub proof fn prefix_sum_adds_steps(steps: Seq<Distance>)
    ensures
        prefix_sum(steps, 0) == 0,
        forall|j: int| 0 <= j < steps.len() ==> #[trigger] prefix_sum(steps, j + 1) == prefix_sum(steps, j) + steps[j]@,
{
    assert forall|j: int| 0 <= j < steps.len() implies #[trigger] prefix_sum(steps, j + 1) == prefix_sum(steps, j)
        + steps[j]@ by {
        assert(j + 1 - 1 == j);
    }
}

/// The distance over the steps `a` followed by the steps `b`, up to `k`
/// steps into `b`, is the whole of `a` and then the first `k` of `b`.
pub proof fn prefix_sum_of_concatenation(a: Seq<Distance>, b: Seq<Distance>, k: int)
    requires
        0 <= k <= b.len(),
    ensures
        prefix_sum(a + b, a.len() + k) == prefix_sum(a, a.len() as int) + prefix_sum(b, k),
    decreases k,
{
    if k > 0 {
        prefix_sum_of_concatenation(a, b, k - 1);
        assert((a + b)[a.len() + k - 1] == b[k - 1]);
    } else {
        prefix_sum_prefix(a, b, a.len() as int);
    }
}

proof fn prefix_sum_prefix(a: Seq<Distance>, b: Seq<Distance>, j: int)
    requires
        0 <= j <= a.len(),
    ensures
        prefix_sum(a + b, j) == prefix_sum(a, j),
    decreases j,
{
    if j > 0 {
        prefix_sum_prefix(a, b, j - 1);
        assert((a + b)[j - 1] == a[j - 1]);
    }
}

/// `pts` with `start` put in front unless it already starts there, and with
/// `goal` put behind unless it already ends there.
pub open spec fn with_endpoints(start: Coordinate, goal: Coordinate, pts: Seq<Coordinate>) -> Seq<
    Coordinate,
> {
    let p1 = if pts.len() > 0 && pts[0] == start {
        pts
    } else {
        seq![start] + pts
    };
    if p1.last() == goal {
        p1
    } else {
        p1.push(goal)
    }
}

/// The segment's ends and mode, what an edit operation records of it.
pub open spec fn same_frame(a: Segment, b: Segment) -> bool {
    a.id@ == b.id@ && a.start == b.start && a.goal == b.goal && a.mode == b.mode
}

impl Segment {
    /// A segment from `start` to `goal` drawn by `mode`, with a fresh id and no points.
    pub fn new_empty(start: Coordinate, goal: Coordinate, mode: DrawingMode) -> (s: Segment)
        ensures
            s.start == start,
            s.goal == goal,
            s.mode == mode,
            s.points@.len() == 0,
            s.id@.len() == 21,
    {
        Segment { id: SegmentId::new(), start, goal, mode, points: Vec::new() }
    }

    /// The start point.
    pub fn start(&self) -> (c: &Coordinate)
        ensures
            *c == self.start,
    {
        &self.start
    }

    /// The goal point.
    pub fn goal(&self) -> (c: &Coordinate)
        ensures
            *c == self.goal,
    {
        &self.goal
    }

    /// The drawing mode.
    pub fn mode(&self) -> (m: &DrawingMode)
        ensures
            *m == self.mode,
    {
        &self.mode
    }

    /// The points that draw the segment.
    pub fn points(&self) -> (p: &Vec<Coordinate>)
        ensures
            p@ == self.points@,
    {
        &self.points
    }

    /// The length of the segment: the distance held by its last point, or zero.
    pub fn get_distance(&self) -> (d: Distance)
        ensures
            d@ == last_distance(self.points@),
    {
        let n = self.points.len();
        if n == 0 {
            Distance::zero()
        } else {
            match self.points[n - 1].distance_from_start {
                Some(d) => d,
                None => Distance::zero(),
            }
        }
    }

    /// The distance held by the first point, or zero.
    pub fn get_distance_offset(&self) -> (d: Distance)
        ensures
            d@ == first_distance(self.points@),
    {
        if self.points.len() == 0 {
            Distance::zero()
        } else {
            match self.points[0].distance_from_start {
                Some(d) => d,
                None => Distance::zero(),
            }
        }
    }

    /// Whether the first point holds a distance.
    pub fn has_distance(&self) -> (b: bool)
        ensures
            b == points_have_distance(self.points@),
    {
        self.points.len() > 0 && self.points[0].distance_from_start.is_some()
    }

    /// Gives every point its distance from the segment's start, where
    /// `steps[j]` is the distance from point `j` to point `j + 1`.
    pub fn calc_distance_from_start(&mut self, steps: &Vec<Distance>)
        requires
            old(self).points@.len() >= 1,
            steps@.len() + 1 == old(self).points@.len(),
            forall|j: int|
                0 <= j < old(self).points@.len() ==> i64::MIN <= #[trigger] prefix_sum(steps@, j)
                    <= i64::MAX,
        ensures
            final(self).points@.len() == old(self).points@.len(),
            forall|j: int|
                0 <= j < old(self).points@.len() ==> #[trigger] final(self).points@[j]
                    == with_distance(old(self).points@[j], prefix_sum(steps@, j)),
            final(self).id@ == old(self).id@,
            final(self).start == old(self).start,
            final(self).goal == old(self).goal,
            final(self).mode == old(self).mode,
            final(self).points@[0].distance_from_start == Some(Distance(0)),
            forall|j: int|
                0 <= j < steps@.len() ==> {
                    &&& (#[trigger] final(self).points@[j + 1]).distance_from_start is Some
                    &&& final(self).points@[j].distance_from_start is Some
                    &&& final(self).points@[j + 1].distance_from_start.unwrap()@
                        == final(self).points@[j].distance_from_start.unwrap()@ + steps@[j]@
                },
    {
        let n = self.points.len();
        let mut dist: i64 = 0;
        let mut i: usize = 0;
        while i < n
            invariant
                n == self.points@.len(),
                n == old(self).points@.len(),
                steps@.len() + 1 == n,
                i <= n,
                i < n ==> dist == prefix_sum(steps@, i as int),
                forall|j: int|
                    0 <= j < n ==> i64::MIN <= #[trigger] prefix_sum(steps@, j) <= i64::MAX,
                forall|j: int|
                    0 <= j < i ==> #[trigger] self.points@[j] == with_distance(
                        old(self).points@[j],
                        prefix_sum(steps@, j),
                    ),
                forall|j: int| i <= j < n ==> #[trigger] self.points@[j] == old(self).points@[j],
                self.id@ == old(self).id@,
                self.start == old(self).start,
                self.goal == old(self).goal,
                self.mode == old(self).mode,
            decreases n - i,
        {
            let mut c = self.points[i];
            c.distance_from_start = Some(Distance(dist));
            self.points.set(i, c);
            if i + 1 < n {
                assert(prefix_sum(steps@, i + 1) == prefix_sum(steps@, i as int) + steps@[i as int]@);
                assert(i64::MIN <= prefix_sum(steps@, i + 1) <= i64::MAX);
                dist = dist + steps[i].0;
            }
            i = i + 1;
        }
        proof {
            prefix_sum_adds_steps(steps@);
            assert(self.points@[0] == with_distance(old(self).points@[0], 0));
            assert forall|j: int| 0 <= j < steps@.len() implies {
                &&& (#[trigger] self.points@[j + 1]).distance_from_start is Some
                &&& self.points@[j].distance_from_start is Some
                &&& self.points@[j + 1].distance_from_start.unwrap()@
                    == self.points@[j].distance_from_start.unwrap()@ + steps@[j]@
            } by {
                assert(self.points@[j + 1] == with_distance(old(self).points@[j + 1], prefix_sum(steps@, j + 1)));
                assert(self.points@[j] == with_distance(old(self).points@[j], prefix_sum(steps@, j)));
                assert(i64::MIN <= prefix_sum(steps@, j + 1) <= i64::MAX);
                assert(i64::MIN <= prefix_sum(steps@, j) <= i64::MAX);
            }
        }
    }

    /// Moves every held distance so that the first point holds `offset`.
    pub fn set_distance_offset(&mut self, offset: Distance)
        requires
            forall|j: int|
                0 <= j < old(self).points@.len() && (#[trigger] old(self).points@[j]).distance_from_start is Some
                    ==> i64::MIN <= old(self).points@[j].distance_from_start.unwrap()@ - first_distance(old(self).points@) + offset@ <= i64::MAX,
        ensures
            final(self).points@.len() == old(self).points@.len(),
            forall|j: int|
                0 <= j < old(self).points@.len() ==> #[trigger] final(self).points@[j]
                    == shift_distance(old(self).points@[j], offset@ - first_distance(old(self).points@)),
            final(self).id@ == old(self).id@,
            final(self).start == old(self).start,
            final(self).goal == old(self).goal,
            final(self).mode == old(self).mode,
    {
        let org_offset = self.get_distance_offset();
        let ghost delta = offset@ - first_distance(old(self).points@);
        if org_offset.0 != offset.0 {
            let n = self.points.len();
            let mut i: usize = 0;
            while i < n
                invariant
                    n == self.points@.len(),
                    n == old(self).points@.len(),
                    i <= n,
                    org_offset@ == first_distance(old(self).points@),
                    delta == offset@ - org_offset@,
                    forall|j: int|
                        0 <= j < n && (#[trigger] old(self).points@[j]).distance_from_start is Some
                            ==> i64::MIN <= old(self).points@[j].distance_from_start.unwrap()@ - org_offset@ + offset@ <= i64::MAX,
                    forall|j: int|
                        0 <= j < i ==> #[trigger] self.points@[j] == shift_distance(old(self).points@[j], delta),
                    forall|j: int| i <= j < n ==> #[trigger] self.points@[j] == old(self).points@[j],
                    self.id@ == old(self).id@,
                    self.start == old(self).start,
                    self.goal == old(self).goal,
                    self.mode == old(self).mode,
                decreases n - i,
            {
                let mut c = self.points[i];
                match c.distance_from_start {
                    Some(d) => {
                        assert(old(self).points@[i as int].distance_from_start is Some);
                        let moved = (d.0 as i128 - org_offset.0 as i128 + offset.0 as i128) as i64;
                        c.distance_from_start = Some(Distance(moved));
                    },
                    None => {},
                }
                self.points.set(i, c);
                i = i + 1;
            }
        } else {
            assert forall|j: int| 0 <= j < self.points@.len() implies #[trigger] self.points@[j]
                == shift_distance(old(self).points@[j], delta) by {
                let c = old(self).points@[j];
                if c.distance_from_start is Some {
                    assert(c.distance_from_start.unwrap() == Distance(c.distance_from_start.unwrap().0));
                }
            }
        }
    }

    /// Fills an empty segment with `points`, adding its start in front and its
    /// goal behind where they are missing; refused when it already has points.
    pub fn set_points(&mut self, points: Vec<Coordinate>) -> (r: ApplicationResult<()>)
        ensures
            r is Ok <==> old(self).points@.len() == 0,
            r is Ok ==> final(self).points@ == with_endpoints(old(self).start, old(self).goal, points@),
            r is Err ==> final(self).points@ == old(self).points@,
            r matches Err(e) ==> e is DomainError,
            final(self).id@ == old(self).id@,
            final(self).start == old(self).start,
            final(self).goal == old(self).goal,
            final(self).mode == old(self).mode,
    {
        if self.points.len() == 0 {
            let mut points = points;
            let starts_at_start = points.len() > 0 && points[0] == self.start;
            if !starts_at_start {
                points.insert(0, self.start);
            }
            let n = points.len();
            if !(points[n - 1] == self.goal) {
                points.push(self.goal);
            }
            self.points = points;
            Ok(())
        } else {
            Err(ApplicationError::DomainError(owned("Cannot set_points to a Segment which isn't empty!")))
        }
    }

    /// Whether the segment has no points yet.
    pub fn is_empty(&self) -> (b: bool)
        ensures
            b == (self.points@.len() == 0),
    {
        self.points.len() == 0
    }

    /// The segment stored under `id` with mode name `mode` and the decoded
    /// points `points`: it runs from the first point to the last. Refused when
    /// there are no points, or else when the mode name is unknown.
    pub fn try_from_parts(id: String, mode: &str, points: Vec<Coordinate>) -> (r: ApplicationResult<Segment>)
        ensures
            r is Ok <==> (points@.len() > 0 && parse_drawing_mode(mode@) is Some),
            r matches Ok(s) ==> {
                &&& s.id@ == id@
                &&& s.start == points@[0]
                &&& s.goal == points@.last()
                &&& Some(s.mode) == parse_drawing_mode(mode@)
                &&& s.points@ == points@
            },
            r matches Err(e) ==> e is DomainError,
    {
        let n = points.len();
        if n == 0 {
            return Err(ApplicationError::DomainError(owned("Cannot Initialize Segment from an empty Vec<Coordinate>!")));
        }
        let start = points[0];
        let goal = points[n - 1];
        match DrawingMode::from_str(mode) {
            Some(m) => Ok(Segment { id: SegmentId::from_string(id), start, goal, mode: m, points }),
            None => Err(ApplicationError::DomainError(owned("Invalid mode"))),
        }
    }
}

} // verus!
