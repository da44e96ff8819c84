use vstd::prelude::*;

use crate::coordinate::Coordinate;
use crate::error::{ApplicationError, ApplicationResult};
use crate::operation::{
    apply_templates, template_of, templates_of, Operation, OperationView, SegmentTemplate,
};
use crate::segment::{
    first_distance, last_distance, points_have_distance, prefix_sum, same_frame, shift_distance,
    with_distance, with_endpoints, Segment,
};
use crate::text::owned;
use crate::values::{Distance, Elevation};

verus! {

/// The segments of a route, in order; segment `i` starts at waypoint `i`.
pub struct SegmentList {
    pub segments: Vec<Segment>,
}

impl SegmentList {
    /// `self` is `old` with the segments that `op` covers replaced by empty
    /// segments drawn as its new templates, every other segment kept.
    pub open spec fn replaced_by(self, old: SegmentList, op: OperationView) -> bool {
        let p = op.pos;
        let k = op.org.len() as int;
        let m = op.new.len() as int;
        let n = old.segments@.len() as int;
        &&& self.segments@.len() == n - k + m
        &&& forall|i: int| 0 <= i < p ==> #[trigger] self.segments@[i] == old.segments@[i]
        &&& forall|i: int|
            p <= i < p + m ==> template_of(#[trigger] self.segments@[i]) == op.new[i - p]
                && self.segments@[i].points@.len() == 0
        &&& forall|i: int|
            p + m <= i < self.segments@.len() ==> #[trigger] self.segments@[i] == old.segments@[i
                - m + k]
        &&& templates_of(self.segments@) == apply_templates(op, templates_of(old.segments@))
    }

    /// Replaces the `org_len` segments from `pos` by empty segments drawn as `new`.
    pub(crate) fn splice_templates(&mut self, pos: usize, org_len: usize, new: &Vec<SegmentTemplate>)
        requires
            pos + org_len <= old(self).segments@.len(),
        ensures
            final(self).replaced_by(
                *old(self),
                OperationView {
                    id: Seq::empty(),
                    op_type: crate::operation::OperationType::Add,
                    pos: pos as int,
                    org: templates_of(old(self).segments@).subrange(pos as int, pos + org_len),
                    new: new@,
                },
            ),
    {
        let ghost old_segs = self.segments@;
        let mut tail = self.segments.split_off(pos);
        let mut rest = tail.split_off(org_len);
        let mut i: usize = 0;
        while i < new.len()
            invariant
                i <= new@.len(),
                pos + org_len <= old_segs.len(),
                self.segments@.len() == pos + i,
                rest@ == old_segs.subrange(pos + org_len, old_segs.len() as int),
                forall|j: int| 0 <= j < pos ==> #[trigger] self.segments@[j] == old_segs[j],
                forall|j: int|
                    pos <= j < pos + i ==> template_of(#[trigger] self.segments@[j]) == new@[j - pos]
                        && self.segments@[j].points@.len() == 0,
            decreases new@.len() - i,
        {
            let s = new[i].to_segment();
            self.segments.push(s);
            i = i + 1;
        }
        self.segments.append(&mut rest);
        proof {
            let op = OperationView {
                id: Seq::empty(),
                op_type: crate::operation::OperationType::Add,
                pos: pos as int,
                org: templates_of(old_segs).subrange(pos as int, pos + org_len),
                new: new@,
            };
            let t = templates_of(old_segs);
            let r = templates_of(self.segments@);
            let e = apply_templates(op, t);
            assert(r.len() == e.len());
            assert forall|j: int| 0 <= j < r.len() implies r[j] == e[j] by {
                if j < pos {
                } else if j < pos + new@.len() {
                } else {
                    assert(self.segments@[j] == old_segs[j - new@.len() + org_len]);
                }
            }
            assert(r =~= e);
        }
    }

    /// Applies `op`: the segments it covers are replaced by empty segments
    /// drawn as its new templates.
    pub fn apply_operation(&mut self, op: Operation) -> (r: ApplicationResult<()>)
        requires
            op.pos + op.org_seg_templates@.len() <= old(self).segments@.len(),
        ensures
            r is Ok,
            final(self).replaced_by(*old(self), op@),
    {
        self.splice_templates(op.pos, op.org_seg_templates.len(), &op.new_seg_templates);
        Ok(())
    }

    /// The number of segments.
    pub fn len(&self) -> (n: usize)
        ensures
            n == self.segments@.len(),
    {
        self.segments.len()
    }

    /// Whether there are no segments.
    pub fn is_empty(&self) -> (b: bool)
        ensures
            b == (self.segments@.len() == 0),
    {
        self.segments.len() == 0
    }

    /// The segments, borrowed.
    pub fn segments(&self) -> (s: &Vec<Segment>)
        ensures
            s@ == self.segments@,
    {
        &self.segments
    }

    /// The list made of `segments`.
    pub fn from_segments(segments: Vec<Segment>) -> (l: SegmentList)
        ensures
            l.segments@ == segments@,
    {
        SegmentList { segments }
    }

    /// The segments, taken out.
    pub fn into_segments(self) -> (s: Vec<Segment>)
        ensures
            s@ == self.segments@,
    {
        self.segments
    }
}


/// The larger of `a` and zero.
pub open spec fn pos_part(a: int) -> int {
    if a > 0 { a } else { 0 }
}

/// Ascent and descent accumulated from (`asc`, `desc`) while walking `pts`,
/// where `prev` is the last elevation seen; points without elevation are skipped.
pub open spec fn gain_acc(prev: Option<int>, asc: int, desc: int, pts: Seq<Coordinate>) -> (int, int)
    decreases pts.len(),
{
    if pts.len() == 0 {
        (asc, desc)
    } else {
        match pts[0].elevation {
            Some(e) => match prev {
                Some(p) => gain_acc(Some(e@), asc + pos_part(e@ - p), desc + pos_part(p - e@), pts.drop_first()),
                None => gain_acc(Some(e@), asc, desc, pts.drop_first()),
            },
            None => gain_acc(prev, asc, desc, pts.drop_first()),
        }
    }
}

/// Total ascent and descent along the points of one segment.
pub open spec fn segment_gain(pts: Seq<Coordinate>) -> (int, int) {
    gain_acc(None, 0, 0, pts)
}

/// Total ascent and descent of the segments `segs`, each counted on its own.
pub open spec fn list_gain(segs: Seq<Segment>) -> (int, int)
    decreases segs.len(),
{
    if segs.len() == 0 {
        (0, 0)
    } else {
        let (a, d) = list_gain(segs.drop_last());
        let (sa, sd) = segment_gain(segs.last().points@);
        (a + sa, d + sd)
    }
}

proof fn lemma_gain_acc_grows(prev: Option<int>, asc: int, desc: int, pts: Seq<Coordinate>)
    ensures
        gain_acc(prev, asc, desc, pts).0 >= asc,
        gain_acc(prev, asc, desc, pts).1 >= desc,
    decreases pts.len(),
{
    if pts.len() > 0 {
        match pts[0].elevation {
            Some(e) => match prev {
                Some(p) => lemma_gain_acc_grows(Some(e@), asc + pos_part(e@ - p), desc + pos_part(p - e@), pts.drop_first()),
                None => lemma_gain_acc_grows(Some(e@), asc, desc, pts.drop_first()),
            },
            None => lemma_gain_acc_grows(prev, asc, desc, pts.drop_first()),
        }
    }
}

/// The elevation known last along `pts`, `prev` when none of them has one.
pub open spec fn last_known(prev: Option<int>, pts: Seq<Coordinate>) -> Option<int>
    decreases pts.len(),
{
    if pts.len() == 0 {
        prev
    } else {
        match pts[0].elevation {
            Some(e) => last_known(Some(e@), pts.drop_first()),
            None => last_known(prev, pts.drop_first()),
        }
    }
}

/// The first elevation known along `pts`, if any.
pub open spec fn first_known(pts: Seq<Coordinate>) -> Option<int>
    decreases pts.len(),
{
    if pts.len() == 0 {
        None
    } else {
        match pts[0].elevation {
            Some(e) => Some(e@),
            None => first_known(pts.drop_first()),
        }
    }
}

/// Walking from a known elevation `p` to a point of known elevation `e`
/// adds the rise `e - p` to the ascent when it is positive and the drop
/// `p - e` to the descent when it is positive, however small.
pub proof fn gain_counts_each_rise_and_drop(p: int, asc: int, desc: int, c: Coordinate, rest: Seq<Coordinate>)
    requires
        c.elevation is Some,
    ensures
        ({
            let e = c.elevation.unwrap()@;
            gain_acc(Some(p), asc, desc, seq![c] + rest) == gain_acc(
                Some(e),
                asc + (if e > p { e - p } else { 0 }),
                desc + (if p > e { p - e } else { 0 }),
                rest,
            )
        }),
{
    assert((seq![c] + rest).drop_first() =~= rest);
    assert((seq![c] + rest)[0] == c);
}

/// From a known elevation `p`, ascent minus descent grows by exactly the
/// net rise up to the last known elevation.
pub proof fn gain_acc_net_rise(p: int, asc: int, desc: int, pts: Seq<Coordinate>)
    ensures
        last_known(Some(p), pts) is Some,
        gain_acc(Some(p), asc, desc, pts).0 - gain_acc(Some(p), asc, desc, pts).1 == asc - desc + last_known(
            Some(p),
            pts,
        ).unwrap() - p,
    decreases pts.len(),
{
    if pts.len() > 0 {
        match pts[0].elevation {
            Some(e) => {
                gain_acc_net_rise(e@, asc + pos_part(e@ - p), desc + pos_part(p - e@), pts.drop_first());
            },
            None => {
                gain_acc_net_rise(p, asc, desc, pts.drop_first());
            },
        }
    }
}

/// Along one segment, total ascent minus total descent is the net rise from
/// the first known elevation to the last (zero when fewer than two are
/// known); so a segment that only climbs has no descent and an ascent of its
/// whole rise.
pub proof fn segment_gain_is_net_rise(pts: Seq<Coordinate>)
    ensures
        segment_gain(pts).0 >= 0,
        segment_gain(pts).1 >= 0,
        segment_gain(pts).0 - segment_gain(pts).1 == (match first_known(pts) {
            Some(f) => last_known(None, pts).unwrap() - f,
            None => 0,
        }),
{
    lemma_gain_acc_grows(None, 0, 0, pts);
    lemma_gain_none_net_rise(0, 0, pts);
}

proof fn lemma_gain_none_net_rise(asc: int, desc: int, pts: Seq<Coordinate>)
    ensures
        first_known(pts) is Some ==> last_known(None, pts) is Some,
        gain_acc(None, asc, desc, pts).0 - gain_acc(None, asc, desc, pts).1 == asc - desc + (match first_known(pts) {
            Some(f) => last_known(None, pts).unwrap() - f,
            None => 0,
        }),
    decreases pts.len(),
{
    if pts.len() > 0 {
        match pts[0].elevation {
            Some(e) => {
                gain_acc_net_rise(e@, asc, desc, pts.drop_first());
            },
            None => {
                lemma_gain_none_net_rise(asc, desc, pts.drop_first());
            },
        }
    }
}

proof fn lemma_list_gain_prefix(segs: Seq<Segment>, i: int, j: int)
    requires
        0 <= i <= j <= segs.len(),
    ensures
        0 <= list_gain(segs.subrange(0, i)).0 <= list_gain(segs.subrange(0, j)).0,
        0 <= list_gain(segs.subrange(0, i)).1 <= list_gain(segs.subrange(0, j)).1,
    decreases j,
{
    if j > 0 {
        let sj = segs.subrange(0, j);
        assert(sj.drop_last() =~= segs.subrange(0, j - 1));
        lemma_gain_acc_grows(None, 0, 0, sj.last().points@);
        if i < j {
            lemma_list_gain_prefix(segs, i, j - 1);
        } else {
            lemma_list_gain_prefix(segs, i - 1, j - 1);
        }
    }
}

/// Corners of the smallest latitude/longitude box holding every point.
pub struct BoundingBox {
    pub min_coord: Coordinate,
    pub max_coord: Coordinate,
}

/// Whether segment `i` of `segs` has a point `j`.
pub open spec fn is_point(segs: Seq<Segment>, i: int, j: int) -> bool {
    0 <= i < segs.len() && 0 <= j < segs[i].points@.len()
}

/// Whether any segment of `segs` has a point.
pub open spec fn has_points(segs: Seq<Segment>) -> bool {
    exists|i: int, j: int| is_point(segs, i, j)
}

impl SegmentList {
    /// Total ascent and descent along the route, each segment walked on its
    /// own over the points whose elevation is known.
    pub fn calc_elevation_gain(&self) -> (r: (Elevation, Elevation))
        requires
            list_gain(self.segments@).0 <= i32::MAX,
            list_gain(self.segments@).1 <= i32::MAX,
        ensures
            r.0@ == list_gain(self.segments@).0,
            r.1@ == list_gain(self.segments@).1,
    {
        let segs = &self.segments;
        let n = segs.len();
        let mut asc_total: i64 = 0;
        let mut desc_total: i64 = 0;
        let mut i: usize = 0;
        while i < n
            invariant
                n == segs@.len(),
                i <= n,
                (asc_total as int, desc_total as int) == list_gain(segs@.subrange(0, i as int)),
                list_gain(segs@).0 <= i32::MAX,
                list_gain(segs@).1 <= i32::MAX,
            decreases n - i,
        {
            let pts = &segs[i].points;
            let m = pts.len();
            let ghost sp = pts@;
            let mut prev: Option<i64> = None;
            let mut asc: i64 = 0;
            let mut desc: i64 = 0;
            proof {
                lemma_list_gain_prefix(segs@, i as int, i + 1);
                lemma_list_gain_prefix(segs@, i + 1, n as int);
                assert(segs@.subrange(0, i + 1).drop_last() =~= segs@.subrange(0, i as int));
                assert(segs@.subrange(0, n as int) =~= segs@);
                assert(sp.skip(0) =~= sp);
                lemma_gain_acc_grows(None, 0, 0, sp);
            }
            let mut j: usize = 0;
            while j < m
                invariant
                    m == sp.len(),
                    sp == pts@,
                    j <= m,
                    gain_acc(match prev { Some(p) => Some(p as int), None => None }, asc as int, desc as int, sp.skip(j as int))
                        == segment_gain(sp),
                    0 <= asc <= segment_gain(sp).0,
                    0 <= desc <= segment_gain(sp).1,
                    segment_gain(sp).0 <= i32::MAX,
                    segment_gain(sp).1 <= i32::MAX,
                    prev matches Some(p) ==> i32::MIN <= p <= i32::MAX,
                decreases m - j,
            {
                let ghost rest = sp.skip(j as int);
                assert(rest[0] == sp[j as int]);
                assert(rest.drop_first() =~= sp.skip(j + 1));
                match pts[j].elevation {
                    Some(e) => {
                        let ev = e.0 as i64;
                        match prev {
                            Some(p) => {
                                proof {
                                    lemma_gain_acc_grows(Some(ev as int), asc + pos_part(ev - p), desc + pos_part(p - ev), sp.skip(j + 1));
                                }
                                let up = if ev > p { ev - p } else { 0 };
                                let down = if p > ev { p - ev } else { 0 };
                                asc = asc + up;
                                desc = desc + down;
                            },
                            None => {},
                        }
                        prev = Some(ev);
                    },
                    None => {},
                }
                j = j + 1;
            }
            assert(sp.skip(m as int).len() == 0);
            asc_total = asc_total + asc;
            desc_total = desc_total + desc;
            i = i + 1;
        }
        assert(segs@.subrange(0, n as int) =~= segs@);
        proof {
            lemma_list_gain_prefix(segs@, n as int, n as int);
        }
        (Elevation::from_value(asc_total as i32), Elevation::from_value(desc_total as i32))
    }

    /// The distance held by the last point of the last segment; zero for an
    /// empty list. Refused when that segment has no points, or its last point
    /// holds no distance.
    pub fn get_total_distance(&self) -> (r: ApplicationResult<Distance>)
        ensures
            ({
                let segs = self.segments@;
                if segs.len() == 0 {
                    r matches Ok(d) && d@ == 0
                } else {
                    let pts = segs.last().points@;
                    &&& (r is Ok <==> pts.len() > 0 && pts.last().distance_from_start is Some)
                    &&& r matches Ok(d) ==> Some(d) == pts.last().distance_from_start
                    &&& r matches Err(e) ==> e is DomainError
                }
            }),
    {
        let n = self.segments.len();
        if n == 0 {
            return Ok(Distance::zero());
        }
        let last_seg = &self.segments[n - 1];
        let m = last_seg.points.len();
        if m == 0 {
            return Err(ApplicationError::DomainError(owned("Last segment cannot be empty at get_total_distance!")));
        }
        match last_seg.points[m - 1].distance_from_start {
            Some(d) => Ok(d),
            None => Err(ApplicationError::DomainError(owned("Failed to calculate total distance."))),
        }
    }

    /// The waypoints: where each segment starts, in order.
    pub fn gather_waypoints(&self) -> (r: Vec<Coordinate>)
        ensures
            r@ == self.segments@.map_values(|s: Segment| s.start),
    {
        let mut r: Vec<Coordinate> = Vec::new();
        let mut i: usize = 0;
        while i < self.segments.len()
            invariant
                i <= self.segments@.len(),
                r@ == self.segments@.subrange(0, i as int).map_values(|s: Segment| s.start),
            decreases self.segments@.len() - i,
        {
            r.push(self.segments[i].start);
            i = i + 1;
            assert(r@ =~= self.segments@.subrange(0, i as int).map_values(|s: Segment| s.start));
        }
        assert(self.segments@.subrange(0, i as int) =~= self.segments@);
        r
    }

    /// The segments without the final one-point segment (all but the last).
    pub fn into_segments_in_between(self) -> (r: Vec<Segment>)
        ensures
            self.segments@.len() == 0 ==> r@.len() == 0,
            self.segments@.len() > 0 ==> r@ == self.segments@.drop_last(),
    {
        let mut segments = self.segments;
        if segments.len() > 0 {
            segments.pop();
        }
        segments
    }

    /// The smallest box holding every point of every segment; refused when
    /// there is no point at all.
    pub fn calc_bounding_box(&self) -> (r: ApplicationResult<BoundingBox>)
        ensures
            r is Ok <==> has_points(self.segments@),
            r matches Ok(b) ==> {
                let segs = self.segments@;
                &&& b.min_coord.elevation is None && b.min_coord.distance_from_start is None
                &&& b.max_coord.elevation is None && b.max_coord.distance_from_start is None
                &&& forall|i: int, j: int| #[trigger] is_point(segs, i, j) ==> {
                    let c = segs[i].points@[j];
                    &&& b.min_coord.latitude@ <= c.latitude@ <= b.max_coord.latitude@
                    &&& b.min_coord.longitude@ <= c.longitude@ <= b.max_coord.longitude@
                }
                &&& exists|i: int, j: int| #[trigger] is_point(segs, i, j) && segs[i].points@[j].latitude == b.min_coord.latitude
                &&& exists|i: int, j: int| #[trigger] is_point(segs, i, j) && segs[i].points@[j].latitude == b.max_coord.latitude
                &&& exists|i: int, j: int| #[trigger] is_point(segs, i, j) && segs[i].points@[j].longitude == b.min_coord.longitude
                &&& exists|i: int, j: int| #[trigger] is_point(segs, i, j) && segs[i].points@[j].longitude == b.max_coord.longitude
            },
            r matches Err(e) ==> e is DomainError,
    {
        let segs = &self.segments;
        let n = segs.len();
        let mut found: Option<BoundingBox> = None;
        let mut i: usize = 0;
        while i < n
            invariant
                n == segs@.len(),
                i <= n,
                found is None <==> !(exists|a: int, c: int| is_point(segs@, a, c) && a < i),
                found matches Some(b) ==> {
                    &&& b.min_coord.elevation is None && b.min_coord.distance_from_start is None
                    &&& b.max_coord.elevation is None && b.max_coord.distance_from_start is None
                    &&& forall|a: int, c: int| #[trigger] is_point(segs@, a, c) && a < i ==> {
                        let p = segs@[a].points@[c];
                        &&& b.min_coord.latitude@ <= p.latitude@ <= b.max_coord.latitude@
                        &&& b.min_coord.longitude@ <= p.longitude@ <= b.max_coord.longitude@
                    }
                    &&& exists|a: int, c: int| #[trigger] is_point(segs@, a, c) && a < i && segs@[a].points@[c].latitude == b.min_coord.latitude
                    &&& exists|a: int, c: int| #[trigger] is_point(segs@, a, c) && a < i && segs@[a].points@[c].latitude == b.max_coord.latitude
                    &&& exists|a: int, c: int| #[trigger] is_point(segs@, a, c) && a < i && segs@[a].points@[c].longitude == b.min_coord.longitude
                    &&& exists|a: int, c: int| #[trigger] is_point(segs@, a, c) && a < i && segs@[a].points@[c].longitude == b.max_coord.longitude
                },
            decreases n - i,
        {
            let pts = &segs[i].points;
            let m = pts.len();
            let mut j: usize = 0;
            while j < m
                invariant
                    n == segs@.len(),
                    i < n,
                    m == pts@.len(),
                    pts@ == segs@[i as int].points@,
                    j <= m,
                    found is None <==> !(exists|a: int, c: int| is_point(segs@, a, c) && (a < i || (a == i && c < j))),
                    found matches Some(b) ==> {
                        &&& b.min_coord.elevation is None && b.min_coord.distance_from_start is None
                        &&& b.max_coord.elevation is None && b.max_coord.distance_from_start is None
                        &&& forall|a: int, c: int| #[trigger] is_point(segs@, a, c) && (a < i || (a == i && c < j)) ==> {
                            let p = segs@[a].points@[c];
                            &&& b.min_coord.latitude@ <= p.latitude@ <= b.max_coord.latitude@
                            &&& b.min_coord.longitude@ <= p.longitude@ <= b.max_coord.longitude@
                        }
                        &&& exists|a: int, c: int| #[trigger] is_point(segs@, a, c) && (a < i || (a == i && c < j)) && segs@[a].points@[c].latitude == b.min_coord.latitude
                        &&& exists|a: int, c: int| #[trigger] is_point(segs@, a, c) && (a < i || (a == i && c < j)) && segs@[a].points@[c].latitude == b.max_coord.latitude
                        &&& exists|a: int, c: int| #[trigger] is_point(segs@, a, c) && (a < i || (a == i && c < j)) && segs@[a].points@[c].longitude == b.min_coord.longitude
                        &&& exists|a: int, c: int| #[trigger] is_point(segs@, a, c) && (a < i || (a == i && c < j)) && segs@[a].points@[c].longitude == b.max_coord.longitude
                    },
                decreases m - j,
            {
                let p = pts[j];
                assert(is_point(segs@, i as int, j as int));
                match found {
                    None => {
                        let c = Coordinate {
                            latitude: p.latitude,
                            longitude: p.longitude,
                            elevation: None,
                            distance_from_start: None,
                        };
                        found = Some(BoundingBox { min_coord: c, max_coord: c });
                    },
                    Some(b) => {
                        let mut b = b;
                        if p.latitude.value() < b.min_coord.latitude.value() {
                            b.min_coord.latitude = p.latitude;
                        }
                        if p.longitude.value() < b.min_coord.longitude.value() {
                            b.min_coord.longitude = p.longitude;
                        }
                        if p.latitude.value() > b.max_coord.latitude.value() {
                            b.max_coord.latitude = p.latitude;
                        }
                        if p.longitude.value() > b.max_coord.longitude.value() {
                            b.max_coord.longitude = p.longitude;
                        }
                        found = Some(b);
                    },
                }
                j = j + 1;
            }
            i = i + 1;
        }
        match found {
            Some(b) => Ok(b),
            None => Err(ApplicationError::DomainError(owned("Cannot calc_bounding_box on an empty SegmentList"))),
        }
    }
}


/// `c` with the elevation `e` if it had none.
pub open spec fn with_elevation_if_missing(c: Coordinate, e: Option<Elevation>) -> Coordinate {
    if c.elevation is None {
        Coordinate { elevation: e, ..c }
    } else {
        c
    }
}

impl SegmentList {
    /// Gives every point without an elevation the looked-up one:
    /// `elevations[i][j]` is the elevation found for point `j` of segment `i`
    /// (entries for points that already hold an elevation are not used).
    pub fn attach_elevations(&mut self, elevations: &Vec<Vec<Option<Elevation>>>)
        requires
            elevations@.len() == old(self).segments@.len(),
            forall|i: int| 0 <= i < elevations@.len() ==> (#[trigger] elevations@[i])@.len() == old(self).segments@[i].points@.len(),
        ensures
            final(self).segments@.len() == old(self).segments@.len(),
            forall|i: int| 0 <= i < old(self).segments@.len() ==> {
                &&& same_frame(#[trigger] final(self).segments@[i], old(self).segments@[i])
                &&& final(self).segments@[i].points@.len() == old(self).segments@[i].points@.len()
                &&& forall|j: int| 0 <= j < old(self).segments@[i].points@.len() ==>
                    #[trigger] final(self).segments@[i].points@[j] == with_elevation_if_missing(
                        old(self).segments@[i].points@[j], elevations@[i]@[j])
            },
    {
        let n = self.segments.len();
        let mut i: usize = 0;
        while i < n
            invariant
                n == self.segments@.len(),
                n == old(self).segments@.len(),
                i <= n,
                elevations@.len() == n,
                forall|k: int| 0 <= k < n ==> (#[trigger] elevations@[k])@.len() == old(self).segments@[k].points@.len(),
                forall|k: int| i <= k < n ==> #[trigger] self.segments@[k] == old(self).segments@[k],
                forall|k: int| 0 <= k < i ==> {
                    &&& same_frame(#[trigger] self.segments@[k], old(self).segments@[k])
                    &&& self.segments@[k].points@.len() == old(self).segments@[k].points@.len()
                    &&& forall|j: int| 0 <= j < old(self).segments@[k].points@.len() ==>
                        #[trigger] self.segments@[k].points@[j] == with_elevation_if_missing(
                            old(self).segments@[k].points@[j], elevations@[k]@[j])
                },
            decreases n - i,
        {
            let lookups = &elevations[i];
            let seg = &mut self.segments[i];
            let ghost org = seg.points@;
            let ghost seg0 = *seg;
            let m = seg.points.len();
            let mut j: usize = 0;
            while j < m
                invariant
                    m == seg.points@.len(),
                    m == org.len(),
                    lookups@.len() == m,
                    j <= m,
                    forall|l: int| j <= l < m ==> #[trigger] seg.points@[l] == org[l],
                    forall|l: int| 0 <= l < j ==> #[trigger] seg.points@[l] == with_elevation_if_missing(org[l], lookups@[l]),
                    seg.id@ == seg0.id@,
                    seg.start == seg0.start,
                    seg.goal == seg0.goal,
                    seg.mode == seg0.mode,
                decreases m - j,
            {
                let mut c = seg.points[j];
                if c.elevation.is_none() {
                    c.elevation = lookups[j];
                }
                seg.points.set(j, c);
                j = j + 1;
            }
            i = i + 1;
        }
    }
}


/// The step lists as sequences.
pub open spec fn steps_view(steps: Seq<Vec<Distance>>) -> Seq<Seq<Distance>> {
    steps.map_values(|v: Vec<Distance>| v@)
}

/// The points of `seg` after distances within the segment are computed from
/// `steps` (kept as they are when the segment already holds distances).
pub open spec fn local_distances(seg: Segment, steps: Seq<Distance>) -> Seq<Coordinate> {
    if points_have_distance(seg.points@) {
        seg.points@
    } else {
        Seq::new(seg.points@.len(), |j: int| with_distance(seg.points@[j], prefix_sum(steps, j)))
    }
}

/// Where segment `i` starts along the route: the lengths of the segments before it.
pub open spec fn offset_before(segs: Seq<Segment>, steps: Seq<Seq<Distance>>, i: int) -> int
    decreases i,
{
    if i <= 0 {
        0
    } else {
        offset_before(segs, steps, i - 1) + last_distance(local_distances(segs[i - 1], steps[i - 1]))
    }
}

/// The points of segment `i` with distances from the start of the route.
pub open spec fn attached_distances(segs: Seq<Segment>, steps: Seq<Seq<Distance>>, i: int) -> Seq<Coordinate> {
    let l = local_distances(segs[i], steps[i]);
    l.map_values(|c: Coordinate| shift_distance(c, offset_before(segs, steps, i) - first_distance(l)))
}

/// Whether every distance that attaching computes fits in an `i64`.
pub open spec fn distances_fit(segs: Seq<Segment>, steps: Seq<Seq<Distance>>) -> bool {
    &&& forall|i: int| 0 <= i < segs.len() && !points_have_distance(segs[i].points@) ==>
        forall|j: int| 0 <= j < (#[trigger] segs[i]).points@.len() ==>
            i64::MIN <= #[trigger] prefix_sum(steps[i], j) <= i64::MAX
    &&& forall|i: int| 0 <= i <= segs.len() ==> i64::MIN <= #[trigger] offset_before(segs, steps, i) <= i64::MAX
    &&& forall|i: int, j: int| 0 <= i < segs.len() && 0 <= j < (#[trigger] local_distances(segs[i], steps[i])).len()
        && local_distances(segs[i], steps[i])[j].distance_from_start is Some ==>
        i64::MIN <= #[trigger] local_distances(segs[i], steps[i])[j].distance_from_start.unwrap()@
            - first_distance(local_distances(segs[i], steps[i])) + offset_before(segs, steps, i) <= i64::MAX
}

impl SegmentList {
    /// Gives every point its distance from the start of the route. Segments
    /// without distances first get them from `steps[i]` (`steps[i][j]` is the
    /// distance from point `j` to point `j + 1` of segment `i`); then each
    /// segment is moved to start where the segments before it end.
    pub fn attach_distance_from_start(&mut self, steps: &Vec<Vec<Distance>>)
        requires
            steps@.len() == old(self).segments@.len(),
            forall|i: int| 0 <= i < old(self).segments@.len() ==> (#[trigger] old(self).segments@[i]).points@.len() >= 1,
            forall|i: int| 0 <= i < old(self).segments@.len() && !points_have_distance(old(self).segments@[i].points@)
                ==> (#[trigger] steps@[i])@.len() + 1 == old(self).segments@[i].points@.len(),
            distances_fit(old(self).segments@, steps_view(steps@)),
        ensures
            final(self).segments@.len() == old(self).segments@.len(),
            forall|i: int| 0 <= i < old(self).segments@.len() ==> {
                &&& same_frame(#[trigger] final(self).segments@[i], old(self).segments@[i])
                &&& final(self).segments@[i].points@ == attached_distances(old(self).segments@, steps_view(steps@), i)
            },
    {
        let ghost segs0 = self.segments@;
        let ghost sv = steps_view(steps@);
        let n = self.segments.len();
        let mut i: usize = 0;
        while i < n
            invariant
                n == self.segments@.len(),
                n == segs0.len(),
                sv == steps_view(steps@),
                steps@.len() == n,
                i <= n,
                forall|k: int| 0 <= k < n ==> (#[trigger] segs0[k]).points@.len() >= 1,
                forall|k: int| 0 <= k < n && !points_have_distance(segs0[k].points@)
                    ==> (#[trigger] steps@[k])@.len() + 1 == segs0[k].points@.len(),
                distances_fit(segs0, sv),
                forall|k: int| i <= k < n ==> #[trigger] self.segments@[k] == segs0[k],
                forall|k: int| 0 <= k < i ==> {
                    &&& same_frame(#[trigger] self.segments@[k], segs0[k])
                    &&& self.segments@[k].points@ == local_distances(segs0[k], sv[k])
                },
            decreases n - i,
        {
            let seg = &mut self.segments[i];
            if !seg.has_distance() {
                assert(sv[i as int] == steps@[i as int]@);
                assert forall|j: int| 0 <= j < seg.points@.len() implies i64::MIN <= #[trigger] prefix_sum(steps@[i as int]@, j) <= i64::MAX by {
                    assert(segs0[i as int] == segs0[i as int]);
                }
                seg.calc_distance_from_start(&steps[i]);
                assert(seg.points@ =~= local_distances(segs0[i as int], sv[i as int]));
            }
            i = i + 1;
        }
        let mut offset: i64 = 0;
        let mut i: usize = 0;
        while i < n
            invariant
                n == self.segments@.len(),
                n == segs0.len(),
                i <= n,
                distances_fit(segs0, sv),
                offset == offset_before(segs0, sv, i as int),
                forall|k: int| i <= k < n ==> {
                    &&& same_frame(#[trigger] self.segments@[k], segs0[k])
                    &&& self.segments@[k].points@ == local_distances(segs0[k], sv[k])
                },
                forall|k: int| 0 <= k < i ==> {
                    &&& same_frame(#[trigger] self.segments@[k], segs0[k])
                    &&& self.segments@[k].points@ == attached_distances(segs0, sv, k)
                },
            decreases n - i,
        {
            let seg = &mut self.segments[i];
            let d = seg.get_distance();
            let ghost l = local_distances(segs0[i as int], sv[i as int]);
            assert forall|j: int| 0 <= j < seg.points@.len() && (#[trigger] seg.points@[j]).distance_from_start is Some
                implies i64::MIN <= seg.points@[j].distance_from_start.unwrap()@ - first_distance(seg.points@) + offset@ <= i64::MAX by {
                assert(l[j] == seg.points@[j]);
            }
            seg.set_distance_offset(Distance(offset));
            assert(seg.points@ =~= attached_distances(segs0, sv, i as int));
            assert(offset_before(segs0, sv, i + 1) == offset + d@);
            assert(i64::MIN <= offset_before(segs0, sv, i + 1) <= i64::MAX);
            offset = offset + d.0;
            i = i + 1;
        }
    }

    /// The indices of the segments that have no points yet, in order.
    pub fn empty_segment_indices(&self) -> (r: Vec<usize>)
        ensures
            forall|k: int| 0 <= k < r@.len() ==> (#[trigger] r@[k]) < self.segments@.len()
                && self.segments@[r@[k] as int].points@.len() == 0,
            forall|i: int| 0 <= i < self.segments@.len() && (#[trigger] self.segments@[i]).points@.len() == 0
                ==> r@.contains(i as usize),
            forall|k: int, l: int| 0 <= k < l < r@.len() ==> r@[k] < r@[l],
    {
        let mut r: Vec<usize> = Vec::new();
        let mut i: usize = 0;
        while i < self.segments.len()
            invariant
                i <= self.segments@.len(),
                forall|k: int| 0 <= k < r@.len() ==> (#[trigger] r@[k]) < i
                    && self.segments@[r@[k] as int].points@.len() == 0,
                forall|j: int| 0 <= j < i && (#[trigger] self.segments@[j]).points@.len() == 0
                    ==> r@.contains(j as usize),
                forall|k: int, l: int| 0 <= k < l < r@.len() ==> r@[k] < r@[l],
            decreases self.segments@.len() - i,
        {
            let ghost old_r = r@;
            if self.segments[i].points.len() == 0 {
                r.push(i);
                assert(r@[r@.len() - 1] == i);
            }
            assert forall|j: int| 0 <= j < i + 1 && (#[trigger] self.segments@[j]).points@.len() == 0
                implies r@.contains(j as usize) by {
                if j < i {
                    assert(old_r.contains(j as usize));
                    let k = choose|k: int| 0 <= k < old_r.len() && old_r[k] == j as usize;
                    assert(r@[k] == old_r[k]);
                } else {
                    assert(r@[r@.len() - 1] == i);
                }
            }
            i = i + 1;
        }
        r
    }

    /// Fills the empty segment at index `i` with `points` (see
    /// [`Segment::set_points`]); refused when it already has points.
    pub fn set_points_at(&mut self, i: usize, points: Vec<Coordinate>) -> (r: ApplicationResult<()>)
        requires
            i < old(self).segments@.len(),
        ensures
            final(self).segments@.len() == old(self).segments@.len(),
            forall|k: int| 0 <= k < old(self).segments@.len() && k != i ==> #[trigger] final(self).segments@[k] == old(self).segments@[k],
            same_frame(final(self).segments@[i as int], old(self).segments@[i as int]),
            r is Ok <==> old(self).segments@[i as int].points@.len() == 0,
            r is Ok ==> final(self).segments@[i as int].points@ == with_endpoints(
                old(self).segments@[i as int].start, old(self).segments@[i as int].goal, points@),
            r is Err ==> final(self).segments@[i as int].points@ == old(self).segments@[i as int].points@,
            r matches Err(e) ==> e is DomainError,
    {
        self.segments[i].set_points(points)
    }
}

} // verus!
