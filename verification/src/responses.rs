//! What the route and user use cases take in and answer.
use vstd::prelude::*;

use crate::coordinate::Coordinate;
use crate::error::ApplicationResult;
use crate::permission::PermissionType;
use crate::route::Route;
use crate::route_info::{RouteId, RouteInfo};
use crate::segment::{DrawingMode, Segment};
use crate::segment_list::list_gain;
use crate::user::{UserField, UserId};
use crate::values::{Distance, Elevation};

verus! {

/// Asks for a new route named `name`.
pub struct RouteCreateRequest {
    pub name: String,
}

/// Asks to add or move a waypoint to `coord`, drawing by `mode`.
pub struct NewPointRequest {
    pub mode: DrawingMode,
    pub coord: Coordinate,
}

/// Asks to remove a waypoint, redrawing by `mode`.
pub struct RemovePointRequest {
    pub mode: DrawingMode,
}

/// Asks to rename a route.
pub struct RouteRenameRequest {
    pub name: String,
}

/// Asks to give `user_id` the permission `permission_type` on a route.
pub struct UpdatePermissionRequest {
    pub user_id: UserId,
    pub permission_type: PermissionType,
}

/// Asks to take away the permission of `user_id` on a route.
pub struct DeletePermissionRequest {
    pub user_id: UserId,
}

/// The id of a created route.
pub struct RouteCreateResponse {
    pub id: RouteId,
}

/// The stored information of all routes.
pub struct RouteGetAllResponse {
    pub route_infos: Vec<RouteInfo>,
}

/// A route as shown to a client.
pub struct RouteGetResponse {
    pub route_info: RouteInfo,
    pub waypoints: Vec<Coordinate>,
    pub segments: Vec<Segment>,
    pub elevation_gain: Elevation,
    pub total_distance: Distance,
}

/// A route's drawing after an edit.
pub struct RouteOperationResponse {
    pub waypoints: Vec<Coordinate>,
    pub segments: Vec<Segment>,
    pub elevation_gain: Elevation,
    pub total_distance: Distance,
}

/// Whether the length of the route can be read off its segments: there are
/// none, or the last one ends with a point that holds a distance.
pub open spec fn has_total_distance(route: Route) -> bool {
    let segs = route.seg_list.segments@;
    segs.len() == 0 || (segs.last().points@.len() > 0 && segs.last().points@.last().distance_from_start is Some)
}

/// The length of the route when it can be read off its segments.
pub open spec fn total_distance_of(route: Route) -> int {
    let segs = route.seg_list.segments@;
    if segs.len() == 0 {
        0
    } else {
        segs.last().points@.last().distance_from_start.unwrap()@
    }
}

impl RouteOperationResponse {
    /// The drawing of `route`: its waypoints, its segments but the final
    /// one-point one, its total ascent and its length. Refused when the length
    /// cannot be read off the segments.
    pub fn try_from(route: Route) -> (r: ApplicationResult<RouteOperationResponse>)
        requires
            list_gain(route.seg_list.segments@).0 <= i32::MAX,
            list_gain(route.seg_list.segments@).1 <= i32::MAX,
        ensures
            r is Ok <==> has_total_distance(route),
            r matches Ok(resp) ==> {
                let segs = route.seg_list.segments@;
                &&& resp.waypoints@ == segs.map_values(|s: Segment| s.start)
                &&& resp.elevation_gain@ == list_gain(segs).0
                &&& resp.total_distance@ == total_distance_of(route)
                &&& (segs.len() == 0 ==> resp.segments@.len() == 0)
                &&& (segs.len() > 0 ==> resp.segments@ == segs.drop_last())
            },
            r matches Err(e) ==> e is DomainError,
    {
        let waypoints = route.gather_waypoints();
        let (ascent, _descent) = route.calc_elevation_gain();
        let total_distance = route.get_total_distance()?;
        let segments = route.into_segments_in_between();
        Ok(RouteOperationResponse { waypoints, segments, elevation_gain: ascent, total_distance })
    }
}

impl RouteGetResponse {
    /// The route as shown to a client: its information and its drawing (see
    /// [`RouteOperationResponse::try_from`]).
    pub fn try_from(route: Route) -> (r: ApplicationResult<RouteGetResponse>)
        requires
            list_gain(route.seg_list.segments@).0 <= i32::MAX,
            list_gain(route.seg_list.segments@).1 <= i32::MAX,
        ensures
            r is Ok <==> has_total_distance(route),
            r matches Ok(resp) ==> {
                let segs = route.seg_list.segments@;
                &&& resp.route_info == route.info
                &&& resp.waypoints@ == segs.map_values(|s: Segment| s.start)
                &&& resp.elevation_gain@ == list_gain(segs).0
                &&& resp.total_distance@ == total_distance_of(route)
                &&& (segs.len() == 0 ==> resp.segments@.len() == 0)
                &&& (segs.len() > 0 ==> resp.segments@ == segs.drop_last())
            },
            r matches Err(e) ==> e is DomainError,
    {
        let waypoints = route.gather_waypoints();
        let (ascent, _descent) = route.calc_elevation_gain();
        let total_distance = route.get_total_distance()?;
        let (info, _ops, seg_list) = route.into_parts();
        let segments = seg_list.into_segments_in_between();
        Ok(RouteGetResponse { route_info: info, waypoints, segments, elevation_gain: ascent, total_distance })
    }
}

/// The id of a created user.
pub struct UserCreateResponse {
    pub id: UserId,
}

/// Why a field of a user form was turned down.
#[derive(Clone, Copy, Debug, PartialEq, Eq, Structural)]
pub enum ValidationErrorCode {
    InvalidFormat,
    AlreadyExists,
    ReservedWord,
}

/// The problems found with a user form, at most one per field.
pub struct UserValidateResponse {
    entries: Vec<(UserField, ValidationErrorCode)>,
}

/// Whether no field appears twice in `s`.
pub open spec fn keys_unique(s: Seq<(UserField, ValidationErrorCode)>) -> bool {
    forall|i: int, j: int| 0 <= i < s.len() && 0 <= j < s.len() && i != j ==> s[i].0 != s[j].0
}

/// The map from field to code that the entries `s` hold.
pub open spec fn entries_map(s: Seq<(UserField, ValidationErrorCode)>) -> Map<UserField, ValidationErrorCode> {
    Map::new(
        |f: UserField| exists|i: int| 0 <= i < s.len() && s[i].0 == f,
        |f: UserField| s[choose|i: int| 0 <= i < s.len() && s[i].0 == f].1,
    )
}

impl View for UserValidateResponse {
    type V = Map<UserField, ValidationErrorCode>;

    closed spec fn view(&self) -> Map<UserField, ValidationErrorCode> {
        entries_map(self.entries@)
    }
}

proof fn lemma_entries_map_set(
    s: Seq<(UserField, ValidationErrorCode)>,
    t: Seq<(UserField, ValidationErrorCode)>,
    k: int,
    field: UserField,
    code: ValidationErrorCode,
)
    requires
        keys_unique(s),
        0 <= k <= s.len(),
        k < s.len() ==> s[k].0 == field && t == s.update(k, (field, code)),
        k == s.len() ==> (forall|i: int| 0 <= i < s.len() ==> s[i].0 != field) && t == s.push((field, code)),
    ensures
        keys_unique(t),
        entries_map(t) == entries_map(s).insert(field, code),
{
    assert forall|i: int, j: int| 0 <= i < t.len() && 0 <= j < t.len() && i != j implies t[i].0 != t[j].0 by {
        if i < s.len() && j < s.len() {
            assert(s[i].0 != s[j].0);
        }
    }
    let a = entries_map(t);
    let b = entries_map(s).insert(field, code);
    assert forall|g: UserField| a.contains_key(g) == b.contains_key(g) by {
        if g != field {
            if a.contains_key(g) {
                let i = choose|i: int| 0 <= i < t.len() && t[i].0 == g;
                assert(s[i].0 == g);
            }
            if entries_map(s).contains_key(g) {
                let i = choose|i: int| 0 <= i < s.len() && s[i].0 == g;
                assert(t[i].0 == g);
            }
        } else {
            assert(t[k].0 == field);
        }
    }
    assert forall|g: UserField| #[trigger] a.contains_key(g) implies a[g] == b[g] by {
        let i = choose|i: int| 0 <= i < t.len() && t[i].0 == g;
        if g == field {
            assert(t[k].0 == field);
        } else {
            assert(s[i].0 == g);
            let j = choose|j: int| 0 <= j < s.len() && s[j].0 == g;
            assert(i == j);
        }
    }
    assert(a =~= b);
}

impl UserValidateResponse {
    #[verifier::type_invariant]
    spec fn inv(self) -> bool {
        keys_unique(self.entries@)
    }

    /// No problems.
    pub fn new() -> (r: UserValidateResponse)
        ensures
            r@ == Map::<UserField, ValidationErrorCode>::empty(),
    {
        let r = UserValidateResponse { entries: Vec::new() };
        assert(r@ =~= Map::<UserField, ValidationErrorCode>::empty());
        r
    }

    /// Records `code` for `field`, replacing what was recorded for it.
    pub fn insert(&mut self, field: UserField, code: ValidationErrorCode)
        ensures
            final(self)@ == old(self)@.insert(field, code),
    {
        proof { use_type_invariant(&*self); }
        let mut entries: Vec<(UserField, ValidationErrorCode)> = Vec::new();
        std::mem::swap(&mut entries, &mut self.entries);
        let ghost old_entries = entries@;
        let n = entries.len();
        let mut i: usize = 0;
        while i < n && entries[i].0 != field
            invariant
                n == entries@.len(),
                entries@ == old_entries,
                i <= n,
                forall|k: int| 0 <= k < i ==> entries@[k].0 != field,
            decreases n - i,
        {
            i = i + 1;
        }
        if i < n {
            entries.set(i, (field, code));
        } else {
            entries.push((field, code));
        }
        proof {
            lemma_entries_map_set(old_entries, entries@, i as int, field, code);
        }
        self.entries = entries;
    }

    /// The code recorded for `field`, if any.
    pub fn get(&self, field: UserField) -> (r: Option<ValidationErrorCode>)
        ensures
            r == (if self@.contains_key(field) { Some(self@[field]) } else { None }),
    {
        proof { use_type_invariant(self); }
        let n = self.entries.len();
        let mut i: usize = 0;
        while i < n
            invariant
                n == self.entries@.len(),
                i <= n,
                keys_unique(self.entries@),
                forall|k: int| 0 <= k < i ==> self.entries@[k].0 != field,
            decreases n - i,
        {
            if self.entries[i].0 == field {
                proof {
                    let j = choose|j: int| 0 <= j < self.entries@.len() && self.entries@[j].0 == field;
                    assert(j == i);
                }
                return Some(self.entries[i].1);
            }
            i = i + 1;
        }
        None
    }

    /// The recorded problems, as (field, code) pairs.
    pub fn entries(&self) -> (r: &Vec<(UserField, ValidationErrorCode)>)
        ensures
            entries_map(r@) == self@,
    {
        &self.entries
    }
}


/// The code answered for `field` of a user form: a reserved or taken id, a
/// taken e-mail address, else a malformed field (one of `format_errors`).
pub open spec fn expected_code(
    field: UserField,
    format_errors: Seq<UserField>,
    id_reserved: Option<bool>,
    id_in_use: Option<bool>,
    email_taken: Option<bool>,
) -> Option<ValidationErrorCode> {
    if field == UserField::Id && id_reserved == Some(true) {
        Some(ValidationErrorCode::ReservedWord)
    } else if field == UserField::Id && id_in_use == Some(true) {
        Some(ValidationErrorCode::AlreadyExists)
    } else if field == UserField::Email && email_taken == Some(true) {
        Some(ValidationErrorCode::AlreadyExists)
    } else if format_errors.contains(field) {
        Some(ValidationErrorCode::InvalidFormat)
    } else {
        None
    }
}

impl UserValidateResponse {
    /// The answer to a user form check: `format_errors` are the malformed
    /// fields; `id_reserved`, `id_in_use` and `email_taken` are what the
    /// lookups found (`None` when not looked up).
    pub fn from_checks(
        format_errors: &Vec<UserField>,
        id_reserved: Option<bool>,
        id_in_use: Option<bool>,
        email_taken: Option<bool>,
    ) -> (r: UserValidateResponse)
        ensures
            forall|f: UserField| #![trigger r@.contains_key(f)]
                (r@.contains_key(f) <==> expected_code(f, format_errors@, id_reserved, id_in_use, email_taken) is Some)
                && (r@.contains_key(f) ==> Some(r@[f]) == expected_code(f, format_errors@, id_reserved, id_in_use, email_taken)),
    {
        let mut r = UserValidateResponse::new();
        let mut i: usize = 0;
        while i < format_errors.len()
            invariant
                i <= format_errors@.len(),
                forall|f: UserField| #![trigger r@.contains_key(f)]
                    (r@.contains_key(f) <==> format_errors@.subrange(0, i as int).contains(f))
                    && (r@.contains_key(f) ==> r@[f] == ValidationErrorCode::InvalidFormat),
            decreases format_errors@.len() - i,
        {
            let ghost before = r@;
            r.insert(format_errors[i], ValidationErrorCode::InvalidFormat);
            i = i + 1;
            proof {
                let sub = format_errors@.subrange(0, i as int);
                assert forall|f: UserField| #[trigger] sub.contains(f) implies r@.contains_key(f) by {
                    let k = choose|k: int| 0 <= k < sub.len() && sub[k] == f;
                    if k < i - 1 {
                        assert(format_errors@.subrange(0, i - 1)[k] == f);
                    }
                }
                assert forall|f: UserField| #[trigger] r@.contains_key(f) implies sub.contains(f) by {
                    if f == format_errors@[i - 1] {
                        assert(sub[i - 1] == f);
                    } else {
                        assert(before.contains_key(f));
                        let prev = format_errors@.subrange(0, i - 1);
                        let k = choose|k: int| 0 <= k < prev.len() && prev[k] == f;
                        assert(sub[k] == f);
                    }
                }
            }
        }
        assert(format_errors@.subrange(0, i as int) =~= format_errors@);
        if id_reserved == Some(true) {
            r.insert(UserField::Id, ValidationErrorCode::ReservedWord);
        } else if id_in_use == Some(true) {
            r.insert(UserField::Id, ValidationErrorCode::AlreadyExists);
        }
        if email_taken == Some(true) {
            r.insert(UserField::Email, ValidationErrorCode::AlreadyExists);
        }
        r
    }
}

} // verus!
