use vstd::prelude::*;

use crate::types::NanoId;
use crate::user::UserId;
use crate::values::{Distance, Elevation};

verus! {

/// Marks the ids of routes.
pub struct RouteMarker;

/// Identifier of a route.
pub type RouteId = NanoId<RouteMarker, 11>;

/// Time stamp that stands for "never" (the earliest representable instant).
pub const NO_TIME: i64 = i64::MIN;

/// What is stored of a route besides its edits and segments. Time stamps are
/// milliseconds since the Unix epoch.
pub struct RouteInfo {
    pub id: RouteId,
    pub name: String,
    pub owner_id: UserId,
    pub op_num: usize,
    pub ascent_elevation_gain: Elevation,
    pub descent_elevation_gain: Elevation,
    pub total_distance: Distance,
    pub created_at: i64,
    pub updated_at: i64,
}

/// Whether `new` is `old` with the name `name` and nothing else changed.
pub open spec fn renamed(old: RouteInfo, new: RouteInfo, name: Seq<char>) -> bool {
    &&& new.name@ == name
    &&& new.id == old.id
    &&& new.owner_id == old.owner_id
    &&& new.op_num == old.op_num
    &&& new.ascent_elevation_gain == old.ascent_elevation_gain
    &&& new.descent_elevation_gain == old.descent_elevation_gain
    &&& new.total_distance == old.total_distance
    &&& new.created_at == old.created_at
    &&& new.updated_at == old.updated_at
}

impl RouteInfo {
    /// A new route named `name` owned by `owner_id`, with a fresh id, no edits,
    /// zero gains and distance, and no time stamps yet.
    pub fn new(name: &str, owner_id: UserId) -> (info: RouteInfo)
        ensures
            info.name@ == name@,
            info.owner_id@ == owner_id@,
            info.id@.len() == 11,
            info.op_num == 0,
            info.ascent_elevation_gain@ == 0,
            info.descent_elevation_gain@ == 0,
            info.total_distance@ == 0,
            info.created_at == NO_TIME,
            info.updated_at == NO_TIME,
    {
        RouteInfo {
            id: RouteId::new(),
            name: String::from_str(name),
            owner_id,
            op_num: 0,
            ascent_elevation_gain: Elevation::zero(),
            descent_elevation_gain: Elevation::zero(),
            total_distance: Distance::zero(),
            created_at: NO_TIME,
            updated_at: NO_TIME,
        }
    }

    /// Renames the route; nothing else changes (see [`renamed`]).
    pub fn rename(&mut self, name: &str)
        ensures
            renamed(*old(self), *final(self), name@),
    {
        self.name = String::from_str(name);
    }

    /// Forgets the edit history position: the route counts no applied edits.
    pub fn clear_route(&mut self)
        ensures
            final(self).op_num == 0,
            final(self).name == old(self).name,
            final(self).id == old(self).id,
            final(self).owner_id == old(self).owner_id,
            final(self).ascent_elevation_gain == old(self).ascent_elevation_gain,
            final(self).descent_elevation_gain == old(self).descent_elevation_gain,
            final(self).total_distance == old(self).total_distance,
            final(self).created_at == old(self).created_at,
            final(self).updated_at == old(self).updated_at,
    {
        self.op_num = 0;
    }
}

} // verus!
