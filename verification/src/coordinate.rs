use vstd::prelude::*;

use crate::error::{ApplicationError, ApplicationResult};
use crate::text::owned;
use crate::values::{Distance, Elevation, Latitude, Longitude, latitude_in_range, longitude_in_range};

verus! {

/// A point on the earth, with the elevation and the distance along the route
/// once they are known.
#[derive(Clone, Copy, Debug, PartialEq, Eq, Structural)]
pub struct Coordinate {
    pub latitude: Latitude,
    pub longitude: Longitude,
    pub elevation: Option<Elevation>,
    pub distance_from_start: Option<Distance>,
}

impl Coordinate {
    /// The point at latitude `lat` and longitude `lon` (both in 1e-5 degrees),
    /// with neither elevation nor distance; refused when either is out of range.
    pub fn new(lat: i32, lon: i32) -> (r: ApplicationResult<Coordinate>)
        ensures
            r is Ok <==> (latitude_in_range(lat as int) && longitude_in_range(lon as int)),
            r matches Ok(c) ==> {
                &&& c.latitude@ == lat
                &&& c.longitude@ == lon
                &&& c.elevation is None
                &&& c.distance_from_start is None
            },
            r matches Err(e) ==> e is ValueObjectError,
    {
        let latitude = Latitude::try_from(lat)?;
        let longitude = Longitude::try_from(lon)?;
        Ok(Coordinate { latitude, longitude, elevation: None, distance_from_start: None })
    }

    /// The latitude.
    pub fn latitude(&self) -> (l: &Latitude)
        ensures
            *l == self.latitude,
    {
        &self.latitude
    }

    /// The longitude.
    pub fn longitude(&self) -> (l: &Longitude)
        ensures
            *l == self.longitude,
    {
        &self.longitude
    }

    /// The elevation, if known.
    pub fn elevation(&self) -> (e: &Option<Elevation>)
        ensures
            *e == self.elevation,
    {
        &self.elevation
    }

    /// The distance from the start of the route, if known.
    pub fn distance_from_start(&self) -> (d: &Option<Distance>)
        ensures
            *d == self.distance_from_start,
    {
        &self.distance_from_start
    }

    /// Sets the elevation; refused when one is already set.
    pub fn set_elevation(&mut self, elevation: Option<Elevation>) -> (r: ApplicationResult<()>)
        ensures
            r is Ok <==> old(self).elevation is None,
            r is Ok ==> *final(self) == (Coordinate { elevation, ..*old(self) }),
            r is Err ==> *final(self) == *old(self),
            r matches Err(e) ==> e is DomainError,
    {
        if self.elevation.is_none() {
            self.elevation = elevation;
            Ok(())
        } else {
            Err(ApplicationError::DomainError(owned("Elevation already set for Coordinate.")))
        }
    }

    /// Sets (or replaces) the distance from the start of the route.
    pub fn set_distance_from_start(&mut self, distance: Distance)
        ensures
            *final(self) == (Coordinate { distance_from_start: Some(distance), ..*old(self) }),
    {
        self.distance_from_start = Some(distance);
    }
}

} // verus!
