//! Numeric value objects. Angles and lengths are held as integers in fixed
//! units: latitudes and longitudes in 1e-5 degrees (the precision of the
//! polylines that routes are stored as), distances in millimetres and
//! elevations in metres.
use vstd::prelude::*;

use crate::error::{ApplicationError, ApplicationResult};
use crate::text::owned;

verus! {

/// Lowest latitude, in 1e-5 degrees (-90°).
pub const LATITUDE_MIN: i32 = -9_000_000;
/// Highest latitude, in 1e-5 degrees (90°).
pub const LATITUDE_MAX: i32 = 9_000_000;
/// Lowest longitude, in 1e-5 degrees (-180°).
pub const LONGITUDE_MIN: i32 = -18_000_000;
/// Highest longitude, in 1e-5 degrees (180°).
pub const LONGITUDE_MAX: i32 = 18_000_000;

fn out_of_range() -> (e: ApplicationError)
    ensures
        e is ValueObjectError,
{
    ApplicationError::ValueObjectError(owned("Value out of range!"))
}

/// Integer value object without limits; used for elevations in metres.
#[derive(Clone, Copy, Debug, PartialEq, Eq, Structural)]
pub struct NumericValueObject(pub i32);

/// Elevation above sea level, in metres.
pub type Elevation = NumericValueObject;

impl View for NumericValueObject {
    type V = int;

    open spec fn view(&self) -> int {
        self.0 as int
    }
}

impl NumericValueObject {
    /// The range check of this value object is open: any `i32` is accepted.
    pub fn has_limit() -> (b: bool)
        ensures
            !b,
    {
        false
    }

    /// The smallest accepted value (`i32::MIN`, as there is no limit).
    pub fn min_value() -> (r: Self)
        ensures
            r@ == i32::MIN,
    {
        NumericValueObject(i32::MIN)
    }

    /// The largest accepted value (`i32::MAX`, as there is no limit).
    pub fn max_value() -> (r: Self)
        ensures
            r@ == i32::MAX,
    {
        NumericValueObject(i32::MAX)
    }

    /// The wrapped number.
    pub fn value(&self) -> (v: i32)
        ensures
            v == self@,
    {
        self.0
    }

    /// Zero.
    pub fn zero() -> (r: Self)
        ensures
            r@ == 0,
    {
        NumericValueObject(0)
    }

    /// Whether the value is zero.
    pub fn is_zero(&self) -> (b: bool)
        ensures
            b == (self@ == 0),
    {
        self.0 == 0
    }

    /// Every value lies in range, so validation always succeeds.
    pub fn validate(&self) -> (r: ApplicationResult<()>)
        ensures
            r is Ok,
    {
        Ok(())
    }

    /// Wraps `val`; always succeeds.
    pub fn try_from(val: i32) -> (r: ApplicationResult<Self>)
        ensures
            r matches Ok(e) && e@ == val,
    {
        Ok(NumericValueObject(val))
    }

    /// Wraps `val`.
    pub fn from_value(val: i32) -> (r: Self)
        ensures
            r@ == val,
    {
        NumericValueObject(val)
    }
}

/// A latitude in 1e-5 degrees, within [-90°, 90°].
#[derive(Clone, Copy, Debug, PartialEq, Eq, Structural)]
pub struct Latitude(i32);

impl View for Latitude {
    type V = int;

    closed spec fn view(&self) -> int {
        self.0 as int
    }
}

/// Type invariant of a latitude.
pub open spec fn latitude_in_range(v: int) -> bool {
    LATITUDE_MIN <= v <= LATITUDE_MAX
}

impl Latitude {
    #[verifier::type_invariant]
    spec fn inv(self) -> bool {
        latitude_in_range(self.0 as int)
    }

    /// Latitudes are range-checked.
    pub fn has_limit() -> (b: bool)
        ensures
            b,
    {
        true
    }

    /// -90°.
    pub fn min_value() -> (r: Self)
        ensures
            r@ == LATITUDE_MIN,
    {
        Latitude(LATITUDE_MIN)
    }

    /// 90°.
    pub fn max_value() -> (r: Self)
        ensures
            r@ == LATITUDE_MAX,
    {
        Latitude(LATITUDE_MAX)
    }

    /// The latitude in 1e-5 degrees.
    pub fn value(&self) -> (v: i32)
        ensures
            v == self@,
            latitude_in_range(v as int),
    {
        proof { use_type_invariant(self); }
        self.0
    }

    /// Accepts `val` exactly when it lies within [-90°, 90°].
    pub fn try_from(val: i32) -> (r: ApplicationResult<Self>)
        ensures
            r is Ok <==> latitude_in_range(val as int),
            r matches Ok(l) ==> l@ == val,
            r matches Err(e) ==> e is ValueObjectError,
    {
        if LATITUDE_MIN <= val && val <= LATITUDE_MAX {
            Ok(Latitude(val))
        } else {
            Err(out_of_range())
        }
    }
}

/// A longitude in 1e-5 degrees, within [-180°, 180°].
#[derive(Clone, Copy, Debug, PartialEq, Eq, Structural)]
pub struct Longitude(i32);

impl View for Longitude {
    type V = int;

    closed spec fn view(&self) -> int {
        self.0 as int
    }
}

/// Type invariant of a longitude.
pub open spec fn longitude_in_range(v: int) -> bool {
    LONGITUDE_MIN <= v <= LONGITUDE_MAX
}

impl Longitude {
    #[verifier::type_invariant]
    spec fn inv(self) -> bool {
        longitude_in_range(self.0 as int)
    }

    /// Longitudes are range-checked.
    pub fn has_limit() -> (b: bool)
        ensures
            b,
    {
        true
    }

    /// -180°.
    pub fn min_value() -> (r: Self)
        ensures
            r@ == LONGITUDE_MIN,
    {
        Longitude(LONGITUDE_MIN)
    }

    /// 180°.
    pub fn max_value() -> (r: Self)
        ensures
            r@ == LONGITUDE_MAX,
    {
        Longitude(LONGITUDE_MAX)
    }

    /// The longitude in 1e-5 degrees.
    pub fn value(&self) -> (v: i32)
        ensures
            v == self@,
            longitude_in_range(v as int),
    {
        proof { use_type_invariant(self); }
        self.0
    }

    /// Accepts `val` exactly when it lies within [-180°, 180°].
    pub fn try_from(val: i32) -> (r: ApplicationResult<Self>)
        ensures
            r is Ok <==> longitude_in_range(val as int),
            r matches Ok(l) ==> l@ == val,
            r matches Err(e) ==> e is ValueObjectError,
    {
        if LONGITUDE_MIN <= val && val <= LONGITUDE_MAX {
            Ok(Longitude(val))
        } else {
            Err(out_of_range())
        }
    }
}

/// A distance in millimetres. Construction checks it is not negative;
/// arithmetic on held distances may leave that range, as with the metres
/// the route planner computes with.
#[derive(Clone, Copy, Debug, PartialEq, Eq, Structural)]
pub struct Distance(pub i64);

impl View for Distance {
    type V = int;

    open spec fn view(&self) -> int {
        self.0 as int
    }
}

impl Distance {
    /// Distances are range-checked on construction.
    pub fn has_limit() -> (b: bool)
        ensures
            b,
    {
        true
    }

    /// Zero, the smallest accepted distance.
    pub fn min_value() -> (r: Self)
        ensures
            r@ == 0,
    {
        Distance(0)
    }

    /// `i64::MAX`, the largest accepted distance.
    pub fn max_value() -> (r: Self)
        ensures
            r@ == i64::MAX,
    {
        Distance(i64::MAX)
    }

    /// The distance in millimetres.
    pub fn value(&self) -> (v: i64)
        ensures
            v == self@,
    {
        self.0
    }

    /// Zero.
    pub fn zero() -> (r: Self)
        ensures
            r@ == 0,
    {
        Distance(0)
    }

    /// Whether the distance is zero.
    pub fn is_zero(&self) -> (b: bool)
        ensures
            b == (self@ == 0),
    {
        self.0 == 0
    }

    /// Succeeds exactly when the value is not negative.
    pub fn validate(&self) -> (r: ApplicationResult<()>)
        ensures
            r is Ok <==> self@ >= 0,
            r matches Err(e) ==> e is ValueObjectError,
    {
        if self.0 >= 0 {
            Ok(())
        } else {
            Err(out_of_range())
        }
    }

    /// Accepts `val` exactly when it is not negative.
    pub fn try_from(val: i64) -> (r: ApplicationResult<Self>)
        ensures
            r is Ok <==> val >= 0,
            r matches Ok(d) ==> d@ == val,
            r matches Err(e) ==> e is ValueObjectError,
    {
        if val >= 0 {
            Ok(Distance(val))
        } else {
            Err(out_of_range())
        }
    }

    /// Wraps `val` without range check (the result of arithmetic on distances).
    pub fn from_value(val: i64) -> (r: Self)
        ensures
            r@ == val,
    {
        Distance(val)
    }
}

} // verus!
