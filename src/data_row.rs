//! A copy of one level of a sounding.

use vstd::prelude::*;

use crate::missing_value::OptionVal;
use crate::float_bits::Real;

verus! {

/// A possibly missing floating-point value.
pub type Cell = OptionVal<Real>;

/// A copy of a row of the sounding data.
#[derive(Clone, Copy, Debug)]
pub struct DataRow {
    /// Pressure in hPa
    pub pressure: Cell,
    /// Temperature in C
    pub temperature: Cell,
    /// Wet bulb temperature in C
    pub wet_bulb: Cell,
    /// Dew point in C
    pub dew_point: Cell,
    /// Equivalent potential temperature in Kelvin
    pub theta_e: Cell,
    /// Wind direction (from) in degrees.
    pub direction: Cell,
    /// Wind speed in knots
    pub speed: Cell,
    /// Pressure vertical velocity in Pa/sec
    pub omega: Cell,
    /// Geopotential Height in meters
    pub height: Cell,
    /// Cloud fraction in percent
    pub cloud_fraction: Cell,
}

/// Whether every value of the row is missing.
pub open spec fn all_missing(r: DataRow) -> bool {
    &&& r.pressure@.is_none()
    &&& r.temperature@.is_none()
    &&& r.wet_bulb@.is_none()
    &&& r.dew_point@.is_none()
    &&& r.theta_e@.is_none()
    &&& r.direction@.is_none()
    &&& r.speed@.is_none()
    &&& r.omega@.is_none()
    &&& r.height@.is_none()
    &&& r.cloud_fraction@.is_none()
}

impl DataRow {
    /// A row with every value missing.
    pub fn new() -> (r: DataRow)
        ensures
            all_missing(r),
    {
        DataRow {
            pressure: OptionVal::none(),
            temperature: OptionVal::none(),
            wet_bulb: OptionVal::none(),
            dew_point: OptionVal::none(),
            theta_e: OptionVal::none(),
            direction: OptionVal::none(),
            speed: OptionVal::none(),
            omega: OptionVal::none(),
            height: OptionVal::none(),
            cloud_fraction: OptionVal::none(),
        }
    }
}

impl Default for DataRow {
    fn default() -> (r: DataRow)
        ensures
            all_missing(r),
    {
        DataRow::new()
    }
}

} // verus!
