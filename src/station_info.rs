//! Station information including location data and identification number.

use vstd::prelude::*;

use crate::data_row::Cell;
use crate::float_bits::Real;
use crate::missing_value::OptionVal;

verus! {

/// Station information including location data and identification number.
#[derive(Debug, Clone, Copy)]
pub struct StationInfo {
    /// station number, USAF number, eg 727730
    num: OptionVal<i32>,
    /// Latitude and longitude.
    location: Option<(Real, Real)>,
    /// Elevation in meters, this may be in model terrain which is not necessarily the same as
    /// the real world.
    elevation: Cell,
}

impl StationInfo {
    /// The station number.
    pub closed spec fn spec_num(&self) -> OptionVal<i32> {
        self.num
    }

    /// The latitude and longitude.
    pub closed spec fn spec_location(&self) -> Option<(Real, Real)> {
        self.location
    }

    /// The elevation in meters.
    pub closed spec fn spec_elevation(&self) -> Cell {
        self.elevation
    }

    /// Create a new `StationInfo` from its three values.
    pub fn new_with_values(
        station_num: OptionVal<i32>,
        location: Option<(Real, Real)>,
        elevation: Cell,
    ) -> (r: Self)
        ensures
            r.spec_num() == station_num,
            r.spec_location() == location,
            r.spec_elevation() == elevation,
    {
        StationInfo { num: station_num, location, elevation }
    }

    /// Create a new object with every value missing.
    pub fn new() -> (r: Self)
        ensures
            r.spec_num()@.is_none(),
            r.spec_location().is_none(),
            r.spec_elevation()@.is_none(),
    {
        StationInfo { num: OptionVal::none(), location: None, elevation: OptionVal::none() }
    }

    /// Builder method to add a station number.
    pub fn with_station(self, number: OptionVal<i32>) -> (r: Self)
        ensures
            r.spec_num() == number,
            r.spec_location() == self.spec_location(),
            r.spec_elevation() == self.spec_elevation(),
    {
        StationInfo { num: number, ..self }
    }

    /// Builder method to add a location.
    pub fn with_lat_lon(self, coords: Option<(Real, Real)>) -> (r: Self)
        ensures
            r.spec_num() == self.spec_num(),
            r.spec_location() == coords,
            r.spec_elevation() == self.spec_elevation(),
    {
        StationInfo { location: coords, ..self }
    }

    /// Builder method to add elevation.
    pub fn with_elevation(self, elev: Cell) -> (r: Self)
        ensures
            r.spec_num() == self.spec_num(),
            r.spec_location() == self.spec_location(),
            r.spec_elevation() == elev,
    {
        StationInfo { elevation: elev, ..self }
    }

    /// station number, USAF number, eg 727730
    pub fn station_num(&self) -> (r: OptionVal<i32>)
        ensures
            r == self.spec_num(),
    {
        self.num
    }

    /// Latitude and longitude.
    pub fn location(&self) -> (r: Option<(Real, Real)>)
        ensures
            r == self.spec_location(),
    {
        self.location
    }

    /// Elevation in meters, this may be in model terrain, not necessarily the same as
    /// the real world.
    pub fn elevation(&self) -> (r: Cell)
        ensures
            r == self.spec_elevation(),
    {
        self.elevation
    }
}

impl Default for StationInfo {
    fn default() -> (r: Self)
        ensures
            r.spec_num()@.is_none(),
            r.spec_location().is_none(),
            r.spec_elevation()@.is_none(),
    {
        StationInfo::new()
    }
}

} // verus!
