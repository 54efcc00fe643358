//! Data type and methods to store an atmospheric sounding.

use vstd::prelude::*;

use crate::data_row::Cell;
use crate::enums::{Index, Profile, Surface};
use crate::data_row::DataRow;
use crate::float_bits::{Real, MISSING_REAL_BITS, ZERO_BITS};
use crate::missing_value::OptionVal;
use crate::search::{bracket_spec, find_bracket, nearest_level, nearest_spec, Bracket};
use crate::station_info::StationInfo;

verus! {

/// A date and time of chrono; a sounding carries its valid time without looking inside it.
#[verifier::external_type_specification]
#[verifier::external_body]
pub struct ExNaiveDateTime(chrono::NaiveDateTime);

/// All the variables stored in the sounding.
///
/// The upper air profile variables are stored in parallel vectors. If a profile lacks a certain
/// variable, e.g. cloud fraction, that whole vector has length 0 instead of being full of missing
/// values. Index 0 of every non-empty profile holds the surface value of that quantity.
#[derive(Clone, Debug)]
pub struct Sounding {
    // Station info
    station: StationInfo,
    // Valid time of sounding
    valid_time: Option<chrono::NaiveDateTime>,
    // Difference in model initialization time and `valid_time` in hours.
    lead_time: OptionVal<i32>,
    // Profiles
    pressure: Vec<Cell>,
    temperature: Vec<Cell>,
    wet_bulb: Vec<Cell>,
    dew_point: Vec<Cell>,
    theta_e: Vec<Cell>,
    direction: Vec<Cell>,
    speed: Vec<Cell>,
    pvv: Vec<Cell>,
    height: Vec<Cell>,
    cloud_fraction: Vec<Cell>,
    // Surface variables
    mslp: Cell,
    station_pressure: Cell,
    sfc_temperature: Cell,
    sfc_dew_point: Cell,
    low_cloud: Cell,
    mid_cloud: Cell,
    high_cloud: Cell,
    precipitation: Cell,
    sfc_wind_direction: Cell,
    sfc_wind_speed: Cell,
    // Surface values derived from station pressure, temperature and dew point.
    sfc_wet_bulb: Cell,
    sfc_theta_e: Cell,
    // Indices
    showalter: Cell,
    lifted_index: Cell,
    sweat: Cell,
    k_index: Cell,
    lcl_pressure: Cell,
    precipitable_water: Cell,
    total_totals: Cell,
    cape: Cell,
    lcl_temperature: Cell,
    cin: Cell,
    equilibrium_level: Cell,
    lfc: Cell,
    bulk_richardson: Cell,
    haines: OptionVal<i32>,
}

/// The surface value that is correlated with a profile, if any.
pub open spec fn correlated_profile(s: Surface) -> Option<Profile> {
    match s {
        Surface::StationPressure => Some(Profile::Pressure),
        Surface::Temperature => Some(Profile::Temperature),
        Surface::DewPoint => Some(Profile::DewPoint),
        Surface::WindDirection => Some(Profile::WindDirection),
        Surface::WindSpeed => Some(Profile::WindSpeed),
        _ => None,
    }
}

/// `p` with its first element replaced by `c`; an empty sequence stays empty.
pub open spec fn with_first(p: Seq<Cell>, c: Cell) -> Seq<Cell> {
    if p.len() > 0 {
        p.update(0, c)
    } else {
        p
    }
}

/// A supplied profile as stored: the surface value `c` goes in front, unless nothing was supplied.
pub open spec fn with_surface(values: Seq<Cell>, c: Cell) -> Seq<Cell> {
    if values.len() > 0 {
        seq![c] + values
    } else {
        values
    }
}

/// Whether both soundings have the same station, times, indices and derived surface values.
pub open spec fn same_metadata(a: Sounding, b: Sounding) -> bool {
    &&& a.spec_station() == b.spec_station()
    &&& a.spec_valid_time() == b.spec_valid_time()
    &&& a.spec_lead_time() == b.spec_lead_time()
    &&& forall|i: Index| a.spec_index(i) == b.spec_index(i)
    &&& a.spec_haines() == b.spec_haines()
}

/// Whether both soundings have the same surface values, derived ones included.
pub open spec fn same_surface(a: Sounding, b: Sounding) -> bool {
    &&& forall|s: Surface| a.spec_surface(s) == b.spec_surface(s)
    &&& a.spec_sfc_wet_bulb() == b.spec_sfc_wet_bulb()
    &&& a.spec_sfc_theta_e() == b.spec_sfc_theta_e()
}

/// Whether both soundings have the same profiles, but maybe for `p`.
pub open spec fn same_profiles_except(a: Sounding, b: Sounding, p: Option<Profile>) -> bool {
    forall|q: Profile| Some(q) != p ==> a.spec_profile(q) == b.spec_profile(q)
}

/// Whether `b` is `a` with surface value `s` set to `c`, and with the correlated profile, if
/// any and non-empty, starting with `c`.
pub open spec fn surface_set(a: Sounding, b: Sounding, s: Surface, c: Cell) -> bool {
    &&& same_metadata(a, b)
    &&& b.spec_surface(s) == c
    &&& forall|t: Surface| t != s ==> b.spec_surface(t) == a.spec_surface(t)
    &&& b.spec_sfc_wet_bulb() == a.spec_sfc_wet_bulb()
    &&& b.spec_sfc_theta_e() == a.spec_sfc_theta_e()
    &&& same_profiles_except(a, b, correlated_profile(s))
    &&& match correlated_profile(s) {
        Some(p) => b.spec_profile(p) == with_first(a.spec_profile(p), c),
        None => true,
    }
}

/// Whether `b` is `a` with profile `which` replaced by `values`, surface value in front.
pub open spec fn profile_set(a: Sounding, b: Sounding, which: Profile, values: Seq<Cell>) -> bool {
    &&& b.spec_profile(which) == with_surface(values, a.surface_of(which))
    &&& same_profiles_except(a, b, Some(which))
    &&& same_surface(a, b)
    &&& same_metadata(a, b)
}

/// Whether `b` is `a` with the derived surface values set to `wet_bulb` and `theta_e`; when
/// station pressure, temperature and dew point are all present, they also start the wet bulb
/// and equivalent potential temperature profiles.
pub open spec fn derived_set(a: Sounding, b: Sounding, wet_bulb: Cell, theta_e: Cell) -> bool {
    &&& b.spec_sfc_wet_bulb() == wet_bulb
    &&& b.spec_sfc_theta_e() == theta_e
    &&& forall|t: Surface| b.spec_surface(t) == a.spec_surface(t)
    &&& same_metadata(a, b)
    &&& forall|q: Profile|
        q != Profile::WetBulb && q != Profile::ThetaE ==> b.spec_profile(q) == a.spec_profile(q)
    &&& {
        let complete = a.spec_surface(Surface::StationPressure)@.is_some()
            && a.spec_surface(Surface::Temperature)@.is_some()
            && a.spec_surface(Surface::DewPoint)@.is_some();
        &&& b.spec_profile(Profile::WetBulb) == (if complete {
            with_first(a.spec_profile(Profile::WetBulb), wet_bulb)
        } else {
            a.spec_profile(Profile::WetBulb)
        })
        &&& b.spec_profile(Profile::ThetaE) == (if complete {
            with_first(a.spec_profile(Profile::ThetaE), theta_e)
        } else {
            a.spec_profile(Profile::ThetaE)
        })
    }
}

/// Whether `b` is `a` with only its metadata (station, times, indices) possibly changed.
pub open spec fn data_kept(a: Sounding, b: Sounding) -> bool {
    &&& same_profiles_except(a, b, None)
    &&& same_surface(a, b)
}

/// The missing value.
pub open spec fn missing_cell() -> Cell {
    OptionVal { value: Real { bits: MISSING_REAL_BITS } }
}

/// Element `i` of a profile, missing where the profile is too short.
pub open spec fn cell_at(p: Seq<Cell>, i: int) -> Cell {
    if 0 <= i < p.len() {
        p[i]
    } else {
        missing_cell()
    }
}

/// The number of rows: the length of the pressure profile.
pub open spec fn num_rows(s: Sounding) -> int {
    s.spec_profile(Profile::Pressure).len() as int
}

/// Row `i` of a sounding: element `i` of every profile.
pub open spec fn row_at(s: Sounding, i: int) -> DataRow {
    DataRow {
        pressure: cell_at(s.spec_profile(Profile::Pressure), i),
        temperature: cell_at(s.spec_profile(Profile::Temperature), i),
        wet_bulb: cell_at(s.spec_profile(Profile::WetBulb), i),
        dew_point: cell_at(s.spec_profile(Profile::DewPoint), i),
        theta_e: cell_at(s.spec_profile(Profile::ThetaE), i),
        direction: cell_at(s.spec_profile(Profile::WindDirection), i),
        speed: cell_at(s.spec_profile(Profile::WindSpeed), i),
        omega: cell_at(s.spec_profile(Profile::PressureVerticalVelocity), i),
        height: cell_at(s.spec_profile(Profile::GeopotentialHeight), i),
        cloud_fraction: cell_at(s.spec_profile(Profile::CloudFraction), i),
    }
}

/// Row `i`, or `None` past the end of the pressure profile.
pub open spec fn row_option(s: Sounding, i: int) -> Option<DataRow> {
    if 0 <= i < num_rows(s) {
        Some(row_at(s, i))
    } else {
        None
    }
}

/// The rows from the surface up.
pub open spec fn rows_bottom_up(s: Sounding) -> Seq<DataRow> {
    Seq::new(num_rows(s) as nat, |i: int| row_at(s, i))
}

/// The rows from the top down to the surface.
pub open spec fn rows_top_down(s: Sounding) -> Seq<DataRow> {
    Seq::new(num_rows(s) as nat, |i: int| row_at(s, num_rows(s) - 1 - i))
}

/// Element `i` of a profile vector, missing where it is too short.
fn copy_cell(p: &Vec<Cell>, i: usize) -> (r: Cell)
    ensures
        r == cell_at(p@, i as int),
{
    if i < p.len() {
        p[i]
    } else {
        OptionVal::none()
    }
}

impl Sounding {
    /// The station information.
    pub closed spec fn spec_station(&self) -> StationInfo {
        self.station
    }

    /// The valid time.
    pub closed spec fn spec_valid_time(&self) -> Option<chrono::NaiveDateTime> {
        self.valid_time
    }

    /// The lead time in hours.
    pub closed spec fn spec_lead_time(&self) -> OptionVal<i32> {
        self.lead_time
    }

    /// The stored values of a profile, surface first.
    pub closed spec fn spec_profile(&self, p: Profile) -> Seq<Cell> {
        match p {
            Profile::Pressure => self.pressure@,
            Profile::Temperature => self.temperature@,
            Profile::WetBulb => self.wet_bulb@,
            Profile::DewPoint => self.dew_point@,
            Profile::ThetaE => self.theta_e@,
            Profile::WindDirection => self.direction@,
            Profile::WindSpeed => self.speed@,
            Profile::PressureVerticalVelocity => self.pvv@,
            Profile::GeopotentialHeight => self.height@,
            Profile::CloudFraction => self.cloud_fraction@,
        }
    }

    /// A surface value.
    pub closed spec fn spec_surface(&self, s: Surface) -> Cell {
        match s {
            Surface::MSLP => self.mslp,
            Surface::StationPressure => self.station_pressure,
            Surface::LowCloud => self.low_cloud,
            Surface::MidCloud => self.mid_cloud,
            Surface::HighCloud => self.high_cloud,
            Surface::WindDirection => self.sfc_wind_direction,
            Surface::WindSpeed => self.sfc_wind_speed,
            Surface::Temperature => self.sfc_temperature,
            Surface::DewPoint => self.sfc_dew_point,
            Surface::Precipitation => self.precipitation,
        }
    }

    /// The surface wet bulb temperature, as last computed from the surface values.
    pub closed spec fn spec_sfc_wet_bulb(&self) -> Cell {
        self.sfc_wet_bulb
    }

    /// The surface equivalent potential temperature, as last computed from the surface values.
    pub closed spec fn spec_sfc_theta_e(&self) -> Cell {
        self.sfc_theta_e
    }

    /// A stored index.
    pub closed spec fn spec_index(&self, i: Index) -> Cell {
        match i {
            Index::Showalter => self.showalter,
            Index::LiftedIndex => self.lifted_index,
            Index::Sweat => self.sweat,
            Index::K => self.k_index,
            Index::LclPressure => self.lcl_pressure,
            Index::PrecipitableWater => self.precipitable_water,
            Index::TotalTotals => self.total_totals,
            Index::Cape => self.cape,
            Index::LclTemperature => self.lcl_temperature,
            Index::Cin => self.cin,
            Index::EquilibriumLevel => self.equilibrium_level,
            Index::LevelOfFreeConvection => self.lfc,
            Index::BulkRichardson => self.bulk_richardson,
        }
    }

    /// The Haines index.
    pub closed spec fn spec_haines(&self) -> OptionVal<i32> {
        self.haines
    }

    /// The value put in front of a supplied profile: the surface value of the same quantity.
    /// Vertical velocity and cloud fraction are zero at the surface; the surface height is the
    /// station elevation.
    pub open spec fn surface_of(&self, p: Profile) -> Cell {
        match p {
            Profile::Pressure => self.spec_surface(Surface::StationPressure),
            Profile::Temperature => self.spec_surface(Surface::Temperature),
            Profile::WetBulb => self.spec_sfc_wet_bulb(),
            Profile::DewPoint => self.spec_surface(Surface::DewPoint),
            Profile::ThetaE => self.spec_sfc_theta_e(),
            Profile::WindDirection => self.spec_surface(Surface::WindDirection),
            Profile::WindSpeed => self.spec_surface(Surface::WindSpeed),
            Profile::PressureVerticalVelocity => OptionVal { value: Real { bits: ZERO_BITS } },
            Profile::GeopotentialHeight => self.spec_station().spec_elevation(),
            Profile::CloudFraction => OptionVal { value: Real { bits: ZERO_BITS } },
        }
    }
}

/// Whether `s` holds no data at all.
pub open spec fn holds_nothing(s: Sounding) -> bool {
    &&& s.spec_station().spec_num()@.is_none()
    &&& s.spec_station().spec_location().is_none()
    &&& s.spec_station().spec_elevation()@.is_none()
    &&& s.spec_valid_time().is_none()
    &&& s.spec_lead_time()@.is_none()
    &&& forall|p: Profile| s.spec_profile(p).len() == 0
    &&& forall|t: Surface| (#[trigger] s.spec_surface(t))@.is_none()
    &&& s.spec_sfc_wet_bulb()@.is_none()
    &&& s.spec_sfc_theta_e()@.is_none()
    &&& forall|i: Index| (#[trigger] s.spec_index(i))@.is_none()
    &&& s.spec_haines()@.is_none()
}

/// Replaces the first element of a non-empty vector.
fn replace_first(v: &mut Vec<Cell>, c: Cell)
    ensures
        final(v)@ == with_first(old(v)@, c),
{
    if v.len() > 0 {
        v.set(0, c);
    }
}

impl Sounding {
    /// Create a new sounding with every value missing and every profile empty.
    pub fn new() -> (r: Self)
        ensures
            holds_nothing(r),
    {
        Sounding {
            station: StationInfo::new(),
            valid_time: None,
            lead_time: OptionVal::none(),
            pressure: Vec::new(),
            temperature: Vec::new(),
            wet_bulb: Vec::new(),
            dew_point: Vec::new(),
            theta_e: Vec::new(),
            direction: Vec::new(),
            speed: Vec::new(),
            pvv: Vec::new(),
            height: Vec::new(),
            cloud_fraction: Vec::new(),
            mslp: OptionVal::none(),
            station_pressure: OptionVal::none(),
            sfc_temperature: OptionVal::none(),
            sfc_dew_point: OptionVal::none(),
            low_cloud: OptionVal::none(),
            mid_cloud: OptionVal::none(),
            high_cloud: OptionVal::none(),
            precipitation: OptionVal::none(),
            sfc_wind_direction: OptionVal::none(),
            sfc_wind_speed: OptionVal::none(),
            sfc_wet_bulb: OptionVal::none(),
            sfc_theta_e: OptionVal::none(),
            showalter: OptionVal::none(),
            lifted_index: OptionVal::none(),
            sweat: OptionVal::none(),
            k_index: OptionVal::none(),
            lcl_pressure: OptionVal::none(),
            precipitable_water: OptionVal::none(),
            total_totals: OptionVal::none(),
            cape: OptionVal::none(),
            lcl_temperature: OptionVal::none(),
            cin: OptionVal::none(),
            equilibrium_level: OptionVal::none(),
            lfc: OptionVal::none(),
            bulk_richardson: OptionVal::none(),
            haines: OptionVal::none(),
        }
    }

    /// The value that `set_profile` puts in front of a supplied profile.
    fn surface_cell(&self, p: Profile) -> (r: Cell)
        ensures
            r == self.surface_of(p),
    {
        match p {
            Profile::Pressure => self.station_pressure,
            Profile::Temperature => self.sfc_temperature,
            Profile::WetBulb => self.sfc_wet_bulb,
            Profile::DewPoint => self.sfc_dew_point,
            Profile::ThetaE => self.sfc_theta_e,
            Profile::WindDirection => self.sfc_wind_direction,
            Profile::WindSpeed => self.sfc_wind_speed,
            Profile::PressureVerticalVelocity => OptionVal { value: Real::zero() },
            Profile::GeopotentialHeight => self.station.elevation(),
            Profile::CloudFraction => OptionVal { value: Real::zero() },
        }
    }

    /// Replace a profile. A non-empty profile gets the surface value of its quantity put in
    /// front, so that index 0 always stands for the surface. Lengths are not checked here; see
    /// `validate`.
    pub fn set_profile(self, which: Profile, values: Vec<Cell>) -> (r: Self)
        ensures
            profile_set(self, r, which, values@),
    {
        let sfc = self.surface_cell(which);
        let mut v = values;
        if v.len() > 0 {
            v.insert(0, sfc);
        }
        proof {
            assert(v@ =~= with_surface(values@, sfc));
        }
        let mut s = self;
        match which {
            Profile::Pressure => s.pressure = v,
            Profile::Temperature => s.temperature = v,
            Profile::WetBulb => s.wet_bulb = v,
            Profile::DewPoint => s.dew_point = v,
            Profile::ThetaE => s.theta_e = v,
            Profile::WindDirection => s.direction = v,
            Profile::WindSpeed => s.speed = v,
            Profile::PressureVerticalVelocity => s.pvv = v,
            Profile::GeopotentialHeight => s.height = v,
            Profile::CloudFraction => s.cloud_fraction = v,
        }
        s
    }

    /// The stored values of a profile, surface first. An empty profile was not supplied; it
    /// does not mean "all missing".
    pub fn get_profile(&self, which: Profile) -> (r: &Vec<Cell>)
        ensures
            r@ == self.spec_profile(which),
    {
        match which {
            Profile::Pressure => &self.pressure,
            Profile::Temperature => &self.temperature,
            Profile::WetBulb => &self.wet_bulb,
            Profile::DewPoint => &self.dew_point,
            Profile::ThetaE => &self.theta_e,
            Profile::WindDirection => &self.direction,
            Profile::WindSpeed => &self.speed,
            Profile::PressureVerticalVelocity => &self.pvv,
            Profile::GeopotentialHeight => &self.height,
            Profile::CloudFraction => &self.cloud_fraction,
        }
    }

    /// Set a surface value. Station pressure, temperature, dew point and wind also replace
    /// index 0 of their profile when that profile is non-empty. The derived surface wet bulb
    /// and equivalent potential temperature are brought up to date by `set_surface_derived`.
    pub fn set_surface_value(self, which: Surface, value: Cell) -> (r: Self)
        ensures
            surface_set(self, r, which, value),
    {
        let mut s = self;
        match which {
            Surface::MSLP => s.mslp = value,
            Surface::StationPressure => {
                s.station_pressure = value;
                replace_first(&mut s.pressure, value);
            },
            Surface::LowCloud => s.low_cloud = value,
            Surface::MidCloud => s.mid_cloud = value,
            Surface::HighCloud => s.high_cloud = value,
            Surface::WindDirection => {
                s.sfc_wind_direction = value;
                replace_first(&mut s.direction, value);
            },
            Surface::WindSpeed => {
                s.sfc_wind_speed = value;
                replace_first(&mut s.speed, value);
            },
            Surface::Temperature => {
                s.sfc_temperature = value;
                replace_first(&mut s.temperature, value);
            },
            Surface::DewPoint => {
                s.sfc_dew_point = value;
                replace_first(&mut s.dew_point, value);
            },
            Surface::Precipitation => s.precipitation = value,
        }
        s
    }

    /// A surface value.
    pub fn get_surface_value(&self, which: Surface) -> (r: Cell)
        ensures
            r == self.spec_surface(which),
    {
        match which {
            Surface::MSLP => self.mslp,
            Surface::StationPressure => self.station_pressure,
            Surface::LowCloud => self.low_cloud,
            Surface::MidCloud => self.mid_cloud,
            Surface::HighCloud => self.high_cloud,
            Surface::WindDirection => self.sfc_wind_direction,
            Surface::WindSpeed => self.sfc_wind_speed,
            Surface::Temperature => self.sfc_temperature,
            Surface::DewPoint => self.sfc_dew_point,
            Surface::Precipitation => self.precipitation,
        }
    }
    /// Set the pressure profile; see `set_profile`.
    pub fn set_pressure_profile(self, profile: Vec<Cell>) -> (r: Self)
        ensures
            profile_set(self, r, Profile::Pressure, profile@),
    {
        self.set_profile(Profile::Pressure, profile)
    }

    /// Get the pressure profile; see `get_profile`.
    pub fn pressure_profile(&self) -> (r: &Vec<Cell>)
        ensures
            r@ == self.spec_profile(Profile::Pressure),
    {
        self.get_profile(Profile::Pressure)
    }

    /// Set the temperature profile; see `set_profile`.
    pub fn set_temperature_profile(self, profile: Vec<Cell>) -> (r: Self)
        ensures
            profile_set(self, r, Profile::Temperature, profile@),
    {
        self.set_profile(Profile::Temperature, profile)
    }

    /// Get the temperature profile; see `get_profile`.
    pub fn temperature_profile(&self) -> (r: &Vec<Cell>)
        ensures
            r@ == self.spec_profile(Profile::Temperature),
    {
        self.get_profile(Profile::Temperature)
    }

    /// Set the dew point profile; see `set_profile`.
    pub fn set_dew_point_profile(self, profile: Vec<Cell>) -> (r: Self)
        ensures
            profile_set(self, r, Profile::DewPoint, profile@),
    {
        self.set_profile(Profile::DewPoint, profile)
    }

    /// Get the dew point profile; see `get_profile`.
    pub fn dew_point_profile(&self) -> (r: &Vec<Cell>)
        ensures
            r@ == self.spec_profile(Profile::DewPoint),
    {
        self.get_profile(Profile::DewPoint)
    }

    /// Set the wet bulb temperature profile; see `set_profile`.
    pub fn set_wet_bulb_profile(self, profile: Vec<Cell>) -> (r: Self)
        ensures
            profile_set(self, r, Profile::WetBulb, profile@),
    {
        self.set_profile(Profile::WetBulb, profile)
    }

    /// Get the wet bulb temperature profile; see `get_profile`.
    pub fn wet_bulb_profile(&self) -> (r: &Vec<Cell>)
        ensures
            r@ == self.spec_profile(Profile::WetBulb),
    {
        self.get_profile(Profile::WetBulb)
    }

    /// Set the equivalent potential temperature profile; see `set_profile`.
    pub fn set_theta_e_profile(self, profile: Vec<Cell>) -> (r: Self)
        ensures
            profile_set(self, r, Profile::ThetaE, profile@),
    {
        self.set_profile(Profile::ThetaE, profile)
    }

    /// Get the equivalent potential temperature profile; see `get_profile`.
    pub fn theta_e_profile(&self) -> (r: &Vec<Cell>)
        ensures
            r@ == self.spec_profile(Profile::ThetaE),
    {
        self.get_profile(Profile::ThetaE)
    }

    /// Set the wind direction profile; see `set_profile`.
    pub fn set_wind_direction_profile(self, profile: Vec<Cell>) -> (r: Self)
        ensures
            profile_set(self, r, Profile::WindDirection, profile@),
    {
        self.set_profile(Profile::WindDirection, profile)
    }

    /// Get the wind direction profile; see `get_profile`.
    pub fn wind_direction_profile(&self) -> (r: &Vec<Cell>)
        ensures
            r@ == self.spec_profile(Profile::WindDirection),
    {
        self.get_profile(Profile::WindDirection)
    }

    /// Set the wind speed profile; see `set_profile`.
    pub fn set_wind_speed_profile(self, profile: Vec<Cell>) -> (r: Self)
        ensures
            profile_set(self, r, Profile::WindSpeed, profile@),
    {
        self.set_profile(Profile::WindSpeed, profile)
    }

    /// Get the wind speed profile; see `get_profile`.
    pub fn wind_speed_profile(&self) -> (r: &Vec<Cell>)
        ensures
            r@ == self.spec_profile(Profile::WindSpeed),
    {
        self.get_profile(Profile::WindSpeed)
    }

    /// Set the pressure vertical velocity profile; see `set_profile`.
    pub fn set_pvv_profile(self, profile: Vec<Cell>) -> (r: Self)
        ensures
            profile_set(self, r, Profile::PressureVerticalVelocity, profile@),
    {
        self.set_profile(Profile::PressureVerticalVelocity, profile)
    }

    /// Get the pressure vertical velocity profile; see `get_profile`.
    pub fn pvv_profile(&self) -> (r: &Vec<Cell>)
        ensures
            r@ == self.spec_profile(Profile::PressureVerticalVelocity),
    {
        self.get_profile(Profile::PressureVerticalVelocity)
    }

    /// Set the geopotential height profile; see `set_profile`.
    pub fn set_height_profile(self, profile: Vec<Cell>) -> (r: Self)
        ensures
            profile_set(self, r, Profile::GeopotentialHeight, profile@),
    {
        self.set_profile(Profile::GeopotentialHeight, profile)
    }

    /// Get the geopotential height profile; see `get_profile`.
    pub fn height_profile(&self) -> (r: &Vec<Cell>)
        ensures
            r@ == self.spec_profile(Profile::GeopotentialHeight),
    {
        self.get_profile(Profile::GeopotentialHeight)
    }

    /// Set the cloud fraction profile; see `set_profile`.
    pub fn set_cloud_fraction_profile(self, profile: Vec<Cell>) -> (r: Self)
        ensures
            profile_set(self, r, Profile::CloudFraction, profile@),
    {
        self.set_profile(Profile::CloudFraction, profile)
    }

    /// Get the cloud fraction profile; see `get_profile`.
    pub fn cloud_fraction_profile(&self) -> (r: &Vec<Cell>)
        ensures
            r@ == self.spec_profile(Profile::CloudFraction),
    {
        self.get_profile(Profile::CloudFraction)
    }

    /// Set the mean sea level pressure.
    pub fn set_mslp(self, value: Cell) -> (r: Self)
        ensures
            surface_set(self, r, Surface::MSLP, value),
    {
        self.set_surface_value(Surface::MSLP, value)
    }

    /// Get the mean sea level pressure.
    pub fn mslp(&self) -> (r: Cell)
        ensures
            r == self.spec_surface(Surface::MSLP),
    {
        self.mslp
    }

    /// Set the station pressure; it also starts the pressure profile.
    pub fn set_station_pressure(self, value: Cell) -> (r: Self)
        ensures
            surface_set(self, r, Surface::StationPressure, value),
    {
        self.set_surface_value(Surface::StationPressure, value)
    }

    /// Get the station pressure.
    pub fn station_pressure(&self) -> (r: Cell)
        ensures
            r == self.spec_surface(Surface::StationPressure),
    {
        self.station_pressure
    }

    /// Set the surface temperature; it also starts the temperature profile.
    pub fn set_sfc_temperature(self, value: Cell) -> (r: Self)
        ensures
            surface_set(self, r, Surface::Temperature, value),
    {
        self.set_surface_value(Surface::Temperature, value)
    }

    /// Get the surface temperature.
    pub fn sfc_temperature(&self) -> (r: Cell)
        ensures
            r == self.spec_surface(Surface::Temperature),
    {
        self.sfc_temperature
    }

    /// Set the surface dew point; it also starts the dew point profile.
    pub fn set_sfc_dew_point(self, value: Cell) -> (r: Self)
        ensures
            surface_set(self, r, Surface::DewPoint, value),
    {
        self.set_surface_value(Surface::DewPoint, value)
    }

    /// Get the surface dew point.
    pub fn sfc_dew_point(&self) -> (r: Cell)
        ensures
            r == self.spec_surface(Surface::DewPoint),
    {
        self.sfc_dew_point
    }

    /// Set the precipitation.
    pub fn set_precipitation(self, value: Cell) -> (r: Self)
        ensures
            surface_set(self, r, Surface::Precipitation, value),
    {
        self.set_surface_value(Surface::Precipitation, value)
    }

    /// Get the precipitation.
    pub fn precipitation(&self) -> (r: Cell)
        ensures
            r == self.spec_surface(Surface::Precipitation),
    {
        self.precipitation
    }

    /// Set the low cloud amount.
    pub fn set_low_cloud(self, value: Cell) -> (r: Self)
        ensures
            surface_set(self, r, Surface::LowCloud, value),
    {
        self.set_surface_value(Surface::LowCloud, value)
    }

    /// Get the low cloud amount.
    pub fn low_cloud(&self) -> (r: Cell)
        ensures
            r == self.spec_surface(Surface::LowCloud),
    {
        self.low_cloud
    }

    /// Set the mid cloud amount.
    pub fn set_mid_cloud(self, value: Cell) -> (r: Self)
        ensures
            surface_set(self, r, Surface::MidCloud, value),
    {
        self.set_surface_value(Surface::MidCloud, value)
    }

    /// Get the mid cloud amount.
    pub fn mid_cloud(&self) -> (r: Cell)
        ensures
            r == self.spec_surface(Surface::MidCloud),
    {
        self.mid_cloud
    }

    /// Set the high cloud amount.
    pub fn set_high_cloud(self, value: Cell) -> (r: Self)
        ensures
            surface_set(self, r, Surface::HighCloud, value),
    {
        self.set_surface_value(Surface::HighCloud, value)
    }

    /// Get the high cloud amount.
    pub fn high_cloud(&self) -> (r: Cell)
        ensures
            r == self.spec_surface(Surface::HighCloud),
    {
        self.high_cloud
    }

    /// Set both wind profiles, direction and speed; see `set_profile`.
    pub fn set_wind_profile(self, directions: Vec<Cell>, speeds: Vec<Cell>) -> (r: Self)
        ensures
            r.spec_profile(Profile::WindDirection) == with_surface(
                directions@,
                self.surface_of(Profile::WindDirection),
            ),
            r.spec_profile(Profile::WindSpeed) == with_surface(
                speeds@,
                self.surface_of(Profile::WindSpeed),
            ),
            forall|q: Profile|
                q != Profile::WindDirection && q != Profile::WindSpeed ==> r.spec_profile(q)
                    == self.spec_profile(q),
            same_surface(self, r),
            same_metadata(self, r),
    {
        self.set_profile(Profile::WindDirection, directions).set_profile(Profile::WindSpeed, speeds)
    }

    /// Set the surface wind, direction and speed; each also starts its profile.
    pub fn set_sfc_wind(self, direction: Cell, speed: Cell) -> (r: Self)
        ensures
            r.spec_surface(Surface::WindDirection) == direction,
            r.spec_surface(Surface::WindSpeed) == speed,
            forall|t: Surface|
                t != Surface::WindDirection && t != Surface::WindSpeed ==> r.spec_surface(t)
                    == self.spec_surface(t),
            r.spec_profile(Profile::WindDirection) == with_first(
                self.spec_profile(Profile::WindDirection),
                direction,
            ),
            r.spec_profile(Profile::WindSpeed) == with_first(
                self.spec_profile(Profile::WindSpeed),
                speed,
            ),
            forall|q: Profile|
                q != Profile::WindDirection && q != Profile::WindSpeed ==> r.spec_profile(q)
                    == self.spec_profile(q),
            r.spec_sfc_wet_bulb() == self.spec_sfc_wet_bulb(),
            r.spec_sfc_theta_e() == self.spec_sfc_theta_e(),
            same_metadata(self, r),
    {
        self.set_surface_value(Surface::WindDirection, direction).set_surface_value(
            Surface::WindSpeed,
            speed,
        )
    }

    /// Get the surface wind, direction and speed.
    pub fn sfc_wind(&self) -> (r: (Cell, Cell))
        ensures
            r == (self.spec_surface(Surface::WindDirection), self.spec_surface(Surface::WindSpeed)),
    {
        (self.sfc_wind_direction, self.sfc_wind_speed)
    }

    /// Bring the surface values derived from station pressure, temperature and dew point up to
    /// date: `wet_bulb` and `theta_e` are what the thermodynamic functions give for the current
    /// surface values. They are kept for profiles set later; when all three surface values are
    /// present they also replace index 0 of the non-empty wet bulb and equivalent potential
    /// temperature profiles.
    pub fn set_surface_derived(self, wet_bulb: Cell, theta_e: Cell) -> (r: Self)
        ensures
            derived_set(self, r, wet_bulb, theta_e),
    {
        let mut s = self;
        s.sfc_wet_bulb = wet_bulb;
        s.sfc_theta_e = theta_e;
        if s.station_pressure.is_some() && s.sfc_temperature.is_some() && s.sfc_dew_point.is_some() {
            replace_first(&mut s.wet_bulb, wet_bulb);
            replace_first(&mut s.theta_e, theta_e);
        }
        s
    }

    /// Set a stored index.
    pub fn set_index(self, which: Index, value: Cell) -> (r: Self)
        ensures
            r.spec_index(which) == value,
            forall|i: Index| i != which ==> r.spec_index(i) == self.spec_index(i),
            r.spec_station() == self.spec_station(),
            r.spec_valid_time() == self.spec_valid_time(),
            r.spec_lead_time() == self.spec_lead_time(),
            r.spec_haines() == self.spec_haines(),
            data_kept(self, r),
    {
        let mut s = self;
        match which {
            Index::Showalter => s.showalter = value,
            Index::LiftedIndex => s.lifted_index = value,
            Index::Sweat => s.sweat = value,
            Index::K => s.k_index = value,
            Index::LclPressure => s.lcl_pressure = value,
            Index::PrecipitableWater => s.precipitable_water = value,
            Index::TotalTotals => s.total_totals = value,
            Index::Cape => s.cape = value,
            Index::LclTemperature => s.lcl_temperature = value,
            Index::Cin => s.cin = value,
            Index::EquilibriumLevel => s.equilibrium_level = value,
            Index::LevelOfFreeConvection => s.lfc = value,
            Index::BulkRichardson => s.bulk_richardson = value,
        }
        s
    }

    /// Get a stored index.
    pub fn get_index(&self, which: Index) -> (r: Cell)
        ensures
            r == self.spec_index(which),
    {
        match which {
            Index::Showalter => self.showalter,
            Index::LiftedIndex => self.lifted_index,
            Index::Sweat => self.sweat,
            Index::K => self.k_index,
            Index::LclPressure => self.lcl_pressure,
            Index::PrecipitableWater => self.precipitable_water,
            Index::TotalTotals => self.total_totals,
            Index::Cape => self.cape,
            Index::LclTemperature => self.lcl_temperature,
            Index::Cin => self.cin,
            Index::EquilibriumLevel => self.equilibrium_level,
            Index::LevelOfFreeConvection => self.lfc,
            Index::BulkRichardson => self.bulk_richardson,
        }
    }

    /// Set the Haines index.
    pub fn set_haines(self, value: OptionVal<i32>) -> (r: Self)
        ensures
            r.spec_haines() == value,
            forall|i: Index| r.spec_index(i) == self.spec_index(i),
            r.spec_station() == self.spec_station(),
            r.spec_valid_time() == self.spec_valid_time(),
            r.spec_lead_time() == self.spec_lead_time(),
            data_kept(self, r),
    {
        let mut s = self;
        s.haines = value;
        s
    }

    /// Get the Haines index.
    pub fn haines(&self) -> (r: OptionVal<i32>)
        ensures
            r == self.spec_haines(),
    {
        self.haines
    }

    /// Set the station info.
    pub fn set_station_info(self, new_value: StationInfo) -> (r: Self)
        ensures
            r.spec_station() == new_value,
            r.spec_valid_time() == self.spec_valid_time(),
            r.spec_lead_time() == self.spec_lead_time(),
            forall|i: Index| r.spec_index(i) == self.spec_index(i),
            r.spec_haines() == self.spec_haines(),
            data_kept(self, r),
    {
        let mut s = self;
        s.station = new_value;
        s
    }

    /// Get the station info.
    pub fn station_info(&self) -> (r: StationInfo)
        ensures
            r == self.spec_station(),
    {
        self.station
    }

    /// Difference in model initialization time and `valid_time` in hours.
    pub fn set_lead_time(self, lt: OptionVal<i32>) -> (r: Self)
        ensures
            r.spec_lead_time() == lt,
            r.spec_station() == self.spec_station(),
            r.spec_valid_time() == self.spec_valid_time(),
            forall|i: Index| r.spec_index(i) == self.spec_index(i),
            r.spec_haines() == self.spec_haines(),
            data_kept(self, r),
    {
        let mut s = self;
        s.lead_time = lt;
        s
    }

    /// Difference in model initialization time and `valid_time` in hours.
    pub fn get_lead_time(&self) -> (r: OptionVal<i32>)
        ensures
            r == self.spec_lead_time(),
    {
        self.lead_time
    }

    /// Valid time of the sounding.
    pub fn get_valid_time(&self) -> (r: Option<chrono::NaiveDateTime>)
        ensures
            r == self.spec_valid_time(),
    {
        self.valid_time
    }

    /// Builder method to set the valid time of the sounding.
    pub fn set_valid_time(self, valid_time: Option<chrono::NaiveDateTime>) -> (r: Self)
        ensures
            r.spec_valid_time() == valid_time,
            r.spec_station() == self.spec_station(),
            r.spec_lead_time() == self.spec_lead_time(),
            forall|i: Index| r.spec_index(i) == self.spec_index(i),
            r.spec_haines() == self.spec_haines(),
            data_kept(self, r),
    {
        let mut s = self;
        s.valid_time = valid_time;
        s
    }

    /// Get a row of data values from this sounding: `None` when `idx` is past the end of the
    /// pressure profile; otherwise element `idx` of every profile, missing where a profile is
    /// shorter.
    pub fn get_data_row(&self, idx: usize) -> (r: Option<DataRow>)
        ensures
            r == row_option(*self, idx as int),
    {
        if idx >= self.pressure.len() {
            return None;
        }
        Some(DataRow {
            pressure: copy_cell(&self.pressure, idx),
            temperature: copy_cell(&self.temperature, idx),
            wet_bulb: copy_cell(&self.wet_bulb, idx),
            dew_point: copy_cell(&self.dew_point, idx),
            theta_e: copy_cell(&self.theta_e, idx),
            direction: copy_cell(&self.direction, idx),
            speed: copy_cell(&self.speed, idx),
            omega: copy_cell(&self.pvv, idx),
            height: copy_cell(&self.height, idx),
            cloud_fraction: copy_cell(&self.cloud_fraction, idx),
        })
    }

    /// Get the surface values in a `DataRow` format: the first row, where the surface values
    /// stand; `None` when there is no pressure profile.
    pub fn surface_as_data_row(&self) -> (r: Option<DataRow>)
        ensures
            r == row_option(*self, 0),
    {
        self.get_data_row(0)
    }

    /// The rows from the surface up; the first one holds the surface values.
    pub fn bottom_up(&self) -> (r: Vec<DataRow>)
        ensures
            r@ == rows_bottom_up(*self),
    {
        let n = self.pressure.len();
        let mut rows: Vec<DataRow> = Vec::new();
        let mut i: usize = 0;
        while i < n
            invariant
                n == num_rows(*self),
                i <= n,
                rows@ =~= rows_bottom_up(*self).subrange(0, i as int),
            decreases n - i,
        {
            let row = self.get_data_row(i);
            rows.push(row.unwrap());
            i = i + 1;
        }
        rows
    }

    /// The rows from the top down; the last one holds the surface values.
    pub fn top_down(&self) -> (r: Vec<DataRow>)
        ensures
            r@ == rows_top_down(*self),
    {
        let n = self.pressure.len();
        let mut rows: Vec<DataRow> = Vec::new();
        let mut i: usize = n;
        while i > 0
            invariant
                n == num_rows(*self),
                i <= n,
                rows@ =~= rows_top_down(*self).subrange(0, (n - i) as int),
            decreases i,
        {
            i = i - 1;
            let row = self.get_data_row(i);
            rows.push(row.unwrap());
        }
        rows
    }

    /// The row of the level nearest to a target pressure. `distances` holds, for each level,
    /// `|p - target|` of its pressure `p` (missing where the pressure is). The levels are
    /// scanned from the surface up; ties go to the level met first, and the scan stops once the
    /// distance grows, which finds the nearest level of a monotonic profile. `None` when there
    /// is no pressure profile.
    pub fn fetch_nearest_pnt(&self, distances: &Vec<Cell>) -> (r: Option<DataRow>)
        ensures
            r == row_option(*self, nearest_spec(distances@)),
    {
        let idx = nearest_level(distances);
        self.get_data_row(idx)
    }

    /// Where a target pressure falls among the levels: at a level, between two levels, or
    /// outside the profile. Interpolation in pressure reads the rows that this names.
    pub fn bracket(&self, target: Real) -> (r: Bracket)
        ensures
            r == bracket_spec(self.spec_profile(Profile::Pressure), target),
    {
        find_bracket(&self.pressure, target)
    }
}

} // verus!
