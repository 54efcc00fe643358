//! The names of the profiles, surface values and indices that a sounding stores.

use vstd::prelude::*;

verus! {

/// The names of the profiles which may be stored in a sounding.
#[derive(Debug, Clone, Copy, PartialEq, Eq, Structural)]
pub enum Profile {
    /// Pressure in hPa
    Pressure,
    /// Temperature in C
    Temperature,
    /// Wet bulb temperature in C
    WetBulb,
    /// Dew point in C
    DewPoint,
    /// Equivalent potential temperature in Kelvin
    ThetaE,
    /// Wind direction (from) in degrees.
    WindDirection,
    /// Wind speed in knots
    WindSpeed,
    /// Pressure vertical velocity in Pa/sec
    PressureVerticalVelocity,
    /// Geopotential Height in meters
    GeopotentialHeight,
    /// Cloud fraction in percent
    CloudFraction,
}

/// Surface based values.
#[derive(Debug, Clone, Copy, PartialEq, Eq, Structural)]
pub enum Surface {
    /// Surface pressure reduce to mean sea level (hPa)
    MSLP,
    /// Surface pressure (hPa)
    StationPressure,
    /// Low cloud fraction
    LowCloud,
    /// Mid cloud fraction
    MidCloud,
    /// Hi cloud fraction
    HighCloud,
    /// Wind Direction in degrees. This is the direction the wind is coming from.
    WindDirection,
    /// Wind speed in knots.
    WindSpeed,
    /// 2 meter temperatures (C)
    Temperature,
    /// 2 meter dew point (C)
    DewPoint,
    /// Precipitation (in)
    Precipitation,
}

/// The stability and moisture indices that a sounding can store. Only these are backed by
/// storage, so no request for an unsupported index can be written.
#[derive(Debug, Clone, Copy, PartialEq, Eq, Structural)]
pub enum Index {
    /// Showalter index
    Showalter,
    /// Lifted index
    LiftedIndex,
    /// Severe weather threat index
    Sweat,
    /// K index
    K,
    /// Pressure at the lifting condensation level (hPa)
    LclPressure,
    /// Precipitable water (mm)
    PrecipitableWater,
    /// Total totals index
    TotalTotals,
    /// Convective available potential energy (J/kg)
    Cape,
    /// Temperature at the lifting condensation level (C)
    LclTemperature,
    /// Convective inhibition (J/kg)
    Cin,
    /// Equilibrium level (hPa)
    EquilibriumLevel,
    /// Level of free convection (hPa)
    LevelOfFreeConvection,
    /// Bulk Richardson number
    BulkRichardson,
}

/// The human readable name of a profile.
pub open spec fn profile_name(p: Profile) -> Seq<char> {
    match p {
        Profile::Pressure => "pressure"@,
        Profile::Temperature => "temperature"@,
        Profile::WetBulb => "wet bulb temperature"@,
        Profile::DewPoint => "dew point temperature"@,
        Profile::ThetaE => "equivalent potential temperature"@,
        Profile::WindDirection => "wind direction"@,
        Profile::WindSpeed => "wind speed"@,
        Profile::PressureVerticalVelocity => "vertical velocity"@,
        Profile::GeopotentialHeight => "height"@,
        Profile::CloudFraction => "cloud fraction"@,
    }
}

/// The human readable name of a surface value.
pub open spec fn surface_name(s: Surface) -> Seq<char> {
    match s {
        Surface::MSLP => "sea level pressure"@,
        Surface::StationPressure => "station pressure"@,
        Surface::LowCloud => "low cloud fraction"@,
        Surface::MidCloud => "mid cloud fraction"@,
        Surface::HighCloud => "high cloud fraction"@,
        Surface::WindDirection => "wind direction"@,
        Surface::WindSpeed => "wind speed"@,
        Surface::Temperature => "2-meter temperature"@,
        Surface::DewPoint => "2-meter dew point"@,
        Surface::Precipitation => "precipitation (liquid equivalent)"@,
    }
}

impl Profile {
    /// The human readable name of this profile.
    pub fn name(&self) -> (r: &'static str)
        ensures
            r@ == profile_name(*self),
    {
        match self {
            Profile::Pressure => "pressure",
            Profile::Temperature => "temperature",
            Profile::WetBulb => "wet bulb temperature",
            Profile::DewPoint => "dew point temperature",
            Profile::ThetaE => "equivalent potential temperature",
            Profile::WindDirection => "wind direction",
            Profile::WindSpeed => "wind speed",
            Profile::PressureVerticalVelocity => "vertical velocity",
            Profile::GeopotentialHeight => "height",
            Profile::CloudFraction => "cloud fraction",
        }
    }
}

impl Surface {
    /// The human readable name of this surface value.
    pub fn name(&self) -> (r: &'static str)
        ensures
            r@ == surface_name(*self),
    {
        match self {
            Surface::MSLP => "sea level pressure",
            Surface::StationPressure => "station pressure",
            Surface::LowCloud => "low cloud fraction",
            Surface::MidCloud => "mid cloud fraction",
            Surface::HighCloud => "high cloud fraction",
            Surface::WindDirection => "wind direction",
            Surface::WindSpeed => "wind speed",
            Surface::Temperature => "2-meter temperature",
            Surface::DewPoint => "2-meter dew point",
            Surface::Precipitation => "precipitation (liquid equivalent)",
        }
    }
}

} // verus!
