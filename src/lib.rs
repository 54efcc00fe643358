//! Data model of an atmospheric sounding with pressure as the vertical coordinate.
//!
//! A sounding holds parallel profiles (pressure, temperature, dew point, wind, ...), a block of
//! surface observations, station information and a few derived indices. Every scalar may be
//! missing; missing values are encoded compactly by `OptionVal`.
//!
//! Floating-point quantities are held as their IEEE-754 bit patterns (`Real`), so that the data
//! model, its synchronisation rules, row materialisation, searches and validation are proved
//! here, while arithmetic in floating point is left to callers.

pub mod data_row;
pub mod enums;
pub mod float_bits;
pub mod lemmas;
pub mod missing_value;
pub mod rows;
pub mod search;
pub mod sounding;
pub mod station_info;
pub mod validation;

pub use crate::data_row::{Cell, DataRow};
pub use crate::enums::{Index, Profile, Surface};
pub use crate::float_bits::{Real, MISSING_REAL_BITS};
pub use crate::missing_value::{MissingData, OptionVal, MISSING_I32};
pub use crate::rows::{Direction, ProfileIterator};
pub use crate::search::{find_bracket, nearest_level, Bracket};
pub use crate::sounding::Sounding;
pub use crate::station_info::StationInfo;
pub use crate::validation::{ValidationFailure, Violation, HAINES_MAX, HAINES_MIN};
