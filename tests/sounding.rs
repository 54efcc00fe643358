use sounding_base::{
    find_bracket, nearest_level, Bracket, Cell, DataRow, Direction, Index, OptionVal, Profile,
    ProfileIterator, Real,
    Sounding, StationInfo, Surface, Violation,
};

fn c(x: f64) -> Cell {
    OptionVal::from_option(Some(Real { bits: x.to_bits() }))
}

fn missing() -> Cell {
    OptionVal::none()
}

fn v(cell: Cell) -> Option<f64> {
    cell.as_option().map(|r| f64::from_bits(r.bits))
}

fn cs(xs: &[f64]) -> Vec<Cell> {
    xs.iter().map(|x| c(*x)).collect()
}

fn vs(cells: &[Cell]) -> Vec<Option<f64>> {
    cells.iter().map(|x| v(*x)).collect()
}

fn row_values(r: &DataRow) -> Vec<Option<f64>> {
    vec![
        v(r.pressure),
        v(r.temperature),
        v(r.wet_bulb),
        v(r.dew_point),
        v(r.theta_e),
        v(r.direction),
        v(r.speed),
        v(r.omega),
        v(r.height),
        v(r.cloud_fraction),
    ]
}

fn make_test_sounding() -> Sounding {
    Sounding::new()
        .set_pressure_profile(cs(&[1000.0, 925.0, 850.0, 700.0]))
        .set_temperature_profile(cs(&[20.0, 18.0, 10.0, 2.0]))
        .set_sfc_temperature(c(21.0))
        .set_station_pressure(c(1005.0))
}

fn create_valid_test_sounding() -> Sounding {
    let stn = StationInfo::new()
        .with_station(OptionVal::from_option(Some(1)))
        .with_lat_lon(Some((Real { bits: 45.0f64.to_bits() }, Real { bits: (-115.0f64).to_bits() })))
        .with_elevation(c(1023.0));
    Sounding::new()
        .set_lead_time(OptionVal::from_option(Some(0)))
        .set_index(Index::Showalter, c(-2.0))
        .set_index(Index::LiftedIndex, c(-2.0))
        .set_index(Index::Sweat, c(35.0))
        .set_index(Index::K, c(45.0))
        .set_index(Index::LclPressure, c(850.0))
        .set_index(Index::PrecipitableWater, c(2.0))
        .set_index(Index::TotalTotals, c(55.0))
        .set_index(Index::Cape, c(852.0))
        .set_index(Index::LclTemperature, c(12.0))
        .set_index(Index::Cin, c(-200.0))
        .set_index(Index::EquilibriumLevel, c(222.0))
        .set_index(Index::LevelOfFreeConvection, c(800.0))
        .set_index(Index::BulkRichardson, c(1.2))
        .set_haines(OptionVal::from_option(Some(6)))
        .set_mslp(c(1014.0))
        .set_station_pressure(c(847.0))
        .set_pressure_profile(cs(&[840.0, 800.0, 700.0, 500.0, 300.0, 250.0, 200.0, 100.0]))
        .set_temperature_profile(cs(&[20.0, 15.0, 2.0, -10.0, -20.0, -30.0, -50.0, -45.0]))
        .set_wet_bulb_profile(cs(&[20.0, 14.0, 1.0, -11.0, -25.0, -39.0, -58.0, -60.0]))
        .set_dew_point_profile(cs(&[20.0, 13.0, 0.0, -12.0, -27.0, -45.0, -62.0, -80.0]))
        .set_wind_profile(
            cs(&[0.0, 40.0, 80.0, 120.0, 160.0, 200.0, 240.0, 280.0]),
            cs(&[5.0, 10.0, 15.0, 12.0, 27.0, 45.0, 62.0, 80.0]),
        )
        .set_height_profile(cs(&[100.0, 200.0, 300.0, 400.0, 500.0, 650.0, 700.0, 800.0]))
        .set_cloud_fraction_profile(cs(&[100.0, 85.0, 70.0, 50.0, 30.0, 25.0, 20.0, 10.0]))
        .set_station_info(stn)
}

fn create_invalid_test_sounding() -> Sounding {
    create_valid_test_sounding().set_haines(OptionVal::from_option(Some(1)))
}

fn violations_of(snd: &Sounding) -> Vec<Violation> {
    match snd.validate() {
        Ok(()) => vec![],
        Err(f) => f.violations,
    }
}

#[test]
fn test_profile() {
    let snd = make_test_sounding();

    assert!(snd.pressure_profile().iter().all(|t| t.is_some()));
    assert!(snd.temperature_profile().iter().all(|t| t.is_some()));
    assert_eq!(snd.pressure_profile().iter().filter(|p| p.is_some()).count(), 5);
    assert_eq!(snd.temperature_profile().iter().filter(|t| t.is_some()).count(), 5);
}

#[test]
fn test_validate() {
    let snd = create_valid_test_sounding();
    assert!(snd.validate().is_ok());

    let snd = create_invalid_test_sounding();
    assert!(snd.validate().is_err());
}

#[test]
fn option_round_trip() {
    assert_eq!(OptionVal::from_option(Some(727730i32)).as_option(), Some(727730));
    assert_eq!(OptionVal::<i32>::from_option(None).as_option(), None);
    let r = Real { bits: 1013.25f64.to_bits() };
    assert_eq!(OptionVal::from_option(Some(r)).as_option(), Some(r));
    assert_eq!(OptionVal::<Real>::from_option(None).as_option(), None);
    let nan = Real { bits: f64::NAN.to_bits() };
    assert_eq!(OptionVal::from_option(Some(nan)).as_option(), Some(nan));
    // The flag itself is not representable as data.
    assert_eq!(OptionVal::from_value(sounding_base::MISSING_I32).as_option(), None);
    assert_eq!(OptionVal::<i32>::default().as_option(), None);
    assert_eq!(OptionVal::from_value(-9998i32).unwrap(), -9998);
    assert_eq!(OptionVal::<i32>::none().unwrap(), -9999);
}

#[test]
fn profile_lengths_follow_pressure() {
    let snd = create_valid_test_sounding();
    let n = snd.get_profile(Profile::Pressure).len();
    assert_eq!(n, 9);
    for p in [
        Profile::Temperature,
        Profile::WetBulb,
        Profile::DewPoint,
        Profile::ThetaE,
        Profile::WindDirection,
        Profile::WindSpeed,
        Profile::PressureVerticalVelocity,
        Profile::GeopotentialHeight,
        Profile::CloudFraction,
    ] {
        let len = snd.get_profile(p).len();
        assert!(len == 0 || len == n, "{}", p.name());
    }
    let snd = snd.set_station_pressure(c(850.0)).set_sfc_temperature(c(25.0));
    assert_eq!(snd.get_profile(Profile::Pressure).len(), 9);
    assert_eq!(snd.get_profile(Profile::Temperature).len(), 9);
    assert_eq!(snd.get_profile(Profile::ThetaE).len(), 0);
}

#[test]
fn empty_profile_is_not_supplied() {
    let snd = Sounding::new().set_station_pressure(c(1000.0)).set_pressure_profile(vec![]);
    assert!(snd.pressure_profile().is_empty());
    assert!(Sounding::new().pressure_profile().is_empty());
}

#[test]
fn set_profile_puts_surface_first() {
    let stn = StationInfo::new().with_elevation(c(320.0));
    let snd = Sounding::new()
        .set_station_info(stn)
        .set_station_pressure(c(1013.25))
        .set_pressure_profile(cs(&[1000.0, 900.0]))
        .set_height_profile(cs(&[400.0, 1000.0]))
        .set_pvv_profile(cs(&[-1.0, -2.0]))
        .set_cloud_fraction_profile(cs(&[10.0, 20.0]))
        .set_temperature_profile(cs(&[10.0, 5.0]));
    assert_eq!(vs(snd.pressure_profile()), vec![Some(1013.25), Some(1000.0), Some(900.0)]);
    assert_eq!(vs(snd.height_profile()), vec![Some(320.0), Some(400.0), Some(1000.0)]);
    assert_eq!(vs(snd.pvv_profile()), vec![Some(0.0), Some(-1.0), Some(-2.0)]);
    assert_eq!(vs(snd.cloud_fraction_profile()), vec![Some(0.0), Some(10.0), Some(20.0)]);
    assert_eq!(vs(snd.temperature_profile()), vec![None, Some(10.0), Some(5.0)]);
}

#[test]
fn surface_value_starts_profile() {
    let snd = Sounding::new()
        .set_pressure_profile(cs(&[1000.0, 900.0]))
        .set_temperature_profile(cs(&[10.0, 5.0]))
        .set_dew_point_profile(cs(&[5.0, 0.0]))
        .set_wind_profile(cs(&[90.0, 180.0]), cs(&[10.0, 20.0]));
    let snd = snd
        .set_station_pressure(c(1013.25))
        .set_sfc_temperature(c(12.5))
        .set_sfc_dew_point(c(6.5))
        .set_sfc_wind(c(45.0), c(3.0));
    assert_eq!(v(snd.pressure_profile()[0]), Some(1013.25));
    assert_eq!(v(snd.temperature_profile()[0]), Some(12.5));
    assert_eq!(v(snd.dew_point_profile()[0]), Some(6.5));
    assert_eq!(v(snd.wind_direction_profile()[0]), Some(45.0));
    assert_eq!(v(snd.wind_speed_profile()[0]), Some(3.0));
    assert_eq!(v(snd.pressure_profile()[1]), Some(1000.0));
    assert_eq!(v(snd.station_pressure()), Some(1013.25));
    assert_eq!(v(snd.get_surface_value(Surface::Temperature)), Some(12.5));
    let (dir, spd) = snd.sfc_wind();
    assert_eq!((v(dir), v(spd)), (Some(45.0), Some(3.0)));
    // A value without a profile leaves the profiles alone.
    let snd = snd.set_mslp(c(1020.0)).set_precipitation(c(2.5)).set_low_cloud(c(0.5));
    assert_eq!(v(snd.mslp()), Some(1020.0));
    assert_eq!(v(snd.precipitation()), Some(2.5));
    assert_eq!(v(snd.low_cloud()), Some(0.5));
    assert_eq!(v(snd.mid_cloud()), None);
    assert_eq!(v(snd.high_cloud()), None);
    assert_eq!(snd.pressure_profile().len(), 3);
}

#[test]
fn surface_derived_values() {
    let snd = Sounding::new()
        .set_wet_bulb_profile(cs(&[8.0]))
        .set_theta_e_profile(cs(&[300.0]));
    // Incomplete surface data: the profiles keep their first value.
    let snd = snd.set_surface_derived(c(9.0), c(310.0));
    assert_eq!(v(snd.wet_bulb_profile()[0]), None);
    let snd = snd
        .set_station_pressure(c(1000.0))
        .set_sfc_temperature(c(20.0))
        .set_sfc_dew_point(c(10.0))
        .set_surface_derived(c(14.0), c(320.0));
    assert_eq!(v(snd.wet_bulb_profile()[0]), Some(14.0));
    assert_eq!(v(snd.theta_e_profile()[0]), Some(320.0));
    let snd = snd.set_wet_bulb_profile(cs(&[7.0, 6.0]));
    assert_eq!(vs(snd.wet_bulb_profile()), vec![Some(14.0), Some(7.0), Some(6.0)]);
}

#[test]
fn top_down_reverses_bottom_up() {
    let snd = make_test_sounding();
    let up = snd.bottom_up();
    let down = snd.top_down();
    assert_eq!(up.len(), 5);
    assert_eq!(down.len(), 5);
    for i in 0..5 {
        assert_eq!(row_values(&up[i]), row_values(&down[4 - i]));
    }
    assert_eq!(v(down[0].pressure), Some(700.0));
    assert_eq!(v(down[0].temperature), Some(2.0));
    assert_eq!(v(up[0].pressure), Some(1005.0));
    assert_eq!(v(up[0].temperature), Some(21.0));
    assert!(Sounding::new().bottom_up().is_empty());
    assert!(Sounding::new().top_down().is_empty());
}

#[test]
fn data_rows() {
    let snd = make_test_sounding();
    let row = snd.get_data_row(2).unwrap();
    assert_eq!(v(row.pressure), Some(925.0));
    assert_eq!(v(row.temperature), Some(18.0));
    assert_eq!(v(row.dew_point), None);
    let sfc = snd.surface_as_data_row().unwrap();
    assert_eq!(v(sfc.pressure), Some(1005.0));
    assert_eq!(v(sfc.temperature), Some(21.0));
    // A profile shorter than the pressure profile leaves the field missing.
    let snd = snd.set_dew_point_profile(cs(&[5.0]));
    assert_eq!(v(snd.get_data_row(1).unwrap().dew_point), Some(5.0));
    assert_eq!(v(snd.get_data_row(3).unwrap().dew_point), None);
}

#[test]
fn no_row_past_the_end() {
    let snd = make_test_sounding();
    assert!(snd.get_data_row(5).is_none());
    assert!(snd.get_data_row(100).is_none());
    assert!(Sounding::new().get_data_row(0).is_none());
    assert!(Sounding::new().surface_as_data_row().is_none());
}

#[test]
fn validation_reports_haines() {
    let snd = create_invalid_test_sounding();
    let found = violations_of(&snd);
    assert_eq!(found, vec![Violation::HainesOutOfRange { value: 1 }]);
    assert!(found[0].description().contains("Haines"));
    let snd = create_valid_test_sounding().set_haines(OptionVal::from_option(Some(7)));
    assert_eq!(violations_of(&snd), vec![Violation::HainesOutOfRange { value: 7 }]);
    let snd = create_valid_test_sounding().set_haines(OptionVal::from_option(Some(2)));
    assert!(snd.validate().is_ok());
}

#[test]
fn validation_accumulates_every_violation() {
    let snd = create_valid_test_sounding()
        .set_index(Index::Cin, c(15.0))
        .set_index(Index::Cape, c(-1.0))
        .set_index(Index::PrecipitableWater, c(-0.5))
        .set_mid_cloud(c(-3.0))
        .set_theta_e_profile(cs(&[300.0, 301.0]));
    assert_eq!(
        violations_of(&snd),
        vec![
            Violation::ProfileLength { profile: Profile::ThetaE },
            Violation::NegativeSurfaceValue { surface: Surface::MidCloud },
            Violation::NegativeIndex { index: Index::Cape },
            Violation::NegativeIndex { index: Index::PrecipitableWater },
            Violation::PositiveCin,
        ]
    );
}

#[test]
fn validation_of_levels() {
    let snd = Sounding::new()
        .set_station_pressure(c(1000.0))
        .set_pressure_profile(cs(&[900.0, 950.0, 800.0]))
        .set_height_profile(cs(&[1000.0, 900.0, 1200.0]))
        .set_temperature_profile(cs(&[10.0, 5.0, 0.0]))
        .set_wet_bulb_profile(cs(&[11.0, 4.0, -1.0]))
        .set_dew_point_profile(cs(&[9.0, 4.5, -2.0]))
        .set_wind_profile(cs(&[0.0, 0.0, 0.0]), cs(&[5.0, -1.0, 5.0]))
        .set_cloud_fraction_profile(cs(&[-5.0, 0.0, 0.0]));
    assert_eq!(
        violations_of(&snd),
        vec![
            Violation::PressureIncreasing { level: 2 },
            Violation::HeightDecreasing { level: 2 },
            Violation::TemperatureBelowWetBulb { level: 1 },
            Violation::WetBulbBelowDewPoint { level: 2 },
            Violation::NegativeProfileValue { profile: Profile::WindSpeed, level: 2 },
            Violation::NegativeProfileValue { profile: Profile::CloudFraction, level: 1 },
        ]
    );
}

#[test]
fn validation_of_empty_sounding() {
    assert!(Sounding::new().validate().is_ok());
}

#[test]
fn nearest_point_ties_go_to_first_level() {
    let target = 750.0f64;
    let snd = Sounding::new()
        .set_station_pressure(c(900.0))
        .set_pressure_profile(cs(&[800.0, 700.0, 500.0]))
        .set_temperature_profile(cs(&[1.0, 2.0, 3.0]));
    let distances: Vec<Cell> = snd
        .pressure_profile()
        .iter()
        .map(|p| c((target - v(*p).unwrap()).abs()))
        .collect();
    assert_eq!(nearest_level(&distances), 1);
    let row = snd.fetch_nearest_pnt(&distances).unwrap();
    assert_eq!(v(row.pressure), Some(800.0));
    assert_eq!(v(row.temperature), Some(1.0));
}

#[test]
fn nearest_level_scan() {
    assert_eq!(nearest_level(&cs(&[30.0, 20.0, 10.0, 5.0])), 3);
    assert_eq!(nearest_level(&cs(&[30.0, 20.0, 25.0, 1.0])), 1);
    assert_eq!(nearest_level(&vec![missing(), c(4.0), missing(), c(2.0)]), 3);
    assert_eq!(nearest_level(&vec![missing(), missing()]), 0);
    assert_eq!(nearest_level(&vec![]), 0);
    assert!(Sounding::new().fetch_nearest_pnt(&vec![]).is_none());
}

#[test]
fn bracket_at_a_level_is_exact() {
    let snd = make_test_sounding();
    let b = snd.bracket(Real { bits: 850.0f64.to_bits() });
    assert_eq!(b, Bracket::Exact(3));
    let row = snd.get_data_row(3).unwrap();
    assert_eq!(v(row.pressure), Some(850.0));
    assert_eq!(v(row.temperature), Some(10.0));
}

#[test]
fn bracket_between_and_outside() {
    let snd = make_test_sounding();
    assert_eq!(
        snd.bracket(Real { bits: 800.0f64.to_bits() }),
        Bracket::Between { below: 3, above: 4 }
    );
    assert_eq!(snd.bracket(Real { bits: 1010.0f64.to_bits() }), Bracket::Outside);
    assert_eq!(snd.bracket(Real { bits: 600.0f64.to_bits() }), Bracket::Outside);
    let ps = vec![c(1000.0), missing(), c(800.0)];
    assert_eq!(find_bracket(&ps, Real { bits: 900.0f64.to_bits() }), Bracket::Between { below: 0, above: 2 });
    assert_eq!(find_bracket(&ps, Real { bits: f64::NAN.to_bits() }), Bracket::Outside);
}

#[test]
fn float_order() {
    let r = |x: f64| Real { bits: x.to_bits() };
    assert!(r(-2.0).lt(r(-1.0)));
    assert!(r(-1.0).lt(r(0.0)));
    assert!(r(1.0).lt(r(1.5)));
    assert!(!r(1.5).lt(r(1.0)));
    assert!(r(-0.0).float_eq(r(0.0)));
    assert!(!r(-0.0).lt(r(0.0)));
    assert!(!r(f64::NAN).lt(r(1.0)));
    assert!(!r(1.0).lt(r(f64::NAN)));
    assert!(r(f64::NAN).is_nan());
    assert!(!r(f64::INFINITY).is_nan());
    assert!(r(f64::NEG_INFINITY).lt(r(-1e300)));
}

#[test]
fn metadata() {
    let stn = StationInfo::new_with_values(
        OptionVal::from_option(Some(727730)),
        Some((Real { bits: 45.5f64.to_bits() }, Real { bits: (-113.0f64).to_bits() })),
        c(2000.0),
    );
    let snd = Sounding::new().set_station_info(stn).set_lead_time(OptionVal::from_option(Some(24)));
    assert_eq!(snd.station_info().station_num().as_option(), Some(727730));
    assert_eq!(v(snd.station_info().elevation()), Some(2000.0));
    assert_eq!(
        snd.station_info().location(),
        Some((Real { bits: 45.5f64.to_bits() }, Real { bits: (-113.0f64).to_bits() }))
    );
    assert_eq!(snd.get_lead_time().as_option(), Some(24));
    assert!(snd.get_valid_time().is_none());
    let vt = chrono::NaiveDate::from_ymd_opt(2018, 3, 8).unwrap().and_hms_opt(12, 0, 0).unwrap();
    let snd = snd.set_valid_time(Some(vt));
    assert_eq!(snd.get_valid_time(), Some(vt));
    assert!(StationInfo::new().station_num().as_option().is_none());
    assert!(StationInfo::new().location().is_none());
    assert_eq!(snd.get_index(Index::Cape).as_option(), None);
    let snd = snd.set_index(Index::Cape, c(1500.0));
    assert_eq!(v(snd.get_index(Index::Cape)), Some(1500.0));
    assert_eq!(snd.haines().as_option(), None);
}

#[test]
fn names() {
    assert_eq!(Profile::WetBulb.name(), "wet bulb temperature");
    assert_eq!(Surface::Temperature.name(), "2-meter temperature");
}

#[test]
fn option_conversions() {
    let cell: OptionVal<i32> = OptionVal::from(Some(12));
    let back: Option<i32> = cell.into();
    assert_eq!(back, Some(12));
    let cell: OptionVal<i32> = OptionVal::from(None);
    let back: Option<i32> = cell.into();
    assert_eq!(back, None);
    let cell: OptionVal<i32> = OptionVal::from(5);
    assert!(cell.is_some());
    assert_eq!(cell.as_option(), Some(5));
}

#[test]
fn top_down_cursor_ends_at_surface() {
    let snd = Sounding::new()
        .set_pressure_profile(cs(&[1000.0, 925.0, 850.0, 700.0, 500.0, 300.0, 250.0, 100.0]))
        .set_temperature_profile(cs(&[13.0, 7.0, 5.0, -4.5, -20.6, -44.0, -52.0, -56.5]))
        .set_station_pressure(c(1013.25))
        .set_sfc_temperature(c(15.0));
    let mut iter = snd.top_down_iter();
    let expected = [
        (100.0, -56.5),
        (250.0, -52.0),
        (300.0, -44.0),
        (500.0, -20.6),
        (700.0, -4.5),
        (850.0, 5.0),
        (925.0, 7.0),
        (1000.0, 13.0),
        (1013.25, 15.0),
    ];
    for (p, t) in expected {
        let row = iter.next().unwrap();
        assert_eq!(v(row.pressure), Some(p));
        assert_eq!(v(row.temperature), Some(t));
    }
    assert!(iter.next().is_none());
    assert!(iter.next().is_none());

    let mut up = snd.bottom_up_iter();
    assert_eq!(v(up.next().unwrap().pressure), Some(1013.25));
    let mut fresh = ProfileIterator::new(&snd, Direction::BottomUp);
    assert_eq!(v(fresh.next().unwrap().pressure), Some(1013.25));
    assert!(Sounding::new().top_down_iter().next().is_none());
}
