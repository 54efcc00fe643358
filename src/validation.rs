//! Sanity checks of a sounding. Every check runs and every violation found is reported, so a
//! single call shows all that is wrong with the data.

use vstd::prelude::*;

use crate::data_row::Cell;
use crate::enums::{Index, Profile, Surface};
use crate::float_bits::{real_lt, Real, ZERO_BITS};
use crate::search::{
    is_number, last_number_before, lemma_last_number_before_bounds,
    lemma_last_number_before_step,
};
use crate::sounding::{num_rows, Sounding};

verus! {

/// The smallest valid Haines index.
pub const HAINES_MIN: i32 = 2;

/// The largest valid Haines index.
pub const HAINES_MAX: i32 = 6;

/// One rule of a valid sounding that the data breaks.
#[derive(Clone, Copy, Debug, PartialEq, Eq, Structural)]
pub enum Violation {
    /// A non-empty profile whose length differs from that of the pressure profile.
    ProfileLength { profile: Profile },
    /// The pressure at this level is higher than at the level below it.
    PressureIncreasing { level: usize },
    /// The height at this level is lower than at the level below it.
    HeightDecreasing { level: usize },
    /// The temperature at this level is below the wet bulb temperature.
    TemperatureBelowWetBulb { level: usize },
    /// The wet bulb temperature at this level is below the dew point.
    WetBulbBelowDewPoint { level: usize },
    /// A negative wind speed or cloud fraction in a profile.
    NegativeProfileValue { profile: Profile, level: usize },
    /// A negative cloud fraction at the surface.
    NegativeSurfaceValue { surface: Surface },
    /// A negative CAPE or precipitable water.
    NegativeIndex { index: Index },
    /// A positive convective inhibition.
    PositiveCin,
    /// A Haines index outside of its range.
    HainesOutOfRange { value: i32 },
}

impl Violation {
    /// What kind of rule was broken, in words.
    pub fn description(&self) -> (r: &'static str)
        ensures
            self matches Violation::HainesOutOfRange { .. } ==> r@ == "Haines index out of range"@,
    {
        match self {
            Violation::ProfileLength { .. } => "profile length does not match pressure profile",
            Violation::PressureIncreasing { .. } => "pressure increasing with height",
            Violation::HeightDecreasing { .. } => "height decreasing with height",
            Violation::TemperatureBelowWetBulb { .. } => "temperature below wet bulb",
            Violation::WetBulbBelowDewPoint { .. } => "wet bulb below dew point",
            Violation::NegativeProfileValue { .. } => "negative value in profile",
            Violation::NegativeSurfaceValue { .. } => "negative surface cloud fraction",
            Violation::NegativeIndex { .. } => "negative index value",
            Violation::PositiveCin => "positive convective inhibition",
            Violation::HainesOutOfRange { .. } => "Haines index out of range",
        }
    }
}

/// All the violations that `validate` found, in the order the checks ran.
#[derive(Clone, Debug)]
pub struct ValidationFailure {
    pub violations: Vec<Violation>,
}

/// The violations that `f` reports for levels `0 .. n`, in level order.
pub open spec fn collect(n: nat, f: spec_fn(int) -> Option<Violation>) -> Seq<Violation>
    decreases n,
{
    if n == 0 {
        Seq::empty()
    } else {
        let prev = collect((n - 1) as nat, f);
        match f(n - 1) {
            Some(v) => prev.push(v),
            None => prev,
        }
    }
}

/// The value of element `i` of a profile, known to be a number.
pub open spec fn num(ps: Seq<Cell>, i: int) -> Real {
    ps[i]@.unwrap()
}

/// `+0.0`.
pub open spec fn zero() -> Real {
    Real { bits: ZERO_BITS }
}

/// The profiles whose length is checked against that of the pressure profile, in order.
pub open spec fn checked_profiles() -> Seq<Profile> {
    seq![
        Profile::Temperature,
        Profile::WetBulb,
        Profile::DewPoint,
        Profile::ThetaE,
        Profile::WindDirection,
        Profile::WindSpeed,
        Profile::PressureVerticalVelocity,
        Profile::GeopotentialHeight,
        Profile::CloudFraction,
    ]
}

/// Rule: every non-empty profile is as long as the pressure profile.
pub open spec fn length_rule(s: Sounding) -> spec_fn(int) -> Option<Violation> {
    |k: int|
        {
            let p = checked_profiles()[k];
            if s.spec_profile(p).len() != 0 && s.spec_profile(p).len() != num_rows(s) {
                Some(Violation::ProfileLength { profile: p })
            } else {
                None
            }
        }
}

/// Rule: pressure never increases going up: each number is compared with the last number
/// below it.
pub open spec fn pressure_rule(s: Sounding) -> spec_fn(int) -> Option<Violation> {
    |i: int|
        {
            let ps = s.spec_profile(Profile::Pressure);
            let j = last_number_before(ps, i);
            if is_number(ps, i) && j >= 0 && real_lt(num(ps, j), num(ps, i)) {
                Some(Violation::PressureIncreasing { level: i as usize })
            } else {
                None
            }
        }
}

/// Rule: height never decreases going up.
pub open spec fn height_rule(s: Sounding) -> spec_fn(int) -> Option<Violation> {
    |i: int|
        {
            let hs = s.spec_profile(Profile::GeopotentialHeight);
            let j = last_number_before(hs, i);
            if is_number(hs, i) && j >= 0 && real_lt(num(hs, i), num(hs, j)) {
                Some(Violation::HeightDecreasing { level: i as usize })
            } else {
                None
            }
        }
}

/// Whether temperature, wet bulb and dew point are all numbers at level `i`.
pub open spec fn all_three(s: Sounding, i: int) -> bool {
    &&& is_number(s.spec_profile(Profile::Temperature), i)
    &&& is_number(s.spec_profile(Profile::WetBulb), i)
    &&& is_number(s.spec_profile(Profile::DewPoint), i)
}

/// Rule: temperature is at least the wet bulb, where all three temperatures are given.
pub open spec fn wet_bulb_rule(s: Sounding) -> spec_fn(int) -> Option<Violation> {
    |i: int|
        if all_three(s, i) && real_lt(
            num(s.spec_profile(Profile::Temperature), i),
            num(s.spec_profile(Profile::WetBulb), i),
        ) {
            Some(Violation::TemperatureBelowWetBulb { level: i as usize })
        } else {
            None
        }
}

/// Rule: wet bulb is at least the dew point, where all three temperatures are given.
pub open spec fn dew_point_rule(s: Sounding) -> spec_fn(int) -> Option<Violation> {
    |i: int|
        if all_three(s, i) && real_lt(
            num(s.spec_profile(Profile::WetBulb), i),
            num(s.spec_profile(Profile::DewPoint), i),
        ) {
            Some(Violation::WetBulbBelowDewPoint { level: i as usize })
        } else {
            None
        }
}

/// Rule: no value of profile `p` is negative.
pub open spec fn non_negative_rule(s: Sounding, p: Profile) -> spec_fn(int) -> Option<Violation> {
    |i: int|
        if is_number(s.spec_profile(p), i) && real_lt(num(s.spec_profile(p), i), zero()) {
            Some(Violation::NegativeProfileValue { profile: p, level: i as usize })
        } else {
            None
        }
}

/// `v` alone where `cond` holds, else nothing.
pub open spec fn only_if(cond: bool, v: Violation) -> Seq<Violation> {
    if cond {
        seq![v]
    } else {
        Seq::empty()
    }
}

/// Whether a value is present and negative.
pub open spec fn negative(c: Cell) -> bool {
    c@.is_some() && real_lt(c@.unwrap(), zero())
}

/// `acc` followed by the violations among the single values: surface cloud fractions, CAPE,
/// precipitable water, convective inhibition and the Haines index.
pub open spec fn with_scalar_violations(acc: Seq<Violation>, s: Sounding) -> Seq<Violation> {
    acc
        + only_if(negative(s.spec_surface(Surface::LowCloud)), Violation::NegativeSurfaceValue { surface: Surface::LowCloud })
        + only_if(negative(s.spec_surface(Surface::MidCloud)), Violation::NegativeSurfaceValue { surface: Surface::MidCloud })
        + only_if(negative(s.spec_surface(Surface::HighCloud)), Violation::NegativeSurfaceValue { surface: Surface::HighCloud })
        + only_if(negative(s.spec_index(Index::Cape)), Violation::NegativeIndex { index: Index::Cape })
        + only_if(negative(s.spec_index(Index::PrecipitableWater)), Violation::NegativeIndex { index: Index::PrecipitableWater })
        + only_if(
        s.spec_index(Index::Cin)@.is_some() && real_lt(zero(), s.spec_index(Index::Cin)@.unwrap()),
        Violation::PositiveCin,
    ) + only_if(
        s.spec_haines()@.is_some() && (s.spec_haines()@.unwrap() < HAINES_MIN
            || s.spec_haines()@.unwrap() > HAINES_MAX),
        Violation::HainesOutOfRange { value: s.spec_haines()@.unwrap() },
    )
}

/// Every violation of the sounding, in the order the checks run.
pub open spec fn violations(s: Sounding) -> Seq<Violation> {
    with_scalar_violations(
        collect(9, length_rule(s))
            + collect(s.spec_profile(Profile::Pressure).len(), pressure_rule(s))
            + collect(s.spec_profile(Profile::GeopotentialHeight).len(), height_rule(s))
            + collect(s.spec_profile(Profile::Temperature).len(), wet_bulb_rule(s))
            + collect(s.spec_profile(Profile::Temperature).len(), dew_point_rule(s))
            + collect(s.spec_profile(Profile::WindSpeed).len(), non_negative_rule(s, Profile::WindSpeed))
            + collect(
            s.spec_profile(Profile::CloudFraction).len(),
            non_negative_rule(s, Profile::CloudFraction),
        ),
        s,
    )
}

/// Element `k` of `checked_profiles()`.
fn checked_profile(k: usize) -> (r: Profile)
    requires
        k < 9,
    ensures
        r == checked_profiles()[k as int],
{
    match k {
        0 => Profile::Temperature,
        1 => Profile::WetBulb,
        2 => Profile::DewPoint,
        3 => Profile::ThetaE,
        4 => Profile::WindDirection,
        5 => Profile::WindSpeed,
        6 => Profile::PressureVerticalVelocity,
        7 => Profile::GeopotentialHeight,
        _ => Profile::CloudFraction,
    }
}

/// Whether a cell holds a number (present and not a NaN).
fn number_at(ps: &Vec<Cell>, i: usize) -> (r: bool)
    ensures
        r == is_number(ps@, i as int),
{
    i < ps.len() && ps[i].is_some() && !ps[i].value.is_nan()
}

fn check_lengths(s: &Sounding, out: &mut Vec<Violation>)
    ensures
        final(out)@ == old(out)@ + collect(9, length_rule(*s)),
{
    let n = s.get_profile(Profile::Pressure).len();
    let mut k: usize = 0;
    while k < 9
        invariant
            k <= 9,
            n == num_rows(*s),
            out@ == old(out)@ + collect(k as nat, length_rule(*s)),
        decreases 9 - k,
    {
        let p = checked_profile(k);
        let len = s.get_profile(p).len();
        if len != 0 && len != n {
            out.push(Violation::ProfileLength { profile: p });
        }
        proof {
            assert(out@ =~= old(out)@ + collect((k + 1) as nat, length_rule(*s)));
        }
        k = k + 1;
    }
}

/// The levels that break the vertical order of profile `which`: a pressure above the last
/// pressure below it, or a height below the last height below it.
fn check_order(s: &Sounding, which: Profile, out: &mut Vec<Violation>)
    requires
        which == Profile::Pressure || which == Profile::GeopotentialHeight,
    ensures
        which == Profile::Pressure ==> final(out)@ == old(out)@ + collect(
            s.spec_profile(Profile::Pressure).len(),
            pressure_rule(*s),
        ),
        which == Profile::GeopotentialHeight ==> final(out)@ == old(out)@ + collect(
            s.spec_profile(Profile::GeopotentialHeight).len(),
            height_rule(*s),
        ),
{
    let ps = s.get_profile(which);
    let n = ps.len();
    let mut prev: Option<Real> = None;
    let mut i: usize = 0;
    while i < n
        invariant
            ps@ == s.spec_profile(which),
            which == Profile::Pressure || which == Profile::GeopotentialHeight,
            n == ps@.len(),
            i <= n,
            prev == (if last_number_before(ps@, i as int) >= 0 {
                Some(num(ps@, last_number_before(ps@, i as int)))
            } else {
                None
            }),
            which == Profile::Pressure ==> out@ == old(out)@ + collect(
                i as nat,
                pressure_rule(*s),
            ),
            which == Profile::GeopotentialHeight ==> out@ == old(out)@ + collect(
                i as nat,
                height_rule(*s),
            ),
        decreases n - i,
    {
        proof {
            lemma_last_number_before_bounds(ps@, i as int);
            lemma_last_number_before_step(ps@, i as int);
        }
        if number_at(ps, i) {
            let v = ps[i].value;
            if let Some(pv) = prev {
                match which {
                    Profile::Pressure => {
                        if pv.lt(v) {
                            out.push(Violation::PressureIncreasing { level: i });
                        }
                    },
                    _ => {
                        if v.lt(pv) {
                            out.push(Violation::HeightDecreasing { level: i });
                        }
                    },
                }
            }
            prev = Some(v);
        }
        proof {
            if which == Profile::Pressure {
                assert(out@ =~= old(out)@ + collect((i + 1) as nat, pressure_rule(*s)));
            } else {
                assert(out@ =~= old(out)@ + collect((i + 1) as nat, height_rule(*s)));
            }
        }
        i = i + 1;
    }
}

fn check_temperatures(s: &Sounding, dew_point: bool, out: &mut Vec<Violation>)
    ensures
        !dew_point ==> final(out)@ == old(out)@ + collect(
            s.spec_profile(Profile::Temperature).len(),
            wet_bulb_rule(*s),
        ),
        dew_point ==> final(out)@ == old(out)@ + collect(
            s.spec_profile(Profile::Temperature).len(),
            dew_point_rule(*s),
        ),
{
    let t = s.get_profile(Profile::Temperature);
    let w = s.get_profile(Profile::WetBulb);
    let d = s.get_profile(Profile::DewPoint);
    let n = t.len();
    let mut i: usize = 0;
    while i < n
        invariant
            t@ == s.spec_profile(Profile::Temperature),
            w@ == s.spec_profile(Profile::WetBulb),
            d@ == s.spec_profile(Profile::DewPoint),
            n == t@.len(),
            i <= n,
            !dew_point ==> out@ == old(out)@ + collect(i as nat, wet_bulb_rule(*s)),
            dew_point ==> out@ == old(out)@ + collect(i as nat, dew_point_rule(*s)),
        decreases n - i,
    {
        if number_at(t, i) && number_at(w, i) && number_at(d, i) {
            if !dew_point && t[i].value.lt(w[i].value) {
                out.push(Violation::TemperatureBelowWetBulb { level: i });
            } else if dew_point && w[i].value.lt(d[i].value) {
                out.push(Violation::WetBulbBelowDewPoint { level: i });
            }
        }
        proof {
            if dew_point {
                assert(out@ =~= old(out)@ + collect((i + 1) as nat, dew_point_rule(*s)));
            } else {
                assert(out@ =~= old(out)@ + collect((i + 1) as nat, wet_bulb_rule(*s)));
            }
        }
        i = i + 1;
    }
}

fn check_non_negative(s: &Sounding, which: Profile, out: &mut Vec<Violation>)
    ensures
        final(out)@ == old(out)@ + collect(s.spec_profile(which).len(), non_negative_rule(*s, which)),
{
    let ps = s.get_profile(which);
    let n = ps.len();
    let zero = Real::zero();
    let mut i: usize = 0;
    while i < n
        invariant
            ps@ == s.spec_profile(which),
            n == ps@.len(),
            i <= n,
            zero == crate::validation::zero(),
            out@ == old(out)@ + collect(i as nat, non_negative_rule(*s, which)),
        decreases n - i,
    {
        if number_at(ps, i) && ps[i].value.lt(zero) {
            out.push(Violation::NegativeProfileValue { profile: which, level: i });
        }
        proof {
            assert(out@ =~= old(out)@ + collect((i + 1) as nat, non_negative_rule(*s, which)));
        }
        i = i + 1;
    }
}

/// Whether a cell holds a negative number.
fn is_negative(c: Cell) -> (r: bool)
    ensures
        r == negative(c),
{
    c.is_some() && c.value.lt(Real::zero())
}

fn push_when(out: &mut Vec<Violation>, cond: bool, v: Violation)
    ensures
        final(out)@ == old(out)@ + only_if(cond, v),
{
    if cond {
        out.push(v);
    }
    proof {
        assert(out@ =~= old(out)@ + only_if(cond, v));
    }
}

fn check_scalars(s: &Sounding, out: &mut Vec<Violation>)
    ensures
        final(out)@ == with_scalar_violations(old(out)@, *s),
{
    let low = is_negative(s.get_surface_value(Surface::LowCloud));
    push_when(out, low, Violation::NegativeSurfaceValue { surface: Surface::LowCloud });
    let mid = is_negative(s.get_surface_value(Surface::MidCloud));
    push_when(out, mid, Violation::NegativeSurfaceValue { surface: Surface::MidCloud });
    let high = is_negative(s.get_surface_value(Surface::HighCloud));
    push_when(out, high, Violation::NegativeSurfaceValue { surface: Surface::HighCloud });
    let cape = is_negative(s.get_index(Index::Cape));
    push_when(out, cape, Violation::NegativeIndex { index: Index::Cape });
    let pwat = is_negative(s.get_index(Index::PrecipitableWater));
    push_when(out, pwat, Violation::NegativeIndex { index: Index::PrecipitableWater });
    let cin = s.get_index(Index::Cin);
    let positive_cin = cin.is_some() && Real::zero().lt(cin.value);
    push_when(out, positive_cin, Violation::PositiveCin);
    let h = s.haines();
    let bad = h.is_some() && (h.value < HAINES_MIN || h.value > HAINES_MAX);
    push_when(out, bad, Violation::HainesOutOfRange { value: h.value });
    proof {
        assert(bad ==> h.value == s.spec_haines()@.unwrap());
    }
}

impl Sounding {
    /// Check the sounding against the rules of a valid sounding: non-empty profiles as long as
    /// the pressure profile, pressure not increasing and height not decreasing going up,
    /// temperature at least the wet bulb and wet bulb at least the dew point where all three
    /// are given, no negative wind speed, cloud fraction, CAPE or precipitable water, no
    /// positive convective inhibition, and a Haines index within its range. Every check runs;
    /// the failure lists all that was found.
    pub fn validate(&self) -> (r: Result<(), ValidationFailure>)
        ensures
            r is Ok <==> violations(*self).len() == 0,
            r matches Err(f) ==> f.violations@ == violations(*self),
    {
        let mut out: Vec<Violation> = Vec::new();
        check_lengths(self, &mut out);
        proof {
            assert(out@ =~= collect(9, length_rule(*self)));
        }
        check_order(self, Profile::Pressure, &mut out);
        check_order(self, Profile::GeopotentialHeight, &mut out);
        check_temperatures(self, false, &mut out);
        check_temperatures(self, true, &mut out);
        check_non_negative(self, Profile::WindSpeed, &mut out);
        check_non_negative(self, Profile::CloudFraction, &mut out);
        check_scalars(self, &mut out);
        if out.len() == 0 {
            Ok(())
        } else {
            Err(ValidationFailure { violations: out })
        }
    }
}

} // verus!
