//! Laws that relate the operations of a sounding.

use vstd::prelude::*;

use crate::data_row::Cell;
use crate::enums::{Index, Profile, Surface};
use crate::float_bits::{real_eq, real_lt, Real};
use crate::search::{
    bracket_spec, crossing_from, is_number, last_number_before, lemma_last_number_before_bounds,
    Bracket,
};
use crate::validation::{
    all_three, checked_profiles, collect, dew_point_rule, height_rule, length_rule, negative,
    non_negative_rule, num, pressure_rule, violations, wet_bulb_rule, only_if, zero, Violation,
    HAINES_MAX, HAINES_MIN,
};
use crate::sounding::{
    correlated_profile, derived_set, holds_nothing, num_rows, profile_set, row_at, row_option, rows_bottom_up,
    rows_top_down, surface_set, Sounding,
};

verus! {

/// Whether every profile is either empty or as long as the pressure profile.
pub open spec fn lengths_consistent(s: Sounding) -> bool {
    forall|p: Profile|
        #![trigger s.spec_profile(p)]
        s.spec_profile(p).len() == 0 || s.spec_profile(p).len() == num_rows(s)
}

/// Whether supplying `values` for profile `which` keeps the lengths of `a` consistent: an
/// empty pressure profile only where no other profile is left, and otherwise one value for
/// every level above the surface.
pub open spec fn fits(a: Sounding, which: Profile, values: Seq<Cell>) -> bool {
    if which == Profile::Pressure {
        forall|q: Profile|
            #![trigger a.spec_profile(q)]
            q != Profile::Pressure ==> a.spec_profile(q).len() == 0 || (values.len() > 0
                && a.spec_profile(q).len() == values.len() + 1)
    } else {
        values.len() == 0 || values.len() + 1 == num_rows(a)
    }
}

/// Setting a profile of fitting length keeps every profile empty or as long as the pressure
/// profile.
pub proof fn lemma_set_profile_keeps_lengths(
    a: Sounding,
    b: Sounding,
    which: Profile,
    values: Seq<Cell>,
)
    requires
        lengths_consistent(a),
        fits(a, which, values),
        profile_set(a, b, which, values),
    ensures
        lengths_consistent(b),
{
    assert forall|p: Profile| #![trigger b.spec_profile(p)]
        b.spec_profile(p).len() == 0 || b.spec_profile(p).len() == num_rows(b) by {
        if p != which {
            assert(a.spec_profile(p) == b.spec_profile(p));
        }
        if which != Profile::Pressure {
            assert(b.spec_profile(Profile::Pressure) == a.spec_profile(Profile::Pressure));
        }
    }
}

/// Setting a surface value keeps every profile empty or as long as the pressure profile.
pub proof fn lemma_set_surface_keeps_lengths(a: Sounding, b: Sounding, s: Surface, c: Cell)
    requires
        lengths_consistent(a),
        surface_set(a, b, s, c),
    ensures
        lengths_consistent(b),
        forall|p: Profile| #[trigger] b.spec_profile(p).len() == a.spec_profile(p).len(),
{
    assert forall|p: Profile| #[trigger] b.spec_profile(p).len() == a.spec_profile(p).len() by {
        if correlated_profile(s) != Some(p) {
            assert(b.spec_profile(p) == a.spec_profile(p));
        }
    }
}

/// Bringing the derived surface values up to date keeps every profile empty or as long as the
/// pressure profile.
pub proof fn lemma_set_derived_keeps_lengths(a: Sounding, b: Sounding, wet_bulb: Cell, theta_e: Cell)
    requires
        lengths_consistent(a),
        derived_set(a, b, wet_bulb, theta_e),
    ensures
        lengths_consistent(b),
{
    assert forall|p: Profile| #[trigger] b.spec_profile(p).len() == a.spec_profile(p).len() by {
        if p != Profile::WetBulb && p != Profile::ThetaE {
            assert(b.spec_profile(p) == a.spec_profile(p));
        }
    }
}

/// Setting a surface value whose quantity has a non-empty profile makes index 0 of that profile
/// exactly the new value, and leaves the rest of the profile alone.
pub proof fn lemma_surface_starts_profile(a: Sounding, b: Sounding, s: Surface, c: Cell)
    requires
        surface_set(a, b, s, c),
        correlated_profile(s).is_some(),
        a.spec_profile(correlated_profile(s).unwrap()).len() > 0,
    ensures
        b.spec_profile(correlated_profile(s).unwrap())[0] == c,
        b.spec_profile(correlated_profile(s).unwrap()).subrange(1, b.spec_profile(correlated_profile(s).unwrap()).len() as int)
            == a.spec_profile(correlated_profile(s).unwrap()).subrange(1, a.spec_profile(correlated_profile(s).unwrap()).len() as int),
{
    let p = correlated_profile(s).unwrap();
    assert(b.spec_profile(p).subrange(1, b.spec_profile(p).len() as int) =~= a.spec_profile(p).subrange(1, a.spec_profile(p).len() as int));
}

/// The top down rows are the bottom up rows in reverse order; the first row from the top is
/// the last row from the bottom.
pub proof fn lemma_top_down_reverses_bottom_up(s: Sounding)
    ensures
        rows_top_down(s) == rows_bottom_up(s).reverse(),
        num_rows(s) > 0 ==> rows_top_down(s)[0] == rows_bottom_up(s).last(),
{
    assert(rows_top_down(s) =~= rows_bottom_up(s).reverse());
}

/// There is no row at or past the end of the pressure profile, in any sounding, the empty one
/// included.
pub proof fn lemma_no_row_past_end(s: Sounding, idx: int)
    requires
        idx >= num_rows(s),
    ensures
        row_option(s, idx).is_none(),
        holds_nothing(s) ==> row_option(s, 0).is_none(),
{
}

/// A rule that reports nothing for any level reports nothing at all.
proof fn lemma_collect_nothing(n: nat, f: spec_fn(int) -> Option<Violation>)
    requires
        forall|i: int| 0 <= i < n ==> (#[trigger] f(i)).is_none(),
    ensures
        collect(n, f) == Seq::<Violation>::empty(),
    decreases n,
{
    if n > 0 {
        lemma_collect_nothing((n - 1) as nat, f);
    }
}

/// Whether the numbers of a profile strictly decrease going up.
pub open spec fn strictly_decreasing(ps: Seq<Cell>) -> bool {
    forall|i: int, j: int|
        #![trigger is_number(ps, i), is_number(ps, j)]
        i < j && is_number(ps, i) && is_number(ps, j) ==> real_lt(num(ps, j), num(ps, i))
}

/// Whether the numbers of a profile never decrease going up.
pub open spec fn non_decreasing(ps: Seq<Cell>) -> bool {
    forall|i: int, j: int|
        #![trigger is_number(ps, i), is_number(ps, j)]
        i < j && is_number(ps, i) && is_number(ps, j) ==> !real_lt(num(ps, j), num(ps, i))
}

/// Whether no number of a profile is negative.
pub open spec fn no_negative(ps: Seq<Cell>) -> bool {
    forall|i: int| #[trigger] is_number(ps, i) ==> !real_lt(num(ps, i), zero())
}

/// A sounding passes validation when its pressure strictly decreases and its height never
/// decreases going up, temperature >= wet bulb >= dew point wherever all three are given,
/// every non-empty profile is as long as the pressure profile, no wind speed, cloud fraction,
/// CAPE or precipitable water is negative, convective inhibition is not positive, and the
/// Haines index, if any, is within its range.
pub proof fn lemma_ordered_sounding_is_valid(s: Sounding)
    requires
        lengths_consistent(s),
        strictly_decreasing(s.spec_profile(Profile::Pressure)),
        non_decreasing(s.spec_profile(Profile::GeopotentialHeight)),
        forall|i: int|
            #[trigger] all_three(s, i) ==> !real_lt(
                num(s.spec_profile(Profile::Temperature), i),
                num(s.spec_profile(Profile::WetBulb), i),
            ) && !real_lt(
                num(s.spec_profile(Profile::WetBulb), i),
                num(s.spec_profile(Profile::DewPoint), i),
            ),
        no_negative(s.spec_profile(Profile::WindSpeed)),
        no_negative(s.spec_profile(Profile::CloudFraction)),
        !negative(s.spec_surface(Surface::LowCloud)),
        !negative(s.spec_surface(Surface::MidCloud)),
        !negative(s.spec_surface(Surface::HighCloud)),
        !negative(s.spec_index(Index::Cape)),
        !negative(s.spec_index(Index::PrecipitableWater)),
        !(s.spec_index(Index::Cin)@.is_some() && real_lt(zero(), s.spec_index(Index::Cin)@.unwrap())),
        s.spec_haines()@.is_some() ==> HAINES_MIN <= s.spec_haines()@.unwrap() <= HAINES_MAX,
    ensures
        violations(s).len() == 0,
{
    assert forall|k: int| 0 <= k < 9 implies (#[trigger] length_rule(s)(k)).is_none() by {
        let p = checked_profiles()[k];
        assert(s.spec_profile(p).len() == 0 || s.spec_profile(p).len() == num_rows(s));
    }
    lemma_collect_nothing(9, length_rule(s));
    let ps = s.spec_profile(Profile::Pressure);
    assert forall|i: int| 0 <= i < ps.len() implies (#[trigger] pressure_rule(s)(i)).is_none() by {
        lemma_last_number_before_bounds(ps, i);
        let j = last_number_before(ps, i);
        if is_number(ps, i) && j >= 0 {
            assert(is_number(ps, j));
            assert(real_lt(num(ps, i), num(ps, j)));
        }
    }
    lemma_collect_nothing(ps.len(), pressure_rule(s));
    let hs = s.spec_profile(Profile::GeopotentialHeight);
    assert forall|i: int| 0 <= i < hs.len() implies (#[trigger] height_rule(s)(i)).is_none() by {
        lemma_last_number_before_bounds(hs, i);
        let j = last_number_before(hs, i);
        if is_number(hs, i) && j >= 0 {
            assert(is_number(hs, j));
        }
    }
    lemma_collect_nothing(hs.len(), height_rule(s));
    let n = s.spec_profile(Profile::Temperature).len();
    assert forall|i: int| 0 <= i < n implies (#[trigger] wet_bulb_rule(s)(i)).is_none() by {
        if all_three(s, i) {
        }
    }
    assert forall|i: int| 0 <= i < n implies (#[trigger] dew_point_rule(s)(i)).is_none() by {
        if all_three(s, i) {
        }
    }
    lemma_collect_nothing(n, wet_bulb_rule(s));
    lemma_collect_nothing(n, dew_point_rule(s));
    let ws = s.spec_profile(Profile::WindSpeed);
    assert forall|i: int| 0 <= i < ws.len() implies (#[trigger] non_negative_rule(s, Profile::WindSpeed)(i)).is_none() by {
        if is_number(ws, i) {
        }
    }
    lemma_collect_nothing(ws.len(), non_negative_rule(s, Profile::WindSpeed));
    let cs = s.spec_profile(Profile::CloudFraction);
    assert forall|i: int| 0 <= i < cs.len() implies (#[trigger] non_negative_rule(s, Profile::CloudFraction)(i)).is_none() by {
        if is_number(cs, i) {
        }
    }
    lemma_collect_nothing(cs.len(), non_negative_rule(s, Profile::CloudFraction));
}

/// A Haines index outside of its range makes validation fail, and the last violation reported
/// names it.
pub proof fn lemma_haines_out_of_range_fails(s: Sounding)
    requires
        s.spec_haines()@.is_some(),
        s.spec_haines()@.unwrap() < HAINES_MIN || s.spec_haines()@.unwrap() > HAINES_MAX,
    ensures
        violations(s).len() > 0,
        violations(s).last() == (Violation::HainesOutOfRange { value: s.spec_haines()@.unwrap() }),
{
    let v = Violation::HainesOutOfRange { value: s.spec_haines()@.unwrap() };
    assert(only_if(true, v) =~= seq![v]);
}

/// The crossing search from `k` reaches `i` when no number in between is at or below `t`.
proof fn lemma_crossing_reaches(ps: Seq<Cell>, t: Real, k: int, i: int)
    requires
        0 <= k <= i < ps.len(),
        is_number(ps, i),
        real_lt(num(ps, i), t) || real_eq(num(ps, i), t),
        forall|j: int|
            #![trigger is_number(ps, j)]
            k <= j < i && is_number(ps, j) ==> real_lt(t, num(ps, j)),
    ensures
        crossing_from(ps, t, k) == i,
    decreases i - k,
{
    if k < i {
        lemma_crossing_reaches(ps, t, k + 1, i);
    }
}

/// In a profile whose pressure strictly decreases going up, a pressure equal to that of a level
/// falls exactly at that level, so interpolating there gives the level's own stored row.
pub proof fn lemma_bracket_at_level(s: Sounding, t: Real, i: int)
    requires
        strictly_decreasing(s.spec_profile(Profile::Pressure)),
        is_number(s.spec_profile(Profile::Pressure), i),
        real_eq(num(s.spec_profile(Profile::Pressure), i), t),
    ensures
        bracket_spec(s.spec_profile(Profile::Pressure), t) == Bracket::Exact(i as usize),
        row_option(s, i) == Some(row_at(s, i)),
{
    let ps = s.spec_profile(Profile::Pressure);
    assert forall|j: int| #![trigger is_number(ps, j)]
        0 <= j < i && is_number(ps, j) implies real_lt(t, num(ps, j)) by {
        assert(real_lt(num(ps, i), num(ps, j)));
    }
    lemma_crossing_reaches(ps, t, 0, i);
}

} // verus!
