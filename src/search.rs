//! Searches over the levels of a profile: the nearest level and the levels that bracket a
//! pressure.

use vstd::prelude::*;

use crate::data_row::Cell;
use crate::float_bits::{is_nan, order_key, real_eq, real_lt, Real};

verus! {

/// Whether element `i` of `d` is a number: present and not a NaN.
pub open spec fn is_number(d: Seq<Cell>, i: int) -> bool {
    0 <= i < d.len() && d[i]@.is_some() && !is_nan(d[i]@.unwrap())
}

/// The state of the nearest-level scan after the first `n` levels: the smallest distance so
/// far, the level where it was first seen, and whether the scan has stopped. A level whose
/// distance is smaller than the best so far becomes the best; the scan stops at the first level
/// whose distance is larger than the best so far, because past that point a monotonic profile
/// only moves away. Missing distances and NaN are passed over.
pub open spec fn scan_nearest(d: Seq<Cell>, n: nat) -> (Option<Real>, int, bool)
    decreases n,
{
    if n == 0 {
        (None, 0, false)
    } else {
        let prev = scan_nearest(d, (n - 1) as nat);
        let i = n - 1;
        if prev.2 || !is_number(d, i) {
            prev
        } else {
            let v = d[i]@.unwrap();
            match prev.0 {
                None => (Some(v), i, false),
                Some(b) => if order_key(v) < order_key(b) {
                    (Some(v), i, false)
                } else if order_key(v) > order_key(b) {
                    (prev.0, prev.1, true)
                } else {
                    prev
                },
            }
        }
    }
}

/// The level that the nearest-level scan picks; 0 when no distance is a number.
pub open spec fn nearest_spec(d: Seq<Cell>) -> int {
    scan_nearest(d, d.len()).1
}

/// Once the scan has stopped, later levels change nothing.
proof fn lemma_scan_stays_stopped(d: Seq<Cell>, m: nat, n: nat)
    requires
        m <= n,
        scan_nearest(d, m).2,
    ensures
        scan_nearest(d, n) == scan_nearest(d, m),
    decreases n - m,
{
    if m < n {
        lemma_scan_stays_stopped(d, m, (n - 1) as nat);
    }
}

/// What the scan knows of the level it picked: it is a number, no earlier level is as close,
/// and no level before the stop is closer.
proof fn lemma_scan_best(d: Seq<Cell>, n: nat)
    requires
        n <= d.len(),
    ensures
        ({
            let (best, idx, _stopped) = scan_nearest(d, n);
            &&& 0 <= idx && (idx < n || idx == 0)
            &&& best.is_none() ==> !_stopped && forall|j: int| 0 <= j < n ==> !is_number(d, j)
            &&& best.is_some() && !_stopped ==> forall|j: int|
                0 <= j < n && is_number(d, j) ==> order_key(d[j]@.unwrap()) >= order_key(
                    best.unwrap(),
                )
            &&& best.is_some() ==> {
                &&& is_number(d, idx)
                &&& d[idx]@ == best
                &&& forall|j: int|
                    0 <= j < idx && is_number(d, j) ==> order_key(d[j]@.unwrap()) > order_key(
                        best.unwrap(),
                    )
            }
        }),
    decreases n,
{
    if n > 0 {
        lemma_scan_best(d, (n - 1) as nat);
    }
}

/// The index of the level whose distance is smallest, scanning from the surface up with the
/// rule of `scan_nearest`: ties go to the level met first. The distances are `|p - target|`
/// for each level's pressure `p`.
pub fn nearest_level(distances: &Vec<Cell>) -> (r: usize)
    ensures
        r == nearest_spec(distances@),
        r < distances@.len() || r == 0,
        (exists|j: int| is_number(distances@, j)) ==> {
            &&& is_number(distances@, r as int)
            &&& forall|j: int|
                0 <= j < r && is_number(distances@, j) ==> real_lt(
                    distances@[r as int]@.unwrap(),
                    distances@[j]@.unwrap(),
                )
        },
{
    let n = distances.len();
    let mut best: Option<Real> = None;
    let mut idx: usize = 0;
    let mut i: usize = 0;
    while i < n
        invariant
            n == distances@.len(),
            i <= n,
            scan_nearest(distances@, i as nat) == (best, idx as int, false),
            best matches Some(b) ==> !is_nan(b),
        ensures
            nearest_spec(distances@) == idx as int,
        decreases n - i,
    {
        let c = distances[i];
        if c.is_some() && !c.value.is_nan() {
            match best {
                None => {
                    best = Some(c.value);
                    idx = i;
                },
                Some(b) => {
                    if c.value.lt(b) {
                        best = Some(c.value);
                        idx = i;
                    } else if b.lt(c.value) {
                        proof {
                            assert(scan_nearest(distances@, (i + 1) as nat) == (
                                best,
                                idx as int,
                                true,
                            ));
                            lemma_scan_stays_stopped(distances@, (i + 1) as nat, n as nat);
                        }
                        break;
                    }
                },
            }
        }
        i = i + 1;
    }
    proof {
        lemma_scan_best(distances@, n as nat);
        if exists|j: int| is_number(distances@, j) {
            let j = choose|j: int| is_number(distances@, j);
            assert(0 <= j < n);
        }
    }
    idx
}

/// Where a pressure falls among the levels of a profile.
#[derive(Clone, Copy, Debug, PartialEq, Eq, Structural)]
pub enum Bracket {
    /// The level at this index has exactly the pressure sought.
    Exact(usize),
    /// The pressure lies strictly between these two levels: `below` has the higher pressure
    /// (it is lower in the atmosphere), `above` the lower one.
    Between { below: usize, above: usize },
    /// No level has the pressure and no two levels enclose it.
    Outside,
}

/// The first level from index `i` up whose pressure is at most `t`; `ps.len()` if none.
pub open spec fn crossing_from(ps: Seq<Cell>, t: Real, i: int) -> int
    decreases ps.len() - i,
{
    if i >= ps.len() || i < 0 {
        ps.len() as int
    } else if is_number(ps, i) && (real_lt(ps[i]@.unwrap(), t) || real_eq(ps[i]@.unwrap(), t)) {
        i
    } else {
        crossing_from(ps, t, i + 1)
    }
}

/// The last level below index `i` whose pressure is a number; -1 if none.
pub open spec fn last_number_before(ps: Seq<Cell>, i: int) -> int
    decreases i,
{
    if i <= 0 {
        -1
    } else if is_number(ps, i - 1) {
        i - 1
    } else {
        last_number_before(ps, i - 1)
    }
}

/// Where `t` falls among the pressures `ps`, scanning from the surface up: the first level
/// whose pressure is not above `t` either equals it, or lies above it and, with the last level
/// before it, encloses it.
pub open spec fn bracket_spec(ps: Seq<Cell>, t: Real) -> Bracket {
    let c = crossing_from(ps, t, 0);
    if c >= ps.len() || is_nan(t) {
        Bracket::Outside
    } else if real_eq(ps[c]@.unwrap(), t) {
        Bracket::Exact(c as usize)
    } else if last_number_before(ps, c) >= 0 {
        Bracket::Between { below: last_number_before(ps, c) as usize, above: c as usize }
    } else {
        Bracket::Outside
    }
}

pub proof fn lemma_last_number_before_step(ps: Seq<Cell>, i: int)
    requires
        0 <= i < ps.len(),
    ensures
        last_number_before(ps, i + 1) == if is_number(ps, i) {
            i
        } else {
            last_number_before(ps, i)
        },
{
}

pub proof fn lemma_last_number_before_bounds(ps: Seq<Cell>, i: int)
    ensures
        last_number_before(ps, i) < i || i <= 0,
        last_number_before(ps, i) >= -1,
        last_number_before(ps, i) >= 0 ==> is_number(ps, last_number_before(ps, i)),
    decreases i,
{
    if i > 0 {
        lemma_last_number_before_bounds(ps, i - 1);
    }
}

/// Where the pressure `target` falls among the pressures `ps`; see `bracket_spec`.
pub fn find_bracket(ps: &Vec<Cell>, target: Real) -> (r: Bracket)
    ensures
        r == bracket_spec(ps@, target),
        r matches Bracket::Exact(i) ==> is_number(ps@, i as int) && real_eq(
            ps@[i as int]@.unwrap(),
            target,
        ),
        r matches Bracket::Between { below, above } ==> {
            &&& below < above < ps@.len()
            &&& real_lt(target, ps@[below as int]@.unwrap())
            &&& real_lt(ps@[above as int]@.unwrap(), target)
        },
{
    if target.is_nan() {
        return Bracket::Outside;
    }
    let n = ps.len();
    let mut i: usize = 0;
    let mut last: Option<usize> = None;
    while i < n
        invariant
            n == ps@.len(),
            i <= n,
            !is_nan(target),
            crossing_from(ps@, target, 0) == crossing_from(ps@, target, i as int),
            last == (if last_number_before(ps@, i as int) >= 0 {
                Some(last_number_before(ps@, i as int) as usize)
            } else {
                None
            }),
            forall|j: int|
                0 <= j < i && is_number(ps@, j) ==> real_lt(target, ps@[j]@.unwrap()),
        decreases n - i,
    {
        let c = ps[i];
        if c.is_some() && !c.value.is_nan() {
            if c.value.float_eq(target) {
                return Bracket::Exact(i);
            }
            if c.value.lt(target) {
                proof {
                    lemma_last_number_before_bounds(ps@, i as int);
                }
                return match last {
                    Some(b) => Bracket::Between { below: b, above: i },
                    None => Bracket::Outside,
                };
            }
            last = Some(i);
        }
        proof {
            lemma_last_number_before_step(ps@, i as int);
        }
        i = i + 1;
    }
    Bracket::Outside
}

} // verus!
