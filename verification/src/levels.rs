//! The level curve: cumulative EXP thresholds and their integer inversion.
//!
//! A level `L >= 1` requires `40*L*L + 100*L - 140` cumulative EXP (level 1
//! requires none; the closed form itself yields 0 at `L == 1`). The inverse
//! direction finds the largest level, capped at 1000, whose threshold does
//! not exceed a given EXP total.

use vstd::prelude::*;

verus! {

/// Per-user progression totals: cumulative EXP and the level derived from it.
pub struct UserStats {
    pub id: i64,
    pub user_id: i64,
    pub total_exp: i64,
    pub level: i32,
}

/// Cumulative EXP required to reach `level`; levels at or below 1 require none.
pub open spec fn spec_required_exp(level: int) -> int {
    if level <= 1 {
        0
    } else {
        40 * level * level + 100 * level - 140
    }
}

/// Largest level in `1..=cap` whose threshold does not exceed `exp`
/// (1 when even level 2 is out of reach).
pub open spec fn spec_level_capped(exp: int, cap: int) -> int
    decreases cap,
{
    if cap <= 1 {
        1
    } else if spec_required_exp(cap) <= exp {
        cap
    } else {
        spec_level_capped(exp, cap - 1)
    }
}

/// The level derived from a cumulative EXP total, capped at 1000.
pub open spec fn spec_level_from_exp(exp: int) -> int {
    spec_level_capped(exp, 1000)
}

/// The threshold sequence never decreases.
pub proof fn lemma_required_exp_monotonic(a: int, b: int)
    requires
        a <= b,
    ensures
        spec_required_exp(a) <= spec_required_exp(b),
{
    if 1 < a {
        assert(40 * a * a + 100 * a <= 40 * b * b + 100 * b) by (nonlinear_arith)
            requires
                1 < a <= b,
        ;
    } else if 1 < b {
        assert(0 <= 40 * b * b + 100 * b - 140) by (nonlinear_arith)
            requires
                1 < b,
        ;
    }
}

/// The threshold sequence is strictly increasing from level 1 on.
pub proof fn lemma_required_exp_strictly_increasing(a: int, b: int)
    requires
        1 <= a < b,
    ensures
        spec_required_exp(a) < spec_required_exp(b),
{
    if a == 1 {
        assert(0 < 40 * b * b + 100 * b - 140) by (nonlinear_arith)
            requires
                1 < b,
        ;
    } else {
        assert(40 * a * a + 100 * a < 40 * b * b + 100 * b) by (nonlinear_arith)
            requires
                1 < a < b,
        ;
    }
}

/// What `spec_level_capped` returns: a level in range whose threshold is met,
/// with every higher level in range out of reach.
proof fn lemma_level_capped_props(exp: int, cap: int)
    requires
        1 <= cap,
    ensures
        1 <= spec_level_capped(exp, cap) <= cap,
        spec_level_capped(exp, cap) > 1 ==> spec_required_exp(spec_level_capped(exp, cap)) <= exp,
        forall|l: int|
            spec_level_capped(exp, cap) < l <= cap ==> spec_required_exp(l) > exp,
    decreases cap,
{
    if cap > 1 && spec_required_exp(cap) > exp {
        lemma_level_capped_props(exp, cap - 1);
    }
}

/// Only one level satisfies the defining property of `spec_level_from_exp`.
proof fn lemma_level_unique(exp: int, l: int)
    requires
        1 <= l <= 1000,
        l == 1 || spec_required_exp(l) <= exp,
        l < 1000 ==> exp < spec_required_exp(l + 1),
    ensures
        l == spec_level_from_exp(exp),
{
    let m = spec_level_from_exp(exp);
    lemma_level_capped_props(exp, 1000);
    if l < m {
        assert(spec_required_exp(m) <= exp);
        lemma_required_exp_monotonic(l + 1, m);
    }
    if m < l {
        assert(spec_required_exp(l) > exp);
    }
}

impl UserStats {
    /// Cumulative EXP needed to reach `level`, by the closed form.
    pub fn get_required_exp_for_level(level: i32) -> (r: i64)
        requires
            level <= 1_000_000,
        ensures
            r == spec_required_exp(level as int),
    {
        if level <= 1 {
            return 0;
        }
        let l: i64 = level as i64;
        proof {
            assert(4 <= l * l <= 1_000_000_000_000) by (nonlinear_arith)
                requires
                    1 < l <= 1_000_000,
            ;
            assert(40 * (l * l) == 40 * l * l) by (nonlinear_arith);
        }
        let sq: i64 = l * l;
        40 * sq + 100 * l - 140
    }

    /// EXP between the threshold of `level` and that of the next level.
    pub fn get_exp_to_next_level(level: i32) -> (r: i32)
        requires
            0 <= level < 1_000_000,
        ensures
            r == spec_required_exp(level as int + 1) - spec_required_exp(level as int),
    {
        let next: i64 = Self::get_required_exp_for_level(level + 1);
        let current: i64 = Self::get_required_exp_for_level(level);
        proof {
            lemma_required_exp_monotonic(level as int, level as int + 1);
            let l = level as int;
            if level >= 1 {
                assert((40 * (l + 1) * (l + 1) + 100 * (l + 1) - 140) - (40 * l * l + 100 * l
                    - 140) == 80 * l + 140) by (nonlinear_arith);
                assert(40 * 1 * 1 + 100 * 1 - 140 == 0);
                assert(spec_required_exp(l + 1) - spec_required_exp(l) == 80 * l + 140);
            }
        }
        (next - current) as i32
    }

    /// The largest level (capped at 1000) whose threshold does not exceed
    /// `total_exp`, found by binary search; non-positive totals give level 1.
    pub fn calculate_level(total_exp: i64) -> (r: i32)
        ensures
            r == spec_level_from_exp(total_exp as int),
            1 <= r <= 1000,
    {
        proof {
            lemma_level_capped_props(total_exp as int, 1000);
        }
        if total_exp <= 0 {
            proof {
                lemma_level_unique(total_exp as int, 1);
            }
            return 1;
        }
        let mut low: i32 = 1;
        let mut high: i32 = 1000;
        while low < high
            invariant
                1 <= low <= high <= 1000,
                total_exp >= 1,
                spec_required_exp(low as int) <= total_exp as int,
                high < 1000 ==> (total_exp as int) < spec_required_exp(high as int + 1),
            decreases high - low,
        {
            let mid: i32 = (low + high + 1) / 2;
            if Self::get_required_exp_for_level(mid) <= total_exp {
                low = mid;
            } else {
                high = mid - 1;
            }
        }
        proof {
            lemma_level_unique(total_exp as int, low as int);
        }
        low
    }

    /// Progress within the current level, as the EXP earned past the
    /// level's threshold and the EXP the next level asks beyond it; the
    /// caller renders their ratio.
    pub fn level_progress_parts(total_exp: i64, level: i32) -> (r: (i64, i64))
        requires
            0 <= total_exp,
            1 <= level <= 1000,
        ensures
            r.0 == total_exp - spec_required_exp(level as int),
            r.1 == spec_required_exp(level as int + 1) - spec_required_exp(level as int),
    {
        let current: i64 = Self::get_required_exp_for_level(level);
        let next: i64 = Self::get_required_exp_for_level(level + 1);
        proof {
            lemma_required_exp_monotonic(0, level as int);
            lemma_required_exp_monotonic(level as int, level as int + 1);
        }
        (total_exp - current, next - current)
    }
}

/// The derived level stays within the curve's range, meets its own
/// threshold whenever the total is non-negative, and below the cap falls
/// short of the next threshold.
pub proof fn lemma_level_bounds(exp: int)
    ensures
        1 <= spec_level_from_exp(exp) <= 1000,
        exp >= 0 ==> spec_required_exp(spec_level_from_exp(exp)) <= exp,
        spec_level_from_exp(exp) < 1000 ==> exp < spec_required_exp(spec_level_from_exp(exp) + 1),
{
    lemma_level_capped_props(exp, 1000);
}

/// More EXP never means a lower level.
pub proof fn lemma_level_from_exp_monotonic(a: int, b: int)
    requires
        a <= b,
    ensures
        spec_level_from_exp(a) <= spec_level_from_exp(b),
{
    let la = spec_level_from_exp(a);
    let lb = spec_level_from_exp(b);
    lemma_level_capped_props(a, 1000);
    lemma_level_capped_props(b, 1000);
    if lb < la {
        assert(spec_required_exp(la) <= a);
        assert(b < spec_required_exp(lb + 1));
        lemma_required_exp_monotonic(lb + 1, la);
    }
}

/// Round-trip at exact thresholds: the EXP required for a level maps back to
/// that level.
pub proof fn lemma_level_round_trip(l: int)
    requires
        1 <= l <= 1000,
    ensures
        spec_level_from_exp(spec_required_exp(l)) == l,
{
    if l < 1000 {
        lemma_required_exp_strictly_increasing(l, l + 1);
    }
    lemma_level_unique(spec_required_exp(l), l);
}

/// Thresholds are exclusive below: one EXP short of a level's threshold maps
/// to the level just beneath it.
pub proof fn lemma_level_boundary_exclusive(l: int)
    requires
        2 <= l <= 1000,
    ensures
        spec_level_from_exp(spec_required_exp(l) - 1) == l - 1,
{
    if l > 2 {
        lemma_required_exp_strictly_increasing(l - 1, l);
    }
    lemma_level_unique(spec_required_exp(l) - 1, l - 1);
}

} // verus!
