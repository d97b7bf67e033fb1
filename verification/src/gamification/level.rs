//! The experience curve: how much XP each level costs and which level a
//! given amount of XP corresponds to.
use vstd::prelude::*;
use vstd::string::*;

verus! {

/// Highest level whose cumulative XP threshold still fits in an `i64`.
pub const MAX_LEVEL: i64 = 651634;

/// XP needed to go from `from_level` to the next level.
pub open spec fn level_cost(from_level: int) -> int {
    100 * from_level * from_level
}

/// Cumulative XP needed to reach `level`: the sum of the costs of all
/// levels below it (level 1 is free).
pub open spec fn total_xp(level: int) -> int
    decreases level,
{
    if level <= 1 {
        0
    } else {
        total_xp(level - 1) + level_cost(level - 1)
    }
}

/// `level` is the level reached with `xp`: it is at least 1, its threshold has
/// been paid (level 1 needs nothing), and the next threshold has not.
pub open spec fn is_level_of(xp: int, level: int) -> bool {
    &&& level >= 1
    &&& (level == 1 || total_xp(level) <= xp)
    &&& xp < total_xp(level + 1)
}

/// XP for which the level (and the next threshold) can be computed in `i64`.
pub open spec fn xp_in_range(xp: int) -> bool {
    xp < total_xp(MAX_LEVEL as int)
}

pub proof fn lemma_total_xp_nonneg(level: int)
    ensures
        total_xp(level) >= 0,
    decreases level,
{
    if level > 1 {
        lemma_total_xp_nonneg(level - 1);
        assert(level_cost(level - 1) >= 0) by (nonlinear_arith);
    }
}

/// The cumulative threshold has the closed form 100 (n-1) n (2n-1) / 6.
pub proof fn lemma_total_xp_closed_form(level: int)
    requires
        level >= 1,
    ensures
        6 * total_xp(level) == 100 * (level - 1) * level * (2 * level - 1),
    decreases level,
{
    if level > 1 {
        let m = level - 1;
        lemma_total_xp_closed_form(m);
        assert(total_xp(level) == total_xp(m) + level_cost(m));
        assert(6 * total_xp(level) == 100 * (level - 1) * level * (2 * level - 1))
            by (nonlinear_arith)
            requires
                6 * total_xp(m) == 100 * (m - 1) * m * (2 * m - 1),
                total_xp(level) == total_xp(m) + 100 * m * m,
                m == level - 1,
        ;
    } else {
        assert(100 * (level - 1) * level * (2 * level - 1) == 0) by (nonlinear_arith)
            requires
                level == 1,
        ;
    }
}

/// Thresholds grow strictly from level 1 on.
pub proof fn lemma_total_xp_strictly_increasing(a: int, b: int)
    requires
        1 <= a < b,
    ensures
        total_xp(a) < total_xp(b),
    decreases b - a,
{
    assert(level_cost(b - 1) > 0) by (nonlinear_arith)
        requires
            b - 1 >= 1,
    ;
    if a < b - 1 {
        lemma_total_xp_strictly_increasing(a, b - 1);
    }
}

pub proof fn lemma_total_xp_monotone(a: int, b: int)
    requires
        a <= b,
    ensures
        total_xp(a) <= total_xp(b),
{
    lemma_total_xp_nonneg(b);
    if a >= 1 && a < b {
        lemma_total_xp_strictly_increasing(a, b);
    }
}

/// The level reached with `xp` (see `is_level_of`).
pub open spec fn level_of(xp: int) -> int {
    choose|level: int| is_level_of(xp, level)
}

proof fn lemma_level_exists_from(xp: int, level: int)
    requires
        1 <= level <= MAX_LEVEL,
        level == 1 || total_xp(level) <= xp,
        xp_in_range(xp),
    ensures
        exists|l: int| is_level_of(xp, l),
    decreases MAX_LEVEL - level,
{
    if xp < total_xp(level + 1) {
        assert(is_level_of(xp, level));
    } else {
        if level == MAX_LEVEL {
            lemma_total_xp_monotone(MAX_LEVEL as int, level + 1);
        }
        lemma_level_exists_from(xp, level + 1);
    }
}

/// Every XP amount in range has exactly one level, and `level_of` is it.
pub proof fn lemma_level_of(xp: int)
    requires
        xp_in_range(xp),
    ensures
        is_level_of(xp, level_of(xp)),
        1 <= level_of(xp) < MAX_LEVEL,
        forall|l: int| is_level_of(xp, l) ==> l == level_of(xp),
{
    lemma_level_exists_from(xp, 1);
    let l0 = level_of(xp);
    assert forall|l: int| is_level_of(xp, l) implies l == l0 by {
        lemma_level_unique(xp, l, l0);
    }
    if l0 >= MAX_LEVEL {
        lemma_total_xp_monotone(MAX_LEVEL as int, l0);
    }
}

proof fn lemma_level_unique(xp: int, a: int, b: int)
    requires
        is_level_of(xp, a),
        is_level_of(xp, b),
    ensures
        a == b,
{
    if a < b {
        lemma_total_xp_monotone(a + 1, b);
    } else if b < a {
        lemma_total_xp_monotone(b + 1, a);
    }
}

/// More XP never means a lower level.
pub proof fn lemma_level_monotone(xp1: int, xp2: int)
    requires
        xp1 <= xp2,
        xp_in_range(xp2),
    ensures
        level_of(xp1) <= level_of(xp2),
{
    lemma_total_xp_monotone(xp1 as int, xp1 as int);
    lemma_level_of(xp1);
    lemma_level_of(xp2);
    let a = level_of(xp1);
    let b = level_of(xp2);
    if a > b {
        lemma_total_xp_monotone(b + 1, a);
    }
}

/// Inside its level, non-negative XP sits between the level's threshold and
/// the next one: the progress is at least 0 and below the span, and the span
/// is exactly the cost of levelling up from that level.
pub proof fn lemma_progress_within_level(xp: int)
    requires
        0 <= xp,
        xp_in_range(xp),
    ensures
        0 <= xp - total_xp(level_of(xp)) < total_xp(level_of(xp) + 1) - total_xp(level_of(xp)),
        total_xp(level_of(xp) + 1) - total_xp(level_of(xp)) == level_cost(level_of(xp)),
{
    lemma_level_of(xp);
}

/// The concrete bounds that make `MAX_LEVEL` the last level that fits in `i64`.
pub proof fn lemma_max_level_bounds()
    ensures
        total_xp(MAX_LEVEL as int) == 9223355627897632900,
        total_xp(MAX_LEVEL as int) <= i64::MAX,
        total_xp(MAX_LEVEL + 1) > i64::MAX,
{
    let n: int = MAX_LEVEL as int;
    lemma_total_xp_closed_form(n);
    lemma_total_xp_closed_form(n + 1);
    assert(100 * (n - 1) * n * (2 * n - 1) == 55340133767385797400) by (nonlinear_arith)
        requires
            n == 651634,
    ;
    assert(100 * n * (n + 1) * (2 * (n + 1) - 1) == 55340388543507771000) by (nonlinear_arith)
        requires
            n == 651634,
    ;
}

/// XP needed to go from `from_level` to the next level (100 × level²).
pub fn xp_required_for_level_up(from_level: i64) -> (cost: i64)
    requires
        level_cost(from_level as int) <= i64::MAX,
    ensures
        cost == level_cost(from_level as int),
{
    assert(100 * from_level * from_level >= 0) by (nonlinear_arith);
    assert(-i64::MAX <= 100 * from_level <= i64::MAX) by (nonlinear_arith)
        requires
            100 * from_level * from_level <= i64::MAX,
    ;
    100 * from_level * from_level
}

/// Cumulative XP needed to reach `level`.
pub fn total_xp_for_level(level: i64) -> (total: i64)
    requires
        level <= MAX_LEVEL,
    ensures
        total == total_xp(level as int),
{
    if level <= 1 {
        return 0;
    }
    proof {
        lemma_max_level_bounds();
        lemma_total_xp_monotone(level as int, MAX_LEVEL as int);
    }
    let mut sum: i64 = 0;
    let mut k: i64 = 1;
    while k < level
        invariant
            1 <= k <= level <= MAX_LEVEL,
            sum == total_xp(k as int),
            total_xp(level as int) <= i64::MAX,
        decreases level - k,
    {
        proof {
            lemma_total_xp_monotone(k + 1, level as int);
            lemma_total_xp_nonneg(k as int);
        }
        sum = sum + xp_required_for_level_up(k);
        k = k + 1;
    }
    sum
}

/// The level reached with `xp` (levels start at 1).
pub fn level_from_xp(xp: i64) -> (level: i64)
    requires
        xp_in_range(xp as int),
    ensures
        is_level_of(xp as int, level as int),
        level == level_of(xp as int),
        level < MAX_LEVEL,
{
    let mut level: i64 = 1;
    while total_xp_for_level(level + 1) <= xp
        invariant
            1 <= level < MAX_LEVEL,
            level == 1 || total_xp(level as int) <= xp,
            xp < total_xp(MAX_LEVEL as int),
        decreases MAX_LEVEL - level,
    {
        proof {
            if level + 1 >= MAX_LEVEL {
                lemma_total_xp_monotone(MAX_LEVEL as int, level + 1);
            }
        }
        level = level + 1;
    }
    proof {
        lemma_level_of(xp as int);
    }
    level
}

/// XP earned inside the current level and XP the level spans in total.
pub fn level_progress(xp: i64, level: i64) -> (progress: (i64, i64))
    requires
        level < MAX_LEVEL,
        xp - total_xp(level as int) >= i64::MIN,
    ensures
        progress.0 == xp - total_xp(level as int),
        progress.1 == total_xp(level + 1) - total_xp(level as int),
{
    proof {
        lemma_total_xp_monotone(level as int, level + 1);
        lemma_total_xp_nonneg(level as int);
    }
    let base = total_xp_for_level(level);
    let next = total_xp_for_level(level + 1);
    (xp - base, next - base)
}

/// The title shown for a level.
pub open spec fn level_title(level: int) -> Seq<char> {
    if 1 <= level <= 2 {
        "Companion Newcomer"@
    } else if 3 <= level <= 5 {
        "Companion Apprentice"@
    } else if 6 <= level <= 9 {
        "Companion Partner"@
    } else if 10 <= level <= 19 {
        "Companion Veteran"@
    } else {
        "Companion Legend"@
    }
}

pub fn level_name(level: i64) -> (name: String)
    ensures
        name@ == level_title(level as int),
{
    if 1 <= level && level <= 2 {
        String::from_str("Companion Newcomer")
    } else if 3 <= level && level <= 5 {
        String::from_str("Companion Apprentice")
    } else if 6 <= level && level <= 9 {
        String::from_str("Companion Partner")
    } else if 10 <= level && level <= 19 {
        String::from_str("Companion Veteran")
    } else {
        String::from_str("Companion Legend")
    }
}

} // verus!
