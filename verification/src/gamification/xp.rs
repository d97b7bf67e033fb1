//! XP awards and the pet's statistics.
use vstd::prelude::*;
use super::level::{MAX_LEVEL, is_level_of, level_from_xp, level_name, level_of, level_progress, level_title, total_xp, xp_in_range};
use super::types::{PetStats, XP_ACHIEVEMENT, XP_CODING_PER_30_MIN};

verus! {

/// XP for a finished coding session: 50 per complete half hour (Rust integer
/// division, truncating towards zero).
pub open spec fn coding_session_xp(duration_secs: int) -> int {
    (if duration_secs >= 0 {
        duration_secs / 1800
    } else {
        -((-duration_secs) / 1800)
    }) * XP_CODING_PER_30_MIN
}

pub fn xp_for_coding_session(duration_secs: i64) -> (xp: i64)
    ensures
        xp == coding_session_xp(duration_secs as int),
{
    let blocks = duration_secs / 1800;
    blocks * XP_CODING_PER_30_MIN
}

/// The statistics shown for a pet with `xp` experience, a stored `level`
/// column, `streak` days and today's productivity score. The displayed level
/// is the larger of the stored level and the level the XP reaches; progress
/// is measured inside the level the XP reaches.
pub open spec fn pet_stats_match(
    stats: PetStats,
    xp: int,
    stored_level: int,
    streak: int,
    productivity_score: int,
) -> bool {
    let computed = level_of(xp);
    let shown = if computed >= stored_level {
        computed
    } else {
        stored_level
    };
    &&& stats.xp == xp
    &&& stats.level == shown
    &&& stats.streak == streak
    &&& stats.productivity_score == productivity_score
    &&& stats.xp_into_level == xp - total_xp(computed)
    &&& stats.xp_for_next_level == total_xp(computed + 1) - total_xp(computed)
    &&& stats.level_name@ == level_title(shown)
}

/// XP for which the statistics can be computed without overflow.
pub open spec fn stats_computable(xp: int) -> bool {
    xp_in_range(xp) && xp - total_xp(level_of(xp)) >= i64::MIN
}

pub fn compose_pet_stats(xp: i64, stored_level: i64, streak: i64, productivity_score: i64) -> (stats:
    PetStats)
    requires
        stats_computable(xp as int),
    ensures
        pet_stats_match(stats, xp as int, stored_level as int, streak as int, productivity_score as int),
{
    let computed_level = level_from_xp(xp);
    let (xp_into_level, xp_for_next_level) = level_progress(xp, computed_level);
    let shown = if computed_level >= stored_level {
        computed_level
    } else {
        stored_level
    };
    PetStats {
        xp,
        level: shown,
        streak,
        productivity_score,
        xp_into_level,
        xp_for_next_level,
        level_name: level_name(shown),
    }
}

/// What an award of `amount` XP does to a pet with `previous_xp`.
#[derive(Debug, Clone, Copy, PartialEq, Eq, Structural)]
pub struct XpAward {
    /// Whether anything changes: awards of zero or less leave the pet alone.
    pub applied: bool,
    pub new_xp: i64,
    pub new_level: i64,
    pub leveled_up: bool,
}

pub open spec fn award_fits(previous_xp: int, amount: int) -> bool {
    amount <= 0 || (xp_in_range(previous_xp) && xp_in_range(previous_xp + amount))
}

pub fn plan_xp_award(previous_xp: i64, amount: i64) -> (award: XpAward)
    requires
        award_fits(previous_xp as int, amount as int),
    ensures
        award.applied == (amount > 0),
        amount > 0 ==> {
            &&& award.new_xp == previous_xp + amount
            &&& award.new_level == level_of(previous_xp + amount)
            &&& award.leveled_up == (level_of(previous_xp + amount) > level_of(previous_xp as int))
        },
        amount <= 0 ==> award.new_xp == previous_xp && award.new_level == 0 && !award.leveled_up,
{
    if amount <= 0 {
        return XpAward { applied: false, new_xp: previous_xp, new_level: 0, leveled_up: false };
    }
    proof {
        super::level::lemma_total_xp_monotone(MAX_LEVEL as int, MAX_LEVEL as int);
        super::level::lemma_max_level_bounds();
    }
    let previous_level = level_from_xp(previous_xp);
    let new_xp = previous_xp + amount;
    let new_level = level_from_xp(new_xp);
    XpAward { applied: true, new_xp, new_level, leveled_up: new_level > previous_level }
}

/// XP and level after `count` achievements were unlocked on top of `xp`; each
/// achievement is worth `XP_ACHIEVEMENT`.
pub fn add_achievement_bonus(xp: i64, count: usize) -> (after: (i64, i64))
    requires
        xp_in_range(xp + XP_ACHIEVEMENT * count),
    ensures
        after.0 == xp + XP_ACHIEVEMENT * count,
        count > 0 ==> after.1 == level_of(after.0 as int),
        count == 0 ==> after.1 == 0,
{
    proof {
        super::level::lemma_max_level_bounds();
    }
    let mut current = xp;
    let mut level: i64 = 0;
    let mut k: usize = 0;
    while k < count
        invariant
            k <= count,
            current == xp + XP_ACHIEVEMENT * k,
            xp_in_range(xp + XP_ACHIEVEMENT * count),
            total_xp(MAX_LEVEL as int) <= i64::MAX,
            k > 0 ==> level == level_of(current as int),
            k == 0 ==> level == 0,
        decreases count - k,
    {
        current = current + XP_ACHIEVEMENT;
        level = level_from_xp(current);
        k = k + 1;
    }
    (current, level)
}

} // verus!
