//! Daily objectives, daily activity counters and the productivity score.
use vstd::prelude::*;
use vstd::string::*;
use crate::text::{decimal, i64_to_text, str_eq};
use super::types::{DailyActivity, DailyObjective, ProductivityBreakdown, XP_BREAK_ON_TIME, XP_HYDRATION_ACK};

verus! {

/// An objective offered for a day before it is stored.
#[derive(Debug, Clone)]
pub struct ObjectiveTemplate {
    pub category: String,
    pub title: String,
    pub target: i64,
}

/// Ordering key of a template whose category name has `len` characters.
pub open spec fn template_key(seed: int, len: int) -> int {
    (seed + len * 13) % 101
}

/// The three objectives offered on a day: the four templates (code two hours,
/// take three breaks, drink water five times, reach the next level) stably
/// ordered by `template_key`, first three kept. "code_2h" and "hydrate" share
/// the key of 7-letter names, "take_breaks" and "reach_level" that of
/// 11-letter names.
pub open spec fn offered_categories(seed: int) -> Seq<Seq<char>> {
    if template_key(seed, 7) <= template_key(seed, 11) {
        seq!["code_2h"@, "hydrate"@, "take_breaks"@]
    } else {
        seq!["take_breaks"@, "reach_level"@, "code_2h"@]
    }
}

/// Target of the "reach level" objective for a pet at `level`.
pub open spec fn reach_target(level: int) -> int {
    if level + 1 >= 2 {
        level + 1
    } else {
        2
    }
}

pub open spec fn template_matches(t: ObjectiveTemplate, category: Seq<char>, level: int) -> bool {
    &&& t.category@ == category
    &&& category == "code_2h"@ ==> t.title@ == "Code for 2 hours today"@ && t.target == 7200
    &&& category == "take_breaks"@ ==> t.title@ == "Take 3 breaks"@ && t.target == 3
    &&& category == "hydrate"@ ==> t.title@ == "Drink water 5 times"@ && t.target == 5
    &&& category == "reach_level"@ ==> t.title@ == "Reach level "@ + decimal(reach_target(level))
        && t.target == reach_target(level)
}

fn code_template() -> (t: ObjectiveTemplate)
    ensures
        t.category@ == "code_2h"@,
        t.title@ == "Code for 2 hours today"@,
        t.target == 7200,
{
    ObjectiveTemplate {
        category: String::from_str("code_2h"),
        title: String::from_str("Code for 2 hours today"),
        target: 7200,
    }
}

fn breaks_template() -> (t: ObjectiveTemplate)
    ensures
        t.category@ == "take_breaks"@,
        t.title@ == "Take 3 breaks"@,
        t.target == 3,
{
    ObjectiveTemplate {
        category: String::from_str("take_breaks"),
        title: String::from_str("Take 3 breaks"),
        target: 3,
    }
}

fn hydrate_template() -> (t: ObjectiveTemplate)
    ensures
        t.category@ == "hydrate"@,
        t.title@ == "Drink water 5 times"@,
        t.target == 5,
{
    ObjectiveTemplate {
        category: String::from_str("hydrate"),
        title: String::from_str("Drink water 5 times"),
        target: 5,
    }
}

fn reach_template(level: i64) -> (t: ObjectiveTemplate)
    requires
        level < i64::MAX,
    ensures
        t.category@ == "reach_level"@,
        t.title@ == "Reach level "@ + decimal(reach_target(level as int)),
        t.target == reach_target(level as int),
{
    let target = if level + 1 >= 2 {
        level + 1
    } else {
        2
    };
    let title = String::from_str("Reach level ").concat(i64_to_text(target).as_str());
    ObjectiveTemplate { category: String::from_str("reach_level"), title, target }
}

/// The objectives to create for a day, given the pet's level and the seed the
/// day's ordering is drawn from.
pub fn daily_objective_templates(level: i64, seed: usize) -> (chosen: Vec<ObjectiveTemplate>)
    requires
        level < i64::MAX,
        seed + 143 <= usize::MAX,
    ensures
        chosen@.len() == 3,
        forall|i: int|
            0 <= i < 3 ==> template_matches(
                #[trigger] chosen@[i],
                offered_categories(seed as int)[i],
                level as int,
            ),
{
    proof {
        reveal_strlit("code_2h");
        reveal_strlit("hydrate");
        reveal_strlit("take_breaks");
        reveal_strlit("reach_level");
        assert("code_2h"@ != "hydrate"@) by {
            assert("code_2h"@[0] != "hydrate"@[0]);
        }
        assert("code_2h"@.len() != "take_breaks"@.len());
        assert("code_2h"@.len() != "reach_level"@.len());
        assert("hydrate"@.len() != "take_breaks"@.len());
        assert("hydrate"@.len() != "reach_level"@.len());
        assert("take_breaks"@ != "reach_level"@) by {
            assert("take_breaks"@[0] != "reach_level"@[0]);
        }
    }
    let short_key = (seed + 7 * 13) % 101;
    let long_key = (seed + 11 * 13) % 101;
    let mut chosen: Vec<ObjectiveTemplate> = Vec::new();
    if short_key <= long_key {
        chosen.push(code_template());
        chosen.push(hydrate_template());
        chosen.push(breaks_template());
    } else {
        chosen.push(breaks_template());
        chosen.push(reach_template(level));
        chosen.push(code_template());
    }
    assert(template_matches(chosen@[0], offered_categories(seed as int)[0], level as int));
    assert(template_matches(chosen@[1], offered_categories(seed as int)[1], level as int));
    assert(template_matches(chosen@[2], offered_categories(seed as int)[2], level as int));
    chosen
}

/// How many objectives a day gets created when it already has `existing`:
/// three when it has none, none otherwise.
pub open spec fn objectives_created(existing: int) -> int {
    if existing > 0 {
        0
    } else {
        3
    }
}

/// The objectives to create for today, which already has `existing` of them:
/// none when it has some, else the three offered for the pet's level and the
/// day's seed.
pub fn objectives_to_create(existing: i64, level: i64, seed: usize) -> (created: Vec<
    ObjectiveTemplate,
>)
    requires
        level < i64::MAX,
        seed + 143 <= usize::MAX,
    ensures
        created@.len() == objectives_created(existing as int),
        existing <= 0 ==> forall|i: int|
            0 <= i < 3 ==> template_matches(
                #[trigger] created@[i],
                offered_categories(seed as int)[i],
                level as int,
            ),
{
    if existing > 0 {
        Vec::new()
    } else {
        daily_objective_templates(level, seed)
    }
}

/// The day's objectives are created once: once a day's objectives exist,
/// asking again creates none.
pub proof fn lemma_objectives_created_once(existing: int)
    requires
        existing >= 0,
    ensures
        objectives_created(existing + objectives_created(existing)) == 0,
{
}

/// The larger of two numbers.
pub open spec fn max_i64(a: i64, b: i64) -> i64 {
    if a >= b {
        a
    } else {
        b
    }
}

/// An objective of `category` that is not yet complete takes the larger of its
/// progress and `progress`, and completes once that reaches its target; other
/// objectives are unchanged.
pub open spec fn raised(o: DailyObjective, category: Seq<char>, progress: i64) -> DailyObjective {
    if o.category@ == category && !o.completed {
        let p = max_i64(o.progress, progress);
        DailyObjective { progress: p, completed: p >= o.target, ..o }
    } else {
        o
    }
}

/// An objective of `category` that is not yet complete advances by `amount`
/// and completes once it reaches its target; other objectives are unchanged.
pub open spec fn advanced(o: DailyObjective, category: Seq<char>, amount: i64) -> DailyObjective {
    if o.category@ == category && !o.completed {
        let p = (o.progress + amount) as i64;
        DailyObjective { progress: p, completed: p >= o.target, ..o }
    } else {
        o
    }
}

fn copy_objective(o: &DailyObjective, progress: i64, completed: bool) -> (c: DailyObjective)
    ensures
        c == (DailyObjective { progress, completed, ..*o }),
{
    DailyObjective {
        id: o.id,
        date: o.date.clone(),
        title: o.title.clone(),
        category: o.category.clone(),
        target: o.target,
        progress,
        completed,
    }
}

/// Raises the progress of the day's objectives of `category`.
pub fn raise_progress(objectives: &Vec<DailyObjective>, category: &str, progress: i64) -> (out: Vec<
    DailyObjective,
>)
    ensures
        out@.len() == objectives@.len(),
        forall|i: int|
            0 <= i < out@.len() ==> #[trigger] out@[i] == raised(objectives@[i], category@, progress),
{
    let mut out: Vec<DailyObjective> = Vec::new();
    let n = objectives.len();
    let mut i: usize = 0;
    while i < n
        invariant
            n == objectives@.len(),
            i <= n,
            out@.len() == i,
            forall|k: int|
                0 <= k < i ==> #[trigger] out@[k] == raised(objectives@[k], category@, progress),
        decreases n - i,
    {
        let o = &objectives[i];
        let next = if str_eq(o.category.as_str(), category) && !o.completed {
            let p = if o.progress >= progress {
                o.progress
            } else {
                progress
            };
            copy_objective(o, p, p >= o.target)
        } else {
            copy_objective(o, o.progress, o.completed)
        };
        out.push(next);
        i = i + 1;
    }
    out
}

/// Advances the day's objectives of `category` by `amount`.
pub fn advance_progress(objectives: &Vec<DailyObjective>, category: &str, amount: i64) -> (out: Vec<
    DailyObjective,
>)
    requires
        forall|i: int|
            0 <= i < objectives@.len() && (#[trigger] objectives@[i]).category@ == category@
                && !objectives@[i].completed ==> i64::MIN <= objectives@[i].progress + amount
                <= i64::MAX,
    ensures
        out@.len() == objectives@.len(),
        forall|i: int|
            0 <= i < out@.len() ==> #[trigger] out@[i] == advanced(objectives@[i], category@, amount),
{
    let mut out: Vec<DailyObjective> = Vec::new();
    let n = objectives.len();
    let mut i: usize = 0;
    while i < n
        invariant
            n == objectives@.len(),
            i <= n,
            out@.len() == i,
            forall|k: int|
                0 <= k < objectives@.len() && (#[trigger] objectives@[k]).category@ == category@
                    && !objectives@[k].completed ==> i64::MIN <= objectives@[k].progress + amount
                    <= i64::MAX,
            forall|k: int|
                0 <= k < i ==> #[trigger] out@[k] == advanced(objectives@[k], category@, amount),
        decreases n - i,
    {
        let o = &objectives[i];
        let next = if str_eq(o.category.as_str(), category) && !o.completed {
            let p = o.progress + amount;
            copy_objective(o, p, p >= o.target)
        } else {
            copy_objective(o, o.progress, o.completed)
        };
        out.push(next);
        i = i + 1;
    }
    out
}

/// The four raises that bring the day's objectives in line with the day's
/// activity and the pet's level.
pub open spec fn refreshed(o: DailyObjective, activity: DailyActivity, level: i64) -> DailyObjective {
    raised(
        raised(
            raised(raised(o, "code_2h"@, activity.coding_secs), "take_breaks"@, activity.breaks_taken),
            "hydrate"@,
            activity.hydration_acknowledged,
        ),
        "reach_level"@,
        level,
    )
}

pub fn refresh_objectives(objectives: &Vec<DailyObjective>, activity: &DailyActivity, level: i64) -> (out:
    Vec<DailyObjective>)
    ensures
        out@.len() == objectives@.len(),
        forall|i: int|
            0 <= i < out@.len() ==> #[trigger] out@[i] == refreshed(objectives@[i], *activity, level),
{
    let a = raise_progress(objectives, "code_2h", activity.coding_secs);
    let b = raise_progress(&a, "take_breaks", activity.breaks_taken);
    let c = raise_progress(&b, "hydrate", activity.hydration_acknowledged);
    let d = raise_progress(&c, "reach_level", level);
    assert forall|i: int| 0 <= i < d@.len() implies #[trigger] d@[i] == refreshed(
        objectives@[i],
        *activity,
        level,
    ) by {
        assert(a@[i] == raised(objectives@[i], "code_2h"@, activity.coding_secs));
        assert(b@[i] == raised(a@[i], "take_breaks"@, activity.breaks_taken));
        assert(c@[i] == raised(b@[i], "hydrate"@, activity.hydration_acknowledged));
    }
    d
}

/// Points out of `weight` for `count` (at least 0) against a goal of `cap`,
/// rounded to the nearest integer with halves rounded up.
pub open spec fn share(count: int, cap: int, weight: int) -> int {
    let c = if count <= cap {
        count
    } else {
        cap
    };
    (2 * c * weight + cap) / (2 * cap)
}

/// The day's productivity breakdown: up to 40 points for two hours of coding,
/// 30 for three breaks, 20 for five glasses of water, 10 for three completed
/// objectives.
pub fn productivity_breakdown(
    coding_secs: i64,
    breaks: i64,
    hydration: i64,
    objectives_completed: i64,
) -> (b: ProductivityBreakdown)
    requires
        coding_secs >= 0,
        breaks >= 0,
        hydration >= 0,
        objectives_completed >= 0,
    ensures
        b.coding == share(coding_secs as int, 7200, 40),
        b.breaks == share(breaks as int, 3, 30),
        b.hydration == share(hydration as int, 5, 20),
        b.goals == share(objectives_completed as int, 3, 10),
{
    let c = if coding_secs <= 7200 {
        coding_secs
    } else {
        7200
    };
    let br = if breaks <= 3 {
        breaks
    } else {
        3
    };
    let h = if hydration <= 5 {
        hydration
    } else {
        5
    };
    let g = if objectives_completed <= 3 {
        objectives_completed
    } else {
        3
    };
    ProductivityBreakdown {
        coding: (2 * c * 40 + 7200) / 14400,
        breaks: (2 * br * 30 + 3) / 6,
        hydration: (2 * h * 20 + 5) / 10,
        goals: (2 * g * 10 + 3) / 6,
    }
}

/// The productivity score: the sum of the breakdown.
pub fn productivity_score(b: &ProductivityBreakdown) -> (score: i64)
    requires
        0 <= b.coding <= 40,
        0 <= b.breaks <= 30,
        0 <= b.hydration <= 20,
        0 <= b.goals <= 10,
    ensures
        score == b.coding + b.breaks + b.hydration + b.goals,
{
    b.coding + b.breaks + b.hydration + b.goals
}

/// A breakdown never exceeds its weights, so the score stays within 0..=100.
pub proof fn lemma_breakdown_bounds(coding_secs: int, breaks: int, hydration: int, goals: int)
    requires
        coding_secs >= 0,
        breaks >= 0,
        hydration >= 0,
        goals >= 0,
    ensures
        0 <= share(coding_secs, 7200, 40) <= 40,
        0 <= share(breaks, 3, 30) <= 30,
        0 <= share(hydration, 5, 20) <= 20,
        0 <= share(goals, 3, 10) <= 10,
        0 <= share(coding_secs, 7200, 40) + share(breaks, 3, 30) + share(hydration, 5, 20) + share(
            goals,
            3,
            10,
        ) <= 100,
{
}

/// How a reminder acknowledgement counts.
#[derive(Debug, Clone, Copy, PartialEq, Eq, Structural)]
pub enum Acknowledgement {
    Hydration,
    Break,
    Other,
}

pub open spec fn acknowledgement_of(category: Seq<char>) -> Acknowledgement {
    if category == "hydration"@ {
        Acknowledgement::Hydration
    } else if category == "break"@ {
        Acknowledgement::Break
    } else {
        Acknowledgement::Other
    }
}

pub fn acknowledgement_for(category: &str) -> (kind: Acknowledgement)
    ensures
        kind == acknowledgement_of(category@),
{
    if str_eq(category, "hydration") {
        Acknowledgement::Hydration
    } else if str_eq(category, "break") {
        Acknowledgement::Break
    } else {
        Acknowledgement::Other
    }
}

/// XP an acknowledgement is worth: 10 for water, 20 for a break, none otherwise.
pub fn acknowledgement_xp(kind: Acknowledgement) -> (xp: i64)
    ensures
        xp == (match kind {
            Acknowledgement::Hydration => XP_HYDRATION_ACK,
            Acknowledgement::Break => XP_BREAK_ON_TIME,
            Acknowledgement::Other => 0,
        }),
{
    match kind {
        Acknowledgement::Hydration => XP_HYDRATION_ACK,
        Acknowledgement::Break => XP_BREAK_ON_TIME,
        Acknowledgement::Other => 0,
    }
}

/// The objective category an acknowledgement advances, if any.
pub open spec fn acknowledged_category(kind: Acknowledgement) -> Option<Seq<char>> {
    match kind {
        Acknowledgement::Hydration => Some("hydrate"@),
        Acknowledgement::Break => Some("take_breaks"@),
        Acknowledgement::Other => None,
    }
}

pub fn acknowledged_objective(kind: Acknowledgement) -> (category: Option<&'static str>)
    ensures
        match category {
            Some(c) => acknowledged_category(kind) == Some(c@),
            None => acknowledged_category(kind) is None,
        },
{
    match kind {
        Acknowledgement::Hydration => Some("hydrate"),
        Acknowledgement::Break => Some("take_breaks"),
        Acknowledgement::Other => None,
    }
}

/// Every acknowledgement counts as a reminder acknowledged; water and breaks
/// also bump their own counter.
pub open spec fn acknowledged(a: DailyActivity, kind: Acknowledgement) -> DailyActivity {
    let r = DailyActivity {
        reminders_acknowledged: (a.reminders_acknowledged + 1) as i64,
        ..a
    };
    match kind {
        Acknowledgement::Hydration => DailyActivity {
            hydration_acknowledged: (a.hydration_acknowledged + 1) as i64,
            ..r
        },
        Acknowledgement::Break => DailyActivity { breaks_taken: (a.breaks_taken + 1) as i64, ..r },
        Acknowledgement::Other => r,
    }
}

pub fn record_acknowledgement(activity: &DailyActivity, kind: Acknowledgement) -> (after:
    DailyActivity)
    requires
        activity.reminders_acknowledged < i64::MAX,
        activity.hydration_acknowledged < i64::MAX,
        activity.breaks_taken < i64::MAX,
    ensures
        after == acknowledged(*activity, kind),
{
    let r = DailyActivity {
        reminders_acknowledged: activity.reminders_acknowledged + 1,
        ..*activity
    };
    match kind {
        Acknowledgement::Hydration => DailyActivity {
            hydration_acknowledged: activity.hydration_acknowledged + 1,
            ..r
        },
        Acknowledgement::Break => DailyActivity { breaks_taken: activity.breaks_taken + 1, ..r },
        Acknowledgement::Other => r,
    }
}

/// Adds a finished session's seconds to the day's coding time.
pub fn add_coding_secs(activity: &DailyActivity, secs: i64) -> (after: DailyActivity)
    requires
        i64::MIN <= activity.coding_secs + secs <= i64::MAX,
    ensures
        after == (DailyActivity { coding_secs: (activity.coding_secs + secs) as i64, ..*activity }),
{
    DailyActivity { coding_secs: activity.coding_secs + secs, ..*activity }
}

/// Positions of the completed objectives whose completion bonus has not been
/// paid yet, in order.
pub fn objectives_to_award(objectives: &Vec<DailyObjective>, awarded: &Vec<bool>) -> (due: Vec<
    usize,
>)
    requires
        awarded@.len() == objectives@.len(),
    ensures
        forall|k: int|
            0 <= k < due@.len() ==> #[trigger] due@[k] < objectives@.len()
                && objectives@[due@[k] as int].completed && !awarded@[due@[k] as int],
        forall|j: int, k: int| 0 <= j < k < due@.len() ==> due@[j] < due@[k],
        forall|i: int|
            0 <= i < objectives@.len() && objectives@[i].completed && !awarded@[i]
                ==> due@.contains(i as usize),
{
    let mut due: Vec<usize> = Vec::new();
    let n = objectives.len();
    let mut i: usize = 0;
    while i < n
        invariant
            n == objectives@.len(),
            awarded@.len() == n,
            i <= n,
            forall|k: int|
                0 <= k < due@.len() ==> #[trigger] due@[k] < i && objectives@[due@[k] as int].completed
                    && !awarded@[due@[k] as int],
            forall|j: int, k: int| 0 <= j < k < due@.len() ==> due@[j] < due@[k],
            forall|q: int|
                0 <= q < i && objectives@[q].completed && !awarded@[q] ==> due@.contains(q as usize),
        decreases n - i,
    {
        if objectives[i].completed && !awarded[i] {
            let ghost before = due@;
            due.push(i);
            assert forall|q: int|
                0 <= q < i + 1 && objectives@[q].completed && !awarded@[q] implies due@.contains(
                q as usize,
            ) by {
                if q < i {
                    let w = choose|w: int| 0 <= w < before.len() && before[w] == q as usize;
                    assert(due@[w] == q as usize);
                } else {
                    assert(due@[due@.len() - 1] == q as usize);
                }
            }
        }
        i = i + 1;
    }
    due
}

/// Settings key that records the completion bonus of objective `id` as paid.
pub fn award_marker_key(id: i64) -> (key: String)
    ensures
        key@ == "objective_awarded_"@ + decimal(id as int),
{
    String::from_str("objective_awarded_").concat(i64_to_text(id).as_str())
}

} // verus!
