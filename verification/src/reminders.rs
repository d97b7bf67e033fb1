//! Reminders, the pet's mood and idle detection.
use vstd::prelude::*;
use vstd::string::*;
use std::str::FromStr;
use crate::text::{
    has_prefix, parse_i64, parsed_i64, starts_with, str_eq, strip_prefixes, trim_start_matches,
};

verus! {

#[derive(Debug, Clone)]
pub struct Reminder {
    pub id: i64,
    pub title: String,
    pub message: String,
    pub cron_expr: String,
    pub enabled: bool,
    pub category: String,
    pub last_fired: Option<i64>,
}

#[derive(Debug, Clone)]
pub struct CreateReminderInput {
    pub title: String,
    pub message: String,
    pub cron_expr: String,
    pub category: String,
}

#[derive(Debug, Clone)]
pub struct UpdateReminderInput {
    pub id: i64,
    pub title: String,
    pub message: String,
    pub cron_expr: String,
    pub category: String,
    pub enabled: bool,
}

#[derive(Debug, Clone, Copy, PartialEq, Eq, Structural)]
pub enum PetMood {
    Happy,
    Neutral,
    Sad,
    Excited,
    Sleepy,
}

/// Stored name of each mood.
pub open spec fn mood_name(mood: PetMood) -> Seq<char> {
    match mood {
        PetMood::Happy => "happy"@,
        PetMood::Neutral => "neutral"@,
        PetMood::Sad => "sad"@,
        PetMood::Excited => "excited"@,
        PetMood::Sleepy => "sleepy"@,
    }
}

/// Mood read back from its stored name; anything unknown reads as happy.
pub open spec fn mood_named(value: Seq<char>) -> PetMood {
    if value == "neutral"@ {
        PetMood::Neutral
    } else if value == "sad"@ {
        PetMood::Sad
    } else if value == "excited"@ {
        PetMood::Excited
    } else if value == "sleepy"@ {
        PetMood::Sleepy
    } else {
        PetMood::Happy
    }
}

impl PetMood {
    pub fn as_str(self) -> (s: &'static str)
        ensures
            s@ == mood_name(self),
    {
        match self {
            PetMood::Happy => "happy",
            PetMood::Neutral => "neutral",
            PetMood::Sad => "sad",
            PetMood::Excited => "excited",
            PetMood::Sleepy => "sleepy",
        }
    }

    pub fn from_str(value: &str) -> (mood: PetMood)
        ensures
            mood == mood_named(value@),
    {
        if str_eq(value, "neutral") {
            PetMood::Neutral
        } else if str_eq(value, "sad") {
            PetMood::Sad
        } else if str_eq(value, "excited") {
            PetMood::Excited
        } else if str_eq(value, "sleepy") {
            PetMood::Sleepy
        } else {
            PetMood::Happy
        }
    }
}

/// Reading a mood's stored name gives the mood back.
pub proof fn lemma_mood_name_round_trip(mood: PetMood)
    ensures
        mood_named(mood_name(mood)) == mood,
{
    reveal_strlit("happy");
    reveal_strlit("neutral");
    reveal_strlit("sad");
    reveal_strlit("excited");
    reveal_strlit("sleepy");
    assert("happy"@.len() != "neutral"@.len());
    assert("happy"@.len() != "sad"@.len());
    assert("happy"@.len() != "excited"@.len());
    assert("happy"@.len() != "sleepy"@.len());
    assert("neutral"@.len() != "sad"@.len());
    assert("neutral"@[0] != "excited"@[0]);
    assert("neutral"@.len() != "sleepy"@.len());
    assert("sad"@.len() != "excited"@.len());
    assert("sad"@.len() != "sleepy"@.len());
    assert("excited"@.len() != "sleepy"@.len());
}

#[derive(Debug, Clone, Copy, PartialEq, Eq, Structural)]
pub struct MoodState {
    pub mood: PetMood,
    pub last_interaction: i64,
    pub excitement_until: Option<i64>,
}

/// `a - b`, clamped to the `i64` range (`i64::saturating_sub`).
pub open spec fn sat_sub(a: int, b: int) -> int {
    if a - b > i64::MAX {
        i64::MAX as int
    } else if a - b < i64::MIN {
        i64::MIN as int
    } else {
        a - b
    }
}

pub fn saturating_sub(a: i64, b: i64) -> (r: i64)
    ensures
        r == sat_sub(a as int, b as int),
{
    let d = a as i128 - b as i128;
    if d > i64::MAX as i128 {
        i64::MAX
    } else if d < i64::MIN as i128 {
        i64::MIN
    } else {
        d as i64
    }
}

/// The result of reconciling the mood with the time: the state to report and
/// the writes to make.
#[derive(Debug, Clone, Copy, PartialEq, Eq, Structural)]
pub struct MoodReconciliation {
    pub state: MoodState,
    /// Store "happy" and clear the excitement deadline.
    pub excitement_expired: bool,
    /// Store this mood.
    pub store_mood: Option<PetMood>,
}

/// The mood the pet drifts to after `inactive_secs` without interaction at
/// local hour `hour`: sleepy at night after 15 minutes, sad after 30 minutes,
/// neutral after 10, otherwise happy (or still excited).
pub open spec fn drifted_mood(current: PetMood, hour: int, inactive_secs: int) -> PetMood {
    if (hour >= 23 || hour < 6) && inactive_secs > 900 {
        PetMood::Sleepy
    } else if inactive_secs > 1800 {
        PetMood::Sad
    } else if inactive_secs > 600 {
        PetMood::Neutral
    } else if current == PetMood::Excited {
        PetMood::Excited
    } else {
        PetMood::Happy
    }
}

/// Excitement ends once its deadline has passed; then the mood drifts with
/// inactivity, except that an excited pet keeps its mood.
pub open spec fn reconciled(state: MoodState, now: int, hour: int) -> MoodReconciliation {
    let expired = state.excitement_until is Some && now >= state.excitement_until->0
        && state.mood == PetMood::Excited;
    let mood = if expired {
        PetMood::Happy
    } else {
        state.mood
    };
    let next = drifted_mood(mood, hour, sat_sub(now, state.last_interaction as int));
    let change = next != mood && mood != PetMood::Excited;
    MoodReconciliation {
        state: MoodState {
            mood: if change {
                next
            } else {
                mood
            },
            ..state
        },
        excitement_expired: expired,
        store_mood: if change {
            Some(next)
        } else {
            None
        },
    }
}

pub fn reconcile_mood(state: MoodState, now: i64, hour: u32) -> (r: MoodReconciliation)
    ensures
        r == reconciled(state, now as int, hour as int),
{
    let mut mood = state.mood;
    let mut expired = false;
    if let Some(until) = state.excitement_until {
        if now >= until && mood == PetMood::Excited {
            mood = PetMood::Happy;
            expired = true;
        }
    }
    let inactive_secs = saturating_sub(now, state.last_interaction);
    let next = if (hour >= 23 || hour < 6) && inactive_secs > 900 {
        PetMood::Sleepy
    } else if inactive_secs > 1800 {
        PetMood::Sad
    } else if inactive_secs > 600 {
        PetMood::Neutral
    } else if mood == PetMood::Excited {
        PetMood::Excited
    } else {
        PetMood::Happy
    };
    if next != mood && mood != PetMood::Excited {
        MoodReconciliation {
            state: MoodState { mood: next, ..state },
            excitement_expired: expired,
            store_mood: Some(next),
        }
    } else {
        MoodReconciliation {
            state: MoodState { mood, ..state },
            excitement_expired: expired,
            store_mood: None,
        }
    }
}

/// When the user last interacted and whether the idle event went out since.
#[derive(Debug, Clone, Copy, PartialEq, Eq, Structural)]
pub struct InteractionState {
    pub last_interaction: i64,
    pub idle_emitted: bool,
}

impl InteractionState {
    pub fn new(now: i64) -> (s: Self)
        ensures
            s.last_interaction == now,
            !s.idle_emitted,
    {
        InteractionState { last_interaction: now, idle_emitted: false }
    }

    /// Records an interaction at `now`.
    pub fn touch(&mut self, now: i64)
        ensures
            final(self).last_interaction == now,
            !final(self).idle_emitted,
    {
        self.last_interaction = now;
        self.idle_emitted = false;
    }

    /// Whether the idle event is due at `now`: the user has been away for the
    /// idle timeout and the event has not gone out since the last
    /// interaction. A due event is recorded as sent.
    pub fn check_idle(&mut self, now: i64, idle_minutes: i64) -> (emit: bool)
        requires
            i64::MIN <= now - old(self).last_interaction <= i64::MAX,
            i64::MIN <= idle_minutes * 60 <= i64::MAX,
        ensures
            emit == (now - old(self).last_interaction >= idle_minutes * 60
                && !old(self).idle_emitted),
            final(self).last_interaction == old(self).last_interaction,
            final(self).idle_emitted == (old(self).idle_emitted || emit),
    {
        let elapsed_secs = now - self.last_interaction;
        if elapsed_secs >= idle_minutes * 60 && !self.idle_emitted {
            self.idle_emitted = true;
            true
        } else {
            false
        }
    }
}

/// Minutes of an "@every:N" reminder: N when it parses as an `i64`, else 30.
pub open spec fn every_minutes(expr: Seq<char>) -> int {
    match parsed_i64(strip_prefixes(expr, "@every:"@)) {
        Some(v) => v,
        None => 30,
    }
}

/// Whether an "@every:N" reminder is due at `now`: never fired, or at least N
/// minutes since it last fired.
pub open spec fn every_due(last_fired: Option<i64>, expr: Seq<char>, now: int) -> bool {
    match last_fired {
        None => true,
        Some(last) => sat_sub(now, last as int) >= every_minutes(expr) * 60,
    }
}

pub open spec fn is_every(expr: Seq<char>) -> bool {
    has_prefix(expr, "@every:"@)
}

/// What looking up a cron expression gave.
#[derive(Debug, Clone, Copy, PartialEq, Eq, Structural)]
pub enum CronLookup {
    /// The expression does not parse.
    Invalid,
    /// The schedule's first firing after the instant `from` (Unix
    /// timestamps), if it fires again.
    Next { from: i64, next: Option<i64> },
}

/// Whether `expr` parses as a cron schedule.
pub uninterp spec fn cron_parses(expr: Seq<char>) -> bool;

/// Largest Unix timestamp `chrono` turns into a date and time.
pub const CHRONO_MAX_TIMESTAMP: i64 = 8210266876799;

/// Smallest Unix timestamp `chrono` turns into a date and time.
pub const CHRONO_MIN_TIMESTAMP: i64 = -8334601228800;

/// Parses `expr` with `cron::Schedule::from_str`; on success converts `after`
/// to local time with `chrono::DateTime::from_timestamp` (falling back to
/// `chrono::Local::now()` outside chrono's range) and takes the first item of
/// `Schedule::after`, reporting it with the instant it was looked up from.
/// Stated: the lookup fails exactly when the expression does not parse, and a
/// successful one records `after` as its starting instant. Not stated: which
/// instant comes back. It depends on the machine's time zone and, outside
/// chrono's range, on the clock; and it need not lie after `after`, since
/// across a daylight-saving overlap `Schedule::after` yields the earlier of
/// two instants with the same local time.
#[verifier::external_body]
fn cron_next_after(expr: &str, after: i64) -> (r: CronLookup)
    requires
        after != CHRONO_MAX_TIMESTAMP,
    ensures
        (r is Invalid) == !cron_parses(expr@),
        r matches CronLookup::Next { from, .. } ==> from == after,
{
    let Ok(schedule) = <cron::Schedule as FromStr>::from_str(expr) else {
        return CronLookup::Invalid;
    };
    let start = chrono::DateTime::from_timestamp(after, 0).map(|dt| dt.with_timezone(&chrono::Local))
        .unwrap_or_else(chrono::Local::now);
    CronLookup::Next { from: after, next: schedule.after(&start).next().map(|next| next.timestamp()) }
}

/// Converts `ts` with `chrono::DateTime::from_timestamp` to local time,
/// falling back to `chrono::Local::now()` when chrono cannot represent it, and
/// reads back the Unix timestamp. Stated: inside chrono's range the result is
/// `ts` itself. Not stated: the fallback value, which is the clock.
#[verifier::external_body]
fn local_instant(ts: i64) -> (r: i64)
    ensures
        CHRONO_MIN_TIMESTAMP <= ts <= CHRONO_MAX_TIMESTAMP ==> r == ts,
{
    chrono::DateTime::from_timestamp(ts, 0).map(|dt| dt.with_timezone(&chrono::Local)).unwrap_or_else(
        chrono::Local::now,
    ).timestamp()
}

/// Whether a cron reminder is due, given the lookup made from its last firing
/// (or from `now` when it never fired) and the current instant: a fired
/// reminder is due once its next firing is not after now; a new one is due
/// when the schedule fires at all; an unparsable one never is.
pub open spec fn cron_due(last_fired: Option<i64>, lookup: CronLookup, now_instant: int) -> bool {
    match lookup {
        CronLookup::Invalid => false,
        CronLookup::Next { next, .. } => match last_fired {
            Some(_) => next matches Some(t) && t <= now_instant,
            None => next is Some,
        },
    }
}

pub fn cron_reminder_due(last_fired: Option<i64>, lookup: CronLookup, now_instant: i64) -> (due:
    bool)
    ensures
        due == cron_due(last_fired, lookup, now_instant as int),
{
    match lookup {
        CronLookup::Invalid => false,
        CronLookup::Next { next, .. } => match last_fired {
            Some(_) => match next {
                Some(t) => t <= now_instant,
                None => false,
            },
            None => next.is_some(),
        },
    }
}

/// The instant a cron reminder's schedule is looked up from: its last firing,
/// or `now` when it never fired.
pub open spec fn lookup_start(r: Reminder, now: int) -> int {
    match r.last_fired {
        Some(last) => last as int,
        None => now,
    }
}

/// `lookup` is one the schedule of `r` can give at `now`: it fails exactly
/// when the expression does not parse, and starts from `lookup_start`.
pub open spec fn lookup_fits(r: Reminder, now: int, lookup: CronLookup) -> bool {
    &&& (lookup is Invalid) == !cron_parses(r.cron_expr@)
    &&& lookup matches CronLookup::Next { from, .. } ==> from == lookup_start(r, now)
}

/// An "@every:N" reminder can be evaluated without overflow.
pub open spec fn every_in_range(expr: Seq<char>) -> bool {
    is_every(expr) ==> i64::MIN <= every_minutes(expr) * 60 <= i64::MAX
}

/// Whether `at` can stand for the current instant `now`: inside chrono's
/// range they are equal.
pub open spec fn instant_of(now: int, at: int) -> bool {
    CHRONO_MIN_TIMESTAMP <= now <= CHRONO_MAX_TIMESTAMP ==> at == now
}

/// Whether a reminder is due at `now`, the cron lookup having given `lookup`
/// and the current instant read as `at`; `lookup` is `Invalid` for reminders
/// that are not cron schedules.
fn reminder_due_with(reminder: &Reminder, now: i64, at: i64) -> (r: (bool, CronLookup))
    requires
        every_in_range(reminder.cron_expr@),
        now != CHRONO_MAX_TIMESTAMP,
        reminder.last_fired != Some(CHRONO_MAX_TIMESTAMP),
    ensures
        !reminder.enabled ==> !r.0,
        reminder.enabled && is_every(reminder.cron_expr@) ==> r.0 == every_due(
            reminder.last_fired,
            reminder.cron_expr@,
            now as int,
        ),
        reminder.enabled && !is_every(reminder.cron_expr@) ==> lookup_fits(*reminder, now as int, r.1)
            && r.0 == cron_due(reminder.last_fired, r.1, at as int),
{
    if !reminder.enabled {
        return (false, CronLookup::Invalid);
    }
    proof {
        reveal_strlit("@every:");
    }
    if starts_with(reminder.cron_expr.as_str(), "@every:") {
        let rest = trim_start_matches(reminder.cron_expr.as_str(), "@every:");
        let minutes = match parse_i64(rest) {
            Some(v) => v,
            None => 30,
        };
        let interval_secs = minutes * 60;
        let due = match reminder.last_fired {
            None => true,
            Some(last) => saturating_sub(now, last) >= interval_secs,
        };
        (due, CronLookup::Invalid)
    } else {
        let lookup = match reminder.last_fired {
            Some(last) => cron_next_after(reminder.cron_expr.as_str(), last),
            None => cron_next_after(reminder.cron_expr.as_str(), now),
        };
        (cron_reminder_due(reminder.last_fired, lookup, at), lookup)
    }
}

/// Whether a reminder is due at `now`. Disabled reminders never are;
/// "@every:N" reminders follow `every_due`; other reminders are cron schedules,
/// due by `cron_due` for a lookup made from their last firing (or from `now`)
/// and the current instant, and due only when their expression parses.
pub fn reminder_is_due(reminder: &Reminder, now: i64) -> (due: bool)
    requires
        every_in_range(reminder.cron_expr@),
        now != CHRONO_MAX_TIMESTAMP,
        reminder.last_fired != Some(CHRONO_MAX_TIMESTAMP),
    ensures
        !reminder.enabled ==> !due,
        reminder.enabled && is_every(reminder.cron_expr@) ==> due == every_due(
            reminder.last_fired,
            reminder.cron_expr@,
            now as int,
        ),
        reminder.enabled && !is_every(reminder.cron_expr@) ==> exists|lookup: CronLookup, at: i64|
            {
                &&& lookup_fits(*reminder, now as int, lookup)
                &&& instant_of(now as int, at as int)
                &&& due == #[trigger] cron_due(reminder.last_fired, lookup, at as int)
            },
        reminder.enabled && !is_every(reminder.cron_expr@) && due ==> cron_parses(
            reminder.cron_expr@,
        ),
{
    let at = local_instant(now);
    let (due, lookup) = reminder_due_with(reminder, now, at);
    proof {
        if reminder.enabled && !is_every(reminder.cron_expr@) {
            assert(due == cron_due(reminder.last_fired, lookup, at as int));
        }
    }
    due
}

/// Reminders that can be polled without overflow.
pub open spec fn pollable(r: Reminder, now: int) -> bool {
    every_in_range(r.cron_expr@) && r.last_fired != Some(CHRONO_MAX_TIMESTAMP)
}

/// Whether `r` can be polled at `now` without overflow.
pub fn is_pollable(r: &Reminder, now: i64) -> (b: bool)
    ensures
        b == (now != CHRONO_MAX_TIMESTAMP && pollable(*r, now as int)),
{
    if now == CHRONO_MAX_TIMESTAMP || r.last_fired == Some(CHRONO_MAX_TIMESTAMP) {
        return false;
    }
    proof {
        reveal_strlit("@every:");
    }
    if starts_with(r.cron_expr.as_str(), "@every:") {
        let rest = trim_start_matches(r.cron_expr.as_str(), "@every:");
        let minutes = match parse_i64(rest) {
            Some(v) => v,
            None => 30,
        };
        (minutes as i128) * 60 >= i64::MIN as i128 && (minutes as i128) * 60 <= i64::MAX as i128
    } else {
        true
    }
}

/// The cron reminders of the listing agree with `looks` and `at`: each
/// enabled cron reminder is listed exactly when it is due for its lookup.
pub open spec fn cron_listing(
    reminders: Seq<Reminder>,
    now: int,
    due: Seq<usize>,
    looks: Seq<CronLookup>,
    at: int,
) -> bool {
    &&& looks.len() == reminders.len()
    &&& instant_of(now, at)
    &&& forall|i: int|
        0 <= i < reminders.len() && reminders[i].enabled && !is_every(reminders[i].cron_expr@)
            ==> lookup_fits(reminders[i], now, #[trigger] looks[i]) && (due.contains(i as usize)
            == cron_due(reminders[i].last_fired, looks[i], at))
}

proof fn lemma_push_contains(s: Seq<usize>, x: usize, y: usize)
    ensures
        s.push(x).contains(y) == (s.contains(y) || x == y),
{
    let t = s.push(x);
    if s.contains(y) {
        let w = choose|w: int| 0 <= w < s.len() && s[w] == y;
        assert(t[w] == y);
    }
    if x == y {
        assert(t[s.len() as int] == y);
    }
    if t.contains(y) {
        let w = choose|w: int| 0 <= w < t.len() && t[w] == y;
        if w < s.len() {
            assert(s[w] == y);
        }
    }
}

/// Positions, in order, of the enabled reminders that are due at `now`. The
/// current instant is read once for all cron reminders.
pub fn due_reminders(reminders: &Vec<Reminder>, now: i64) -> (due: Vec<usize>)
    requires
        now != CHRONO_MAX_TIMESTAMP,
        forall|i: int| 0 <= i < reminders@.len() ==> pollable(#[trigger] reminders@[i], now as int),
    ensures
        forall|k: int|
            0 <= k < due@.len() ==> #[trigger] due@[k] < reminders@.len()
                && reminders@[due@[k] as int].enabled,
        forall|j: int, k: int| 0 <= j < k < due@.len() ==> due@[j] < due@[k],
        forall|k: int|
            0 <= k < due@.len() && is_every(reminders@[#[trigger] due@[k] as int].cron_expr@)
                ==> every_due(
                reminders@[due@[k] as int].last_fired,
                reminders@[due@[k] as int].cron_expr@,
                now as int,
            ),
        forall|i: int|
            0 <= i < reminders@.len() && reminders@[i].enabled && is_every(reminders@[i].cron_expr@)
                && every_due(reminders@[i].last_fired, reminders@[i].cron_expr@, now as int)
                ==> due@.contains(i as usize),
        exists|looks: Seq<CronLookup>, at: i64| #[trigger]
            cron_listing(reminders@, now as int, due@, looks, at as int),
{
    let at = local_instant(now);
    let mut due: Vec<usize> = Vec::new();
    let ghost mut looks: Seq<CronLookup> = Seq::empty();
    let n = reminders.len();
    let mut i: usize = 0;
    while i < n
        invariant
            n == reminders@.len(),
            i <= n,
            now != CHRONO_MAX_TIMESTAMP,
            instant_of(now as int, at as int),
            looks.len() == i,
            forall|q: int| 0 <= q < reminders@.len() ==> pollable(#[trigger] reminders@[q], now as int),
            forall|k: int|
                0 <= k < due@.len() ==> #[trigger] due@[k] < i && reminders@[due@[k] as int].enabled,
            forall|j: int, k: int| 0 <= j < k < due@.len() ==> due@[j] < due@[k],
            forall|k: int|
                0 <= k < due@.len() && is_every(reminders@[#[trigger] due@[k] as int].cron_expr@)
                    ==> every_due(
                    reminders@[due@[k] as int].last_fired,
                    reminders@[due@[k] as int].cron_expr@,
                    now as int,
                ),
            forall|q: int|
                0 <= q < i && reminders@[q].enabled && is_every(reminders@[q].cron_expr@)
                    && every_due(reminders@[q].last_fired, reminders@[q].cron_expr@, now as int)
                    ==> due@.contains(q as usize),
            forall|q: int|
                0 <= q < i && reminders@[q].enabled && !is_every(reminders@[q].cron_expr@)
                    ==> lookup_fits(reminders@[q], now as int, #[trigger] looks[q])
                    && (due@.contains(q as usize) == cron_due(
                    reminders@[q].last_fired,
                    looks[q],
                    at as int,
                )),
        decreases n - i,
    {
        assert(pollable(reminders@[i as int], now as int));
        let (is_due, lookup) = reminder_due_with(&reminders[i], now, at);
        let ghost before = due@;
        let ghost old_looks = looks;
        proof {
            looks = looks.push(lookup);
        }
        if is_due {
            due.push(i);
        }
        proof {
            assert forall|q: int| 0 <= q < i + 1 implies (#[trigger] due@.contains(q as usize))
                == (before.contains(q as usize) || (is_due && q == i)) by {
                if is_due {
                    lemma_push_contains(before, i, q as usize);
                } else {
                    assert(due@ == before);
                }
            }
            assert(!before.contains(i));
            assert forall|q: int|
                0 <= q < i + 1 && reminders@[q].enabled && is_every(reminders@[q].cron_expr@)
                    && every_due(
                    reminders@[q].last_fired,
                    reminders@[q].cron_expr@,
                    now as int,
                ) implies due@.contains(q as usize) by {
                assert(due@.contains(q as usize) == (before.contains(q as usize) || (is_due && q
                    == i)));
            }
            assert forall|q: int|
                0 <= q < i + 1 && reminders@[q].enabled && !is_every(reminders@[q].cron_expr@)
                    implies lookup_fits(reminders@[q], now as int, #[trigger] looks[q])
                    && (due@.contains(q as usize) == cron_due(
                    reminders@[q].last_fired,
                    looks[q],
                    at as int,
                )) by {
                assert(due@.contains(q as usize) == (before.contains(q as usize) || (is_due && q
                    == i)));
                if q < i {
                    assert(looks[q] == old_looks[q]);
                }
            }
        }
        i = i + 1;
    }
    assert(cron_listing(reminders@, now as int, due@, looks, at as int));
    due
}

/// A reminder that fired at `now` records the firing.
pub fn mark_fired(reminder: &Reminder, now: i64) -> (r: Reminder)
    ensures
        r == (Reminder { last_fired: Some(now), ..*reminder }),
{
    Reminder {
        id: reminder.id,
        title: reminder.title.clone(),
        message: reminder.message.clone(),
        cron_expr: reminder.cron_expr.clone(),
        enabled: reminder.enabled,
        category: reminder.category.clone(),
        last_fired: Some(now),
    }
}

/// A fired reminder excites the pet for five minutes.
pub fn excitement_after_reminder(now: i64) -> (r: (PetMood, Option<i64>))
    requires
        now <= i64::MAX - 300,
    ensures
        r == (PetMood::Excited, Some((now + 300) as i64)),
{
    (PetMood::Excited, Some(now + 300))
}

/// Minutes until the next spontaneous message: the configured minimum plus a
/// jitter drawn from the clock, below the spread between minimum and maximum
/// (a spread of at least one minute).
pub open spec fn random_message_spread(min_minutes: int, max_minutes: int) -> int {
    let span = sat_sub(max_minutes, min_minutes);
    if span >= 1 {
        span
    } else {
        1
    }
}

pub fn random_message_minutes(min_minutes: i64, max_minutes: i64, now: i64) -> (minutes: i64)
    requires
        i64::MIN <= min_minutes + random_message_spread(min_minutes as int, max_minutes as int)
            <= i64::MAX,
    ensures
        minutes == min_minutes + (now as u64) % (random_message_spread(
            min_minutes as int,
            max_minutes as int,
        ) as u64),
        min_minutes <= minutes < min_minutes + random_message_spread(
            min_minutes as int,
            max_minutes as int,
        ),
{
    let raw = saturating_sub(max_minutes, min_minutes);
    let span = if raw >= 1 {
        raw
    } else {
        1
    };
    let jitter = ((now as u64) % (span as u64)) as i64;
    min_minutes + jitter
}

/// A reminder that just fired is not due again at the same instant, as long
/// as its interval is positive.
pub proof fn lemma_fired_reminder_rests(expr: Seq<char>, now: i64)
    requires
        every_minutes(expr) > 0,
    ensures
        !every_due(Some(now), expr, now as int),
{
}

/// An excited pet stays excited until its excitement deadline passes,
/// whatever the inactivity.
pub proof fn lemma_excitement_holds(state: MoodState, now: int, hour: int)
    requires
        state.mood == PetMood::Excited,
        state.excitement_until matches Some(until) && now < until,
    ensures
        reconciled(state, now, hour).state.mood == PetMood::Excited,
        reconciled(state, now, hour).store_mood is None,
{
}

/// Reconciling is stable: a second reconciliation at the same instant and
/// hour writes nothing and reports the same state.
pub proof fn lemma_reconcile_stable(state: MoodState, now: int, hour: int)
    ensures
        reconciled(reconciled(state, now, hour).state, now, hour).store_mood is None,
        !reconciled(reconciled(state, now, hour).state, now, hour).excitement_expired,
        reconciled(reconciled(state, now, hour).state, now, hour).state == reconciled(
            state,
            now,
            hour,
        ).state,
{
}

/// Outside a running excitement the mood follows inactivity and the hour:
/// at night (from 23:00 to 5:59) more than 15 minutes without interaction
/// make the pet sleepy, however long they last; otherwise more than 30
/// minutes make it sad, more than 10 neutral, and less happy. A new mood is
/// stored, an unchanged one is not.
pub proof fn lemma_mood_follows_inactivity(state: MoodState, now: i64, hour: u32)
    requires
        state.mood != PetMood::Excited || (state.excitement_until matches Some(until) && now
            >= until),
    ensures
        (hour >= 23 || hour < 6) && now - state.last_interaction > 900 ==> reconciled(
            state,
            now as int,
            hour as int,
        ).state.mood == PetMood::Sleepy && reconciled(state, now as int, hour as int).store_mood
            == (if state.mood == PetMood::Sleepy {
            None
        } else {
            Some(PetMood::Sleepy)
        }),
        !(hour >= 23 || hour < 6) && now - state.last_interaction > 1800 ==> reconciled(
            state,
            now as int,
            hour as int,
        ).state.mood == PetMood::Sad && reconciled(state, now as int, hour as int).store_mood == (
        if state.mood == PetMood::Sad {
            None
        } else {
            Some(PetMood::Sad)
        }),
        600 < now - state.last_interaction <= 1800 && !((hour >= 23 || hour < 6) && now
            - state.last_interaction > 900) ==> reconciled(
            state,
            now as int,
            hour as int,
        ).state.mood == PetMood::Neutral && reconciled(state, now as int, hour as int).store_mood
            == (if state.mood == PetMood::Neutral {
            None
        } else {
            Some(PetMood::Neutral)
        }),
        now - state.last_interaction <= 600 ==> reconciled(
            state,
            now as int,
            hour as int,
        ).state.mood == PetMood::Happy && reconciled(state, now as int, hour as int).store_mood
            == (if state.mood == PetMood::Happy || state.mood == PetMood::Excited {
            None
        } else {
            Some(PetMood::Happy)
        }),
{
}

} // verus!
