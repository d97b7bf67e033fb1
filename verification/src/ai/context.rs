//! What the pet remembers between messages and how its character is phrased.
use vstd::prelude::*;
use std::collections::VecDeque;
use crate::reminders::{mood_name, PetMood};
use crate::text::{lowercase_of, str_eq, to_lowercase, trim, trimmed};

verus! {

/// How many recent events the pet remembers.
pub const MAX_RECENT_EVENTS: usize = 5;

/// The names of the most recent events, oldest first.
pub struct RecentEventsState {
    events: VecDeque<String>,
}

/// The last `MAX_RECENT_EVENTS` items of `s`.
pub open spec fn most_recent(s: Seq<Seq<char>>) -> Seq<Seq<char>> {
    if s.len() > MAX_RECENT_EVENTS {
        s.subrange(s.len() - MAX_RECENT_EVENTS, s.len() as int)
    } else {
        s
    }
}

impl RecentEventsState {
    pub closed spec fn view(&self) -> Seq<Seq<char>> {
        self.events@.map_values(|e: String| e@)
    }

    pub fn new() -> (s: Self)
        ensures
            s.view() == Seq::<Seq<char>>::empty(),
    {
        let s = RecentEventsState { events: VecDeque::new() };
        assert(s.view() =~= Seq::<Seq<char>>::empty());
        s
    }

    /// Remembers `event_type`, forgetting the oldest events beyond the limit.
    pub fn push(&mut self, event_type: &str)
        ensures
            final(self).view() == most_recent(old(self).view().push(event_type@)),
    {
        let ghost before = self.view();
        self.events.push_back(event_type.to_string());
        assert(self.view() =~= before.push(event_type@));
        while self.events.len() > MAX_RECENT_EVENTS
            invariant
                before.push(event_type@).len() > MAX_RECENT_EVENTS ==> most_recent(
                    before.push(event_type@),
                ) == most_recent(self.view()) && self.view().len() >= MAX_RECENT_EVENTS,
                before.push(event_type@).len() <= MAX_RECENT_EVENTS ==> self.view() == before.push(
                    event_type@,
                ),
            decreases self.events@.len(),
        {
            let ghost v = self.view();
            let _ = self.events.pop_front();
            assert(self.view() =~= v.drop_first());
            assert(most_recent(v) =~= most_recent(v.drop_first()));
        }
        proof {
            let full = before.push(event_type@);
            if full.len() > MAX_RECENT_EVENTS {
                assert(most_recent(self.view()) =~= self.view());
            }
        }
    }

    /// The remembered event names, oldest first.
    pub fn snapshot(&self) -> (events: Vec<String>)
        ensures
            events@.map_values(|e: String| e@) == self.view(),
    {
        let mut out: Vec<String> = Vec::new();
        let n = self.events.len();
        let mut i: usize = 0;
        while i < n
            invariant
                n == self.events@.len(),
                i <= n,
                out@.len() == i,
                self.view().len() == n,
                out@.map_values(|e: String| e@) == self.view().take(i as int),
            decreases n - i,
        {
            let ghost before = out@;
            let item = self.events[i].clone();
            assert(item == self.events@[i as int]);
            out.push(item);
            assert forall|k: int| 0 <= k < i implies out@[k]@ == self.view()[k] by {
                assert(out@[k] == before[k]);
                assert(before.map_values(|e: String| e@)[k] == self.view().take(i as int)[k]);
            }
            assert(out@.map_values(|e: String| e@) =~= self.view().take(i + 1));
            i = i + 1;
        }
        assert(self.view().take(n as int) =~= self.view());
        out
    }
}

/// The remembered events never exceed the limit, and the event just pushed is
/// the newest one remembered.
pub proof fn lemma_recent_events_bounded(before: Seq<Seq<char>>, event: Seq<char>)
    ensures
        most_recent(before.push(event)).len() <= MAX_RECENT_EVENTS,
        most_recent(before.push(event)).last() == event,
{
}

pub fn mood_label(mood: PetMood) -> (label: &'static str)
    ensures
        label@ == mood_name(mood),
{
    match mood {
        PetMood::Happy => "happy",
        PetMood::Neutral => "neutral",
        PetMood::Sad => "sad",
        PetMood::Excited => "excited",
        PetMood::Sleepy => "sleepy",
    }
}

/// The tone of voice for a personality, matched without regard to case or
/// surrounding whitespace; unknown personalities sound cheerful.
pub open spec fn tone_of(personality: Seq<char>) -> Seq<char> {
    let p = lowercase_of(trimmed(personality));
    if p == "calm"@ {
        "Calm, gentle, and reassuring"@
    } else if p == "sassy"@ {
        "Playfully sarcastic but caring"@
    } else if p == "motivational"@ {
        "Direct, energizing, and goal-focused"@
    } else {
        "Upbeat, encouraging, and cheerful"@
    }
}

pub fn personality_tone(personality: &str) -> (tone: &'static str)
    ensures
        tone@ == tone_of(personality@),
{
    let p = to_lowercase(trim(personality));
    if str_eq(p.as_str(), "calm") {
        "Calm, gentle, and reassuring"
    } else if str_eq(p.as_str(), "sassy") {
        "Playfully sarcastic but caring"
    } else if str_eq(p.as_str(), "motivational") {
        "Direct, energizing, and goal-focused"
    } else {
        "Upbeat, encouraging, and cheerful"
    }
}

} // verus!
