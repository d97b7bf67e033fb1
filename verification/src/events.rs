//! The kinds of events the pet reacts to.
use vstd::prelude::*;

verus! {

#[derive(Debug, Clone, Copy, PartialEq, Eq, Structural)]
pub enum PetEventType {
    IdleDetected,
    ReminderFired,
    RandomMessage,
    UserInteraction,
    HighCpu,
    HighRam,
    LowBattery,
    CriticalBattery,
    CodingSessionStarted,
    CodingSessionEnded,
    LevelUp,
    AchievementUnlocked,
    ObjectiveCompleted,
    StreakMilestone,
}

/// The name of an event type (its variant name).
pub open spec fn event_name(t: PetEventType) -> Seq<char> {
    match t {
        PetEventType::IdleDetected => "IdleDetected"@,
        PetEventType::ReminderFired => "ReminderFired"@,
        PetEventType::RandomMessage => "RandomMessage"@,
        PetEventType::UserInteraction => "UserInteraction"@,
        PetEventType::HighCpu => "HighCpu"@,
        PetEventType::HighRam => "HighRam"@,
        PetEventType::LowBattery => "LowBattery"@,
        PetEventType::CriticalBattery => "CriticalBattery"@,
        PetEventType::CodingSessionStarted => "CodingSessionStarted"@,
        PetEventType::CodingSessionEnded => "CodingSessionEnded"@,
        PetEventType::LevelUp => "LevelUp"@,
        PetEventType::AchievementUnlocked => "AchievementUnlocked"@,
        PetEventType::ObjectiveCompleted => "ObjectiveCompleted"@,
        PetEventType::StreakMilestone => "StreakMilestone"@,
    }
}

pub fn event_key(event_type: PetEventType) -> (key: &'static str)
    ensures
        key@ == event_name(event_type),
{
    match event_type {
        PetEventType::IdleDetected => "IdleDetected",
        PetEventType::ReminderFired => "ReminderFired",
        PetEventType::RandomMessage => "RandomMessage",
        PetEventType::UserInteraction => "UserInteraction",
        PetEventType::HighCpu => "HighCpu",
        PetEventType::HighRam => "HighRam",
        PetEventType::LowBattery => "LowBattery",
        PetEventType::CriticalBattery => "CriticalBattery",
        PetEventType::CodingSessionStarted => "CodingSessionStarted",
        PetEventType::CodingSessionEnded => "CodingSessionEnded",
        PetEventType::LevelUp => "LevelUp",
        PetEventType::AchievementUnlocked => "AchievementUnlocked",
        PetEventType::ObjectiveCompleted => "ObjectiveCompleted",
        PetEventType::StreakMilestone => "StreakMilestone",
    }
}

} // verus!
