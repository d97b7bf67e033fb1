//! Verified core of a desktop companion pet: the progression curve,
//! daily objectives, streaks, achievements, mood, reminders, coding-session
//! tracking, AI routing decisions and the small text utilities they use.
pub mod gamification;
pub mod text;
pub mod reminders;
pub mod monitor;
pub mod events;
pub mod ai;
pub mod quotes;
pub mod tts;
pub mod config;
pub mod clock;
pub mod customization;
