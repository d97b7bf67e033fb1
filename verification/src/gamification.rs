pub mod level;
pub mod types;
pub mod xp;
pub mod achievements;
pub mod objectives;
pub mod streak;
pub mod laws;
