//! Per-language edit counters ("XP") and the debounced, rate-limited
//! delivery of them to a code-statistics service.
pub mod config;
pub mod events;
pub mod language;
pub mod pulse;
pub mod scheduler;
pub mod text;
pub mod xp;
