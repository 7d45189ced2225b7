//! A Pomodoro cycle engine: a pausable-clock-driven state machine that tracks
//! work and break phases, excludes paused intervals from elapsed time, and
//! decides phase transitions and notification dispatch.

pub mod clock;
pub mod config;
pub mod notifier;
pub mod pomd;

pub use config::PomdConfig;
pub use pomd::Pomd;
