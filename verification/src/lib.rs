//! Swatch Internet Time (.beats).
//!
//! A day has 1000 beats, counted from midnight Biel Mean Time (UTC+1).
//! The library converts a civil time of day with a fixed UTC offset into
//! a [`beat::Beat`] value and renders it as `@DDD.DDD`.

pub mod beat;
mod clock;
pub mod display;

pub use beat::Beat;
pub use beat::ZonedTime;
