//! Core of a small desktop personalization panel: a persisted font
//! preference with a tolerant load/fallback routine, the mapping from the
//! preference to a concrete font-family name, and a diagnostic check that
//! the required font families are installed on the host.

pub mod config;
pub mod fonts;
pub mod traits;
