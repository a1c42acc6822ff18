//! Event-to-audio triggering engine for simulated key-press feedback.
//!
//! A raw button transition is classified into a click category from its
//! distance to the previous transition, filtered against the session state
//! (alive, dead, reset) and a per-category ignore policy, and turned into a
//! playback request carrying gain and pitch. Times are session-relative
//! microseconds; gains and pitches are fixed-point thousandths, so that every
//! decision the engine makes is exact integer arithmetic.

pub mod audio;
pub mod clickpack;
pub mod config;
pub mod console;
pub mod environment;
pub mod events;
pub mod laws;
pub mod trigger;
