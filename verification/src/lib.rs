//! Verified core of a desktop automation bridge.
//!
//! The library translates monitor-relative coordinates into absolute screen
//! positions, parses human-readable key chords into ordered press/release
//! event plans, validates string-typed button and scroll arguments, and runs
//! the screenshot crop/resize/encode pipeline. The operating-system edges
//! (display enumeration, raw frame grabs, event injection) live outside the
//! library and exchange plain values with it.

pub mod capture;
pub mod errors;
pub mod input;
pub mod keys;
pub mod monitor;
pub mod text;
