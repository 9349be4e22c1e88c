//! An in-memory registry of rented movies, driven by a menu-style interaction
//! loop: records can be added, listed, removed, and have their rental duration
//! updated. The registry is a keyed store (one record per movie name) and the
//! interaction loop is modelled as a state machine over trimmed input lines.

pub mod genre;
pub mod laws;
pub mod numparse;
pub mod registry;
pub mod session;
pub mod text;
