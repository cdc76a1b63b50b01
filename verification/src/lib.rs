//! Core logic of an auto-hide "edge dock": a floating panel that lives just
//! off the left edge of the screen, slides or pops into view when the pointer
//! is pressed against that edge for a sustained period, and retreats once the
//! pointer moves away for a sustained period.
//!
//! This crate holds only the decision logic: sample classification, debounce
//! counters, hysteresis, and the show/hide/slide decisions, all verified. The
//! host windowing layer (pointer queries, window moves, show/hide calls, and
//! the timer loop) lives outside and feeds this crate plain values.

pub mod geometry;
pub mod laws;
pub mod schedule;
pub mod state;

pub use geometry::Action;
pub use geometry::Config;
pub use geometry::Coord;
pub use geometry::DecisionPolicy;
pub use state::AppState;
