//! Panel geometry, loop configuration, and the decision vocabulary.
//!
//! Positions are logical (DPI-independent) screen units. Pointer samples come
//! from discrete platform queries, so coordinates are plain integers and
//! equality is exact; the edge tests below (`x == 0`, `x > width`) rely on
//! that exactness.

use vstd::prelude::*;

verus! {

/// Logical width of the docked panel.
pub const PANEL_WIDTH: i64 = 180;

/// Logical height of the docked panel.
pub const PANEL_HEIGHT: i64 = 800;

/// Distance the panel moves per tick under the continuous-slide policy.
pub const SLIDE_VELOCITY: i64 = 36;

/// Consecutive same-condition samples the discrete policy needs before it
/// trusts a transition (about 267 ms at 15 Hz).
pub const DISCRETE_TOUCH_THRESHOLD: u32 = 4;

/// Consecutive edge samples the continuous-slide policy needs before it
/// starts sliding the panel in (about 250 ms at 60 Hz).
pub const SLIDE_TOUCH_THRESHOLD: u32 = 15;

/// Tick budget of the discrete policy loop, in milliseconds (15 Hz).
pub const DISCRETE_TICK_MILLIS: u64 = 66;

/// Tick budget of the continuous-slide loop, in milliseconds (60 Hz).
pub const SLIDE_TICK_MILLIS: u64 = 16;

/// A pointer or window position in logical screen units.
#[derive(Clone, Copy, PartialEq, Eq, Structural, Debug)]
pub struct Coord {
    pub x: i64,
    pub y: i64,
}

/// How the panel reacts once the debounce threshold is crossed: moved a fixed
/// step per tick (a visible animation) or toggled in one jump.
#[derive(Clone, Copy, PartialEq, Eq, Structural, Debug)]
pub enum DecisionPolicy {
    /// Move the panel by `slide_velocity` units per tick.
    ContinuousSlide,
    /// Show or hide the whole panel at once.
    DiscreteShowHide,
}

/// What one tick asks the host windowing layer to do. Slide variants carry
/// the step distance: `SlideIn` moves the panel toward fully visible
/// (rightward), `SlideOut` moves it back off-screen (leftward).
#[derive(Clone, Copy, PartialEq, Eq, Structural, Debug)]
pub enum Action {
    Stay,
    SlideIn(i64),
    SlideOut(i64),
    Show,
    Hide,
}

/// Fixed per-variant configuration, read-only after start.
#[derive(Clone, Copy, PartialEq, Eq, Structural, Debug)]
pub struct Config {
    pub policy: DecisionPolicy,
    pub panel_width: i64,
    pub panel_height: i64,
    pub slide_velocity: i64,
    pub touch_threshold: u32,
    pub tick_millis: u64,
}

impl Config {
    /// A usable configuration: positive dimensions small enough that the
    /// slide arithmetic cannot overflow, a slide step that never overshoots
    /// more than one panel width, and a positive debounce threshold.
    pub open spec fn wf(self) -> bool {
        &&& 0 < self.panel_width <= 0x1000_0000
        &&& 0 < self.panel_height <= 0x1000_0000
        &&& 0 < self.slide_velocity <= self.panel_width
        &&& 0 < self.touch_threshold
        &&& 0 < self.tick_millis
    }

    /// The discrete show/hide variant: toggle visibility after
    /// `DISCRETE_TOUCH_THRESHOLD` consecutive samples at 15 Hz.
    pub fn discrete_show_hide() -> (c: Config)
        ensures
            c.wf(),
            c.policy == DecisionPolicy::DiscreteShowHide,
            c.panel_width == PANEL_WIDTH,
            c.panel_height == PANEL_HEIGHT,
            c.slide_velocity == SLIDE_VELOCITY,
            c.touch_threshold == DISCRETE_TOUCH_THRESHOLD,
            c.tick_millis == DISCRETE_TICK_MILLIS,
    {
        Config {
            policy: DecisionPolicy::DiscreteShowHide,
            panel_width: PANEL_WIDTH,
            panel_height: PANEL_HEIGHT,
            slide_velocity: SLIDE_VELOCITY,
            touch_threshold: DISCRETE_TOUCH_THRESHOLD,
            tick_millis: DISCRETE_TICK_MILLIS,
        }
    }

    /// The continuous-slide variant: animate the panel by `SLIDE_VELOCITY`
    /// units per tick after `SLIDE_TOUCH_THRESHOLD` edge samples at 60 Hz.
    pub fn continuous_slide() -> (c: Config)
        ensures
            c.wf(),
            c.policy == DecisionPolicy::ContinuousSlide,
            c.panel_width == PANEL_WIDTH,
            c.panel_height == PANEL_HEIGHT,
            c.slide_velocity == SLIDE_VELOCITY,
            c.touch_threshold == SLIDE_TOUCH_THRESHOLD,
            c.tick_millis == SLIDE_TICK_MILLIS,
    {
        Config {
            policy: DecisionPolicy::ContinuousSlide,
            panel_width: PANEL_WIDTH,
            panel_height: PANEL_HEIGHT,
            slide_velocity: SLIDE_VELOCITY,
            touch_threshold: SLIDE_TOUCH_THRESHOLD,
            tick_millis: SLIDE_TICK_MILLIS,
        }
    }
}

} // verus!
