//! The edge-detection state machine.
//!
//! Each tick the owning loop hands in the freshest pointer sample (or `None`
//! when the platform query failed). [`AppState::update`] classifies the
//! sample and debounces it with two hit counters; the decision methods then
//! turn the counters plus the current visibility into an [`Action`] for the
//! host windowing layer. No method here performs I/O and none can fail:
//! absence of data is a skip, never an error.

use vstd::prelude::*;

use crate::geometry::Action;
use crate::geometry::Config;
use crate::geometry::Coord;
use crate::geometry::DecisionPolicy;

verus! {

/// Debounce counters and visibility state of the managed panel, owned and
/// mutated by the single loop thread.
#[derive(Clone, Copy, Debug)]
pub struct AppState {
    pub config: Config,
    /// The most recent sample; `None` when the last pointer query failed.
    pub mouse_coords: Option<Coord>,
    /// Consecutive samples with the pointer pinned at the screen edge.
    pub touch_edge_count: u32,
    /// Consecutive samples with the pointer beyond the panel's footprint.
    pub touch_outside_count: u32,
    pub is_window_shown: bool,
}

/// A counter bump that sticks at `u32::MAX` instead of wrapping; once a
/// counter has reached any threshold it stays there until reset.
pub open spec fn saturating_inc_spec(c: u32) -> u32 {
    if c == u32::MAX {
        c
    } else {
        (c + 1) as u32
    }
}

/// What [`AppState::update`] does: store the sample and re-classify. An edge
/// sample (`x == 0`) grows `touch_edge_count` and zeroes the other counter;
/// any other sample does the reverse; no sample leaves the counters alone.
pub open spec fn update_spec(s: AppState, sample: Option<Coord>) -> AppState {
    match sample {
        Option::None => AppState { mouse_coords: Option::None, ..s },
        Option::Some(c) => {
            if c.x == 0 {
                AppState {
                    mouse_coords: sample,
                    touch_edge_count: saturating_inc_spec(s.touch_edge_count),
                    touch_outside_count: 0,
                    ..s
                }
            } else {
                AppState {
                    mouse_coords: sample,
                    touch_edge_count: 0,
                    touch_outside_count: saturating_inc_spec(s.touch_outside_count),
                    ..s
                }
            }
        },
    }
}

/// The discrete policy owes a `Show` exactly here: pointer pinned at the
/// edge, the edge counter at or past the threshold, and the panel hidden.
pub open spec fn show_required_spec(s: AppState) -> bool {
    &&& s.mouse_coords matches Option::Some(c)
    &&& c.x == 0
    &&& s.touch_edge_count >= s.config.touch_threshold
    &&& !s.is_window_shown
}

/// The discrete policy owes a `Hide` exactly here: pointer strictly beyond
/// the panel width (a sample at exactly the width still counts as inside),
/// the outside counter at or past the threshold, and the panel shown.
pub open spec fn hide_required_spec(s: AppState) -> bool {
    &&& s.mouse_coords matches Option::Some(c)
    &&& c.x > s.config.panel_width
    &&& s.touch_outside_count >= s.config.touch_threshold
    &&& s.is_window_shown
}

/// What [`AppState::adjust_window`] does: the discrete decision plus the
/// visibility flip it implies. The `Show` guard demands a hidden panel and
/// the `Hide` guard a shown one, so each fires at most once per qualifying
/// run of samples (the hysteresis that prevents flicker).
pub open spec fn adjust_spec(s: AppState) -> (AppState, Action) {
    if show_required_spec(s) {
        (AppState { is_window_shown: true, ..s }, Action::Show)
    } else if hide_required_spec(s) {
        (AppState { is_window_shown: false, ..s }, Action::Hide)
    } else {
        (s, Action::Stay)
    }
}

/// What [`AppState::decide_slide`] returns: the continuous policy's decision
/// for a panel currently at `window_x`. Slide in while the edge press is
/// debounced, the panel is not yet fully visible, and the pointer is still
/// over the panel's extent (`x <= window_x + width`; equality counts as
/// inside). Slide out once the pointer has left the extent, but only if the
/// panel is not already fully hidden.
pub open spec fn slide_decision_spec(s: AppState, window_x: int) -> Action {
    match s.mouse_coords {
        Option::Some(c) => {
            if s.touch_edge_count >= s.config.touch_threshold && -s.config.panel_width <= window_x
                < 0 && c.x <= window_x + s.config.panel_width {
                Action::SlideIn(s.config.slide_velocity)
            } else if c.x > window_x + s.config.panel_width && window_x > -s.config.panel_width {
                Action::SlideOut(s.config.slide_velocity)
            } else {
                Action::Stay
            }
        },
        Option::None => Action::Stay,
    }
}

/// What [`AppState::apply_action`] returns: the panel's next x-position,
/// clamped so it never moves right of fully visible (`0`) nor left of fully
/// hidden (`-width`).
pub open spec fn apply_action_spec(c: Config, window_x: int, a: Action) -> int {
    match a {
        Action::SlideIn(v) => if window_x + v > 0 {
            0
        } else {
            window_x + v
        },
        Action::SlideOut(v) => if window_x - v < -c.panel_width {
            -c.panel_width
        } else {
            window_x - v
        },
        _ => window_x,
    }
}

/// What [`AppState::tick`] does: one whole loop iteration's worth of logic.
/// Classify the sample, then let the configured policy decide: the discrete
/// policy toggles visibility and leaves the panel in place, the continuous
/// policy keeps visibility state in the position itself and slides it. The
/// result is the machine afterwards, the action owed to the host windowing
/// layer, and the panel's next x-position.
pub open spec fn tick_spec(s: AppState, sample: Option<Coord>, window_x: int) -> (
    AppState,
    Action,
    int,
) {
    let sampled = update_spec(s, sample);
    match s.config.policy {
        DecisionPolicy::DiscreteShowHide => {
            let (decided, a) = adjust_spec(sampled);
            (decided, a, window_x)
        },
        DecisionPolicy::ContinuousSlide => {
            let a = slide_decision_spec(sampled, window_x);
            (sampled, a, apply_action_spec(sampled.config, window_x, a))
        },
    }
}

impl AppState {
    /// The configuration never changes after start, so the machine is
    /// well-formed exactly when its configuration is.
    pub open spec fn wf(self) -> bool {
        self.config.wf()
    }

    /// A fresh machine: no sample seen, both counters zero, panel hidden.
    pub fn new(config: Config) -> (s: AppState)
        ensures
            s.config == config,
            s.mouse_coords is None,
            s.touch_edge_count == 0,
            s.touch_outside_count == 0,
            !s.is_window_shown,
    {
        AppState {
            config,
            mouse_coords: Option::None,
            touch_edge_count: 0,
            touch_outside_count: 0,
            is_window_shown: false,
        }
    }

    /// Consume one pointer sample: store it and re-classify the counters as
    /// [`update_spec`] says. A failed query (`None`) carries no information,
    /// so both counters keep their value.
    pub fn update(&mut self, sample: Option<Coord>)
        ensures
            *final(self) == update_spec(*old(self), sample),
    {
        self.mouse_coords = sample;
        if let Option::Some(coords) = sample {
            if coords.x == 0 {
                self.touch_edge_count = saturating_inc(self.touch_edge_count);
                self.touch_outside_count = 0;
            } else {
                self.touch_edge_count = 0;
                self.touch_outside_count = saturating_inc(self.touch_outside_count);
            }
        }
    }

    /// Whether the discrete policy owes a `Show` this tick; read-only.
    pub fn required_to_show_window(&mut self) -> (r: bool)
        ensures
            *final(self) == *old(self),
            r == show_required_spec(*old(self)),
    {
        if let Option::Some(coords) = self.mouse_coords {
            if coords.x == 0 && self.touch_edge_count >= self.config.touch_threshold
                && !self.is_window_shown {
                return true;
            }
        }
        false
    }

    /// Whether the discrete policy owes a `Hide` this tick; read-only.
    pub fn required_to_hide_window(&mut self) -> (r: bool)
        ensures
            *final(self) == *old(self),
            r == hide_required_spec(*old(self)),
    {
        if let Option::Some(coords) = self.mouse_coords {
            if coords.x > self.config.panel_width
                && self.touch_outside_count >= self.config.touch_threshold
                && self.is_window_shown {
                return true;
            }
        }
        false
    }

    /// The discrete policy's decision for this tick. Flips the stored
    /// visibility when it decides, and hands the caller the `Show`/`Hide`
    /// action to forward to the host windowing layer; a failed forward only
    /// skips the visual effect, the machine state here stays consistent.
    pub fn adjust_window(&mut self) -> (a: Action)
        ensures
            *final(self) == adjust_spec(*old(self)).0,
            a == adjust_spec(*old(self)).1,
    {
        if self.required_to_show_window() {
            self.is_window_shown = true;
            Action::Show
        } else if self.required_to_hide_window() {
            self.is_window_shown = false;
            Action::Hide
        } else {
            Action::Stay
        }
    }

    /// The continuous policy's decision for a panel currently at `window_x`;
    /// read-only.
    pub fn decide_slide(&self, window_x: i64) -> (a: Action)
        requires
            self.wf(),
            -self.config.panel_width <= window_x <= 0,
        ensures
            a == slide_decision_spec(*self, window_x as int),
    {
        if let Option::Some(coords) = self.mouse_coords {
            let reach: i64 = window_x + self.config.panel_width;
            if self.touch_edge_count >= self.config.touch_threshold && window_x < 0
                && coords.x <= reach {
                Action::SlideIn(self.config.slide_velocity)
            } else if coords.x > reach && window_x > -self.config.panel_width {
                Action::SlideOut(self.config.slide_velocity)
            } else {
                Action::Stay
            }
        } else {
            Action::Stay
        }
    }

    /// One whole tick under the configured policy: consume the sample, then
    /// decide. Returns the action for the host windowing layer and the
    /// panel's next x-position, which stays inside `[-width, 0]` — feeding
    /// the result back in keeps the panel-position invariant forever.
    pub fn tick(&mut self, sample: Option<Coord>, window_x: i64) -> (out: (Action, i64))
        requires
            old(self).wf(),
            old(self).config.policy is ContinuousSlide ==> -old(self).config.panel_width
                <= window_x <= 0,
        ensures
            *final(self) == tick_spec(*old(self), sample, window_x as int).0,
            out.0 == tick_spec(*old(self), sample, window_x as int).1,
            out.1 == tick_spec(*old(self), sample, window_x as int).2,
            final(self).wf(),
            final(self).config == old(self).config,
            old(self).config.policy is ContinuousSlide ==> -final(self).config.panel_width <= out.1
                <= 0,
            old(self).config.policy is DiscreteShowHide ==> out.1 == window_x,
    {
        self.update(sample);
        match self.config.policy {
            DecisionPolicy::DiscreteShowHide => {
                let a = self.adjust_window();
                (a, window_x)
            },
            DecisionPolicy::ContinuousSlide => {
                let a = self.decide_slide(window_x);
                let moved = self.apply_action(window_x, a);
                (a, moved)
            },
        }
    }

    /// The panel's next x-position after `a`, clamped to `[-width, 0]`. The
    /// clamp keeps the panel-position invariant: starting inside that range
    /// it can never leave it.
    pub fn apply_action(&self, window_x: i64, a: Action) -> (r: i64)
        requires
            self.wf(),
            -self.config.panel_width <= window_x <= 0,
            a matches Action::SlideIn(v) ==> 0 <= v <= self.config.panel_width,
            a matches Action::SlideOut(v) ==> 0 <= v <= self.config.panel_width,
        ensures
            r == apply_action_spec(self.config, window_x as int, a),
            -self.config.panel_width <= r <= 0,
    {
        match a {
            Action::SlideIn(v) => {
                let moved: i64 = window_x + v;
                if moved > 0 {
                    0
                } else {
                    moved
                }
            },
            Action::SlideOut(v) => {
                let moved: i64 = window_x - v;
                if moved < -self.config.panel_width {
                    -self.config.panel_width
                } else {
                    moved
                }
            },
            _ => window_x,
        }
    }
}

/// Bump a debounce counter without ever wrapping back to zero.
fn saturating_inc(c: u32) -> (r: u32)
    ensures
        r == saturating_inc_spec(c),
{
    if c == u32::MAX {
        c
    } else {
        c + 1
    }
}

} // verus!
