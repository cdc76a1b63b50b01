//! Unit tests for the classification, decision, clamping, and scheduling
//! pieces of the machine.

use edge_dock::schedule::remaining_delay;
use edge_dock::Action;
use edge_dock::AppState;
use edge_dock::Config;
use edge_dock::Coord;
use edge_dock::DecisionPolicy;

fn sample(x: i64) -> Option<Coord> {
    Some(Coord { x, y: 123 })
}

#[test]
fn new_machine_starts_hidden_with_zero_counters() {
    let state = AppState::new(Config::discrete_show_hide());
    assert!(state.mouse_coords.is_none());
    assert_eq!(state.touch_edge_count, 0);
    assert_eq!(state.touch_outside_count, 0);
    assert!(!state.is_window_shown);
}

#[test]
fn discrete_config_matches_its_variant() {
    let c = Config::discrete_show_hide();
    assert_eq!(c.policy, DecisionPolicy::DiscreteShowHide);
    assert_eq!(c.panel_width, 180);
    assert_eq!(c.panel_height, 800);
    assert_eq!(c.touch_threshold, 4);
    assert_eq!(c.tick_millis, 66);
}

#[test]
fn continuous_config_matches_its_variant() {
    let c = Config::continuous_slide();
    assert_eq!(c.policy, DecisionPolicy::ContinuousSlide);
    assert_eq!(c.panel_width, 180);
    assert_eq!(c.slide_velocity, 36);
    assert_eq!(c.touch_threshold, 15);
    assert_eq!(c.tick_millis, 16);
}

/// Any sample with x != 0 immediately zeroes the edge counter; any sample
/// with x == 0 immediately zeroes the outside counter. Single samples, not
/// just runs.
#[test]
fn every_sample_resets_the_opposite_counter() {
    let mut state = AppState::new(Config::discrete_show_hide());
    state.update(sample(0));
    state.update(sample(0));
    state.update(sample(0));
    assert_eq!(state.touch_edge_count, 3);
    assert_eq!(state.touch_outside_count, 0);
    state.update(sample(7));
    assert_eq!(state.touch_edge_count, 0);
    assert_eq!(state.touch_outside_count, 1);
    state.update(sample(7));
    assert_eq!(state.touch_outside_count, 2);
    state.update(sample(0));
    assert_eq!(state.touch_edge_count, 1);
    assert_eq!(state.touch_outside_count, 0);
}

/// A pointer at exactly the panel width counts as still inside: it can never
/// trigger a hide, however long it sits there. One unit further does.
#[test]
fn boundary_sample_at_panel_width_never_hides() {
    let mut state = AppState::new(Config::discrete_show_hide());
    for _ in 0..4 {
        state.update(sample(0));
        state.adjust_window();
    }
    assert!(state.is_window_shown);
    for _ in 0..10 {
        state.update(sample(180));
        assert_eq!(state.adjust_window(), Action::Stay);
        assert!(state.is_window_shown);
    }
    assert!(state.touch_outside_count >= 4);
    state.update(sample(181));
    assert_eq!(state.adjust_window(), Action::Hide);
    assert!(!state.is_window_shown);
}

/// A pointer at exactly x == 0 counts as at the edge.
#[test]
fn boundary_sample_at_zero_counts_as_edge() {
    let mut state = AppState::new(Config::discrete_show_hide());
    state.update(sample(0));
    assert_eq!(state.touch_edge_count, 1);
    assert_eq!(state.touch_outside_count, 0);
}

/// Deciding again with no new sample in between is a no-op: the `Show` that
/// just fired cannot fire twice, and nothing else fires either.
#[test]
fn second_adjust_without_new_sample_is_a_no_op() {
    let mut state = AppState::new(Config::discrete_show_hide());
    for _ in 0..3 {
        state.update(sample(0));
        state.adjust_window();
    }
    state.update(sample(0));
    assert_eq!(state.adjust_window(), Action::Show);
    let before = (
        state.mouse_coords,
        state.touch_edge_count,
        state.touch_outside_count,
        state.is_window_shown,
    );
    assert_eq!(state.adjust_window(), Action::Stay);
    let after = (
        state.mouse_coords,
        state.touch_edge_count,
        state.touch_outside_count,
        state.is_window_shown,
    );
    assert_eq!(before, after);
}

#[test]
fn show_requires_edge_threshold_and_hidden_panel() {
    let mut state = AppState::new(Config::discrete_show_hide());
    for _ in 0..4 {
        state.update(sample(0));
    }
    assert!(state.required_to_show_window());
    state.is_window_shown = true;
    assert!(!state.required_to_show_window());
}

#[test]
fn hide_requires_outside_threshold_and_shown_panel() {
    let mut state = AppState::new(Config::discrete_show_hide());
    state.is_window_shown = true;
    for _ in 0..4 {
        state.update(sample(500));
    }
    assert!(state.required_to_hide_window());
    state.is_window_shown = false;
    assert!(!state.required_to_hide_window());
}

/// The slide decision needs the debounced edge press: without the threshold
/// the pointer at the edge moves nothing.
#[test]
fn slide_in_needs_the_debounce_threshold() {
    let mut state = AppState::new(Config::continuous_slide());
    state.update(sample(0));
    assert_eq!(state.decide_slide(-180), Action::Stay);
    for _ in 0..14 {
        state.update(sample(0));
    }
    assert_eq!(state.decide_slide(-180), Action::SlideIn(36));
}

/// The slide-in clamp: a step that would overshoot fully visible stops at 0.
#[test]
fn apply_action_clamps_slide_in_at_zero() {
    let state = AppState::new(Config::continuous_slide());
    assert_eq!(state.apply_action(-20, Action::SlideIn(36)), 0);
    assert_eq!(state.apply_action(-180, Action::SlideIn(36)), -144);
}

/// The slide-out clamp: a step that would overshoot fully hidden stops at
/// -width.
#[test]
fn apply_action_clamps_slide_out_at_hidden() {
    let state = AppState::new(Config::continuous_slide());
    assert_eq!(state.apply_action(-160, Action::SlideOut(36)), -180);
    assert_eq!(state.apply_action(0, Action::SlideOut(36)), -36);
    assert_eq!(state.apply_action(-50, Action::Stay), -50);
}

/// The scheduler sleeps exactly the unspent part of the tick budget and
/// never carries an overrun into later ticks.
#[test]
fn remaining_delay_is_the_unspent_budget() {
    assert_eq!(remaining_delay(10, 66), 56);
    assert_eq!(remaining_delay(0, 66), 66);
    assert_eq!(remaining_delay(66, 66), 0);
    assert_eq!(remaining_delay(1000, 66), 0);
    assert_eq!(remaining_delay(15, 16), 1);
}
