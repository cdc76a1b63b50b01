//! The laws the state machine obeys, stated over the spec-level transitions
//! and proved once for all inputs.

use vstd::prelude::*;

use crate::geometry::Action;
use crate::geometry::Coord;
use crate::state::adjust_spec;
use crate::state::hide_required_spec;
use crate::state::saturating_inc_spec;
use crate::state::update_spec;
use crate::state::AppState;

verus! {

/// The state after one full discrete-policy tick: classify the sample, then
/// take (and apply) the show/hide decision.
pub open spec fn discrete_step_state(s: AppState, sample: Option<Coord>) -> AppState {
    adjust_spec(update_spec(s, sample)).0
}

/// The action one full discrete-policy tick emits.
pub open spec fn discrete_step_action(s: AppState, sample: Option<Coord>) -> Action {
    adjust_spec(update_spec(s, sample)).1
}

/// Counter reset law: every single sample resets the counter whose condition
/// it fails. A sample off the edge (`x != 0`) zeroes `touch_edge_count`; a
/// sample at the edge (`x == 0`) zeroes `touch_outside_count`.
pub proof fn lemma_counter_reset(s: AppState, c: Coord)
    ensures
        c.x != 0 ==> update_spec(s, Option::Some(c)).touch_edge_count == 0,
        c.x == 0 ==> update_spec(s, Option::Some(c)).touch_outside_count == 0,
{
}

/// Boundary law: both edge tests favor stability. A pointer at exactly the
/// panel's width still counts as inside, so it can never justify a hide; a
/// pointer at exactly zero counts as at the edge, so it always grows the
/// edge counter.
pub proof fn lemma_boundary_classification(s: AppState, c: Coord)
    ensures
        c.x == s.config.panel_width ==> !hide_required_spec(update_spec(s, Option::Some(c))),
        c.x == 0 ==> update_spec(s, Option::Some(c)).touch_edge_count == saturating_inc_spec(
            s.touch_edge_count,
        ),
{
}

/// Idempotence of the show/hide decision: deciding again, with no new sample
/// in between, changes nothing and emits nothing. In particular a `Show`
/// right after a `Show` (or a `Hide` right after a `Hide`) is impossible:
/// the first one flips the visibility guard that the second would need.
pub proof fn lemma_adjust_idempotent(s: AppState)
    requires
        s.wf(),
    ensures
        adjust_spec(adjust_spec(s).0).0 == adjust_spec(s).0,
        adjust_spec(adjust_spec(s).0).1 == Action::Stay,
{
}

/// A failed pointer query carries no information: the tick leaves both
/// counters and the visibility exactly as they were and emits no action.
pub proof fn lemma_none_sample_skips(s: AppState)
    ensures
        discrete_step_action(s, Option::None) == Action::Stay,
        discrete_step_state(s, Option::None).touch_edge_count == s.touch_edge_count,
        discrete_step_state(s, Option::None).touch_outside_count == s.touch_outside_count,
        discrete_step_state(s, Option::None).is_window_shown == s.is_window_shown,
        discrete_step_state(s, Option::None).config == s.config,
{
}

/// The state after a whole run of discrete-policy ticks, one per sample.
pub open spec fn discrete_run_state(s: AppState, samples: Seq<Option<Coord>>) -> AppState
    decreases samples.len(),
{
    if samples.len() == 0 {
        s
    } else {
        discrete_run_state(discrete_step_state(s, samples[0]), samples.skip(1))
    }
}

/// The actions a whole run of discrete-policy ticks emits, one per sample.
pub open spec fn discrete_run_actions(s: AppState, samples: Seq<Option<Coord>>) -> Seq<Action>
    decreases samples.len(),
{
    if samples.len() == 0 {
        Seq::empty()
    } else {
        seq![discrete_step_action(s, samples[0])] + discrete_run_actions(
            discrete_step_state(s, samples[0]),
            samples.skip(1),
        )
    }
}

/// Every sample in the run has the pointer pinned at the screen edge.
pub open spec fn all_edge_samples(samples: Seq<Option<Coord>>) -> bool {
    forall|i: int|
        0 <= i < samples.len() ==> ((#[trigger] samples[i]) matches Option::Some(c) && c.x == 0)
}

/// Every sample in the run has the pointer strictly beyond `width`.
pub open spec fn all_outside_samples(samples: Seq<Option<Coord>>, width: int) -> bool {
    forall|i: int|
        0 <= i < samples.len() ==> ((#[trigger] samples[i]) matches Option::Some(c) && c.x > width)
}

/// The tick at which a counter that starts at `counter` and grows by one per
/// tick first reaches `threshold` (tick indices start at zero).
pub open spec fn first_fire_index(counter: u32, threshold: u32) -> int {
    if counter + 1 >= threshold {
        0
    } else {
        threshold - counter - 1
    }
}

/// A run emits exactly one action per sample.
pub proof fn lemma_run_actions_len(s: AppState, samples: Seq<Option<Coord>>)
    ensures
        discrete_run_actions(s, samples).len() == samples.len(),
    decreases samples.len(),
{
    if samples.len() > 0 {
        lemma_run_actions_len(discrete_step_state(s, samples[0]), samples.skip(1));
    }
}

/// Edge samples on an already-shown panel are all no-ops: the show guard
/// needs a hidden panel and the hide guard a far-away pointer, so nothing
/// fires, the panel stays shown, and the outside counter stays (or becomes)
/// zero.
pub proof fn lemma_edge_run_shown(s: AppState, samples: Seq<Option<Coord>>)
    requires
        s.wf(),
        s.is_window_shown,
        all_edge_samples(samples),
    ensures
        forall|i: int|
            0 <= i < samples.len() ==> discrete_run_actions(s, samples)[i] == Action::Stay,
        discrete_run_state(s, samples).is_window_shown,
        discrete_run_state(s, samples).config == s.config,
        samples.len() > 0 ==> discrete_run_state(s, samples).touch_outside_count == 0,
        samples.len() == 0 ==> discrete_run_state(s, samples) == s,
    decreases samples.len(),
{
    if samples.len() > 0 {
        assert(samples[0] matches Option::Some(c) && c.x == 0);
        let s1 = discrete_step_state(s, samples[0]);
        assert forall|i: int| 0 <= i < samples.skip(1).len() implies ((#[trigger] samples.skip(
            1,
        )[i]) matches Option::Some(c) && c.x == 0) by {
            assert(samples.skip(1)[i] == samples[i + 1]);
        }
        lemma_edge_run_shown(s1, samples.skip(1));
        lemma_run_actions_len(s1, samples.skip(1));
        assert forall|i: int| 0 <= i < samples.len() implies discrete_run_actions(s, samples)[i]
            == Action::Stay by {
            if i > 0 {
                assert(discrete_run_actions(s, samples)[i] == discrete_run_actions(
                    s1,
                    samples.skip(1),
                )[i - 1]);
            }
        }
    }
}

/// Edge samples on a hidden panel show it exactly once: the tick at which
/// the edge counter first reaches the threshold emits `Show`, every other
/// tick emits nothing, and afterwards the panel is shown exactly when the
/// run was long enough to reach that tick.
pub proof fn lemma_edge_run_hidden(s: AppState, samples: Seq<Option<Coord>>)
    requires
        s.wf(),
        !s.is_window_shown,
        all_edge_samples(samples),
    ensures
        forall|i: int|
            0 <= i < samples.len() ==> discrete_run_actions(s, samples)[i] == (if i
                == first_fire_index(s.touch_edge_count, s.config.touch_threshold) {
                Action::Show
            } else {
                Action::Stay
            }),
        discrete_run_state(s, samples).is_window_shown == (samples.len() > first_fire_index(
            s.touch_edge_count,
            s.config.touch_threshold,
        )),
        discrete_run_state(s, samples).config == s.config,
        samples.len() > 0 ==> discrete_run_state(s, samples).touch_outside_count == 0,
        samples.len() == 0 ==> discrete_run_state(s, samples) == s,
    decreases samples.len(),
{
    if samples.len() > 0 {
        assert(samples[0] matches Option::Some(c) && c.x == 0);
        let s1 = discrete_step_state(s, samples[0]);
        let fire = first_fire_index(s.touch_edge_count, s.config.touch_threshold);
        assert forall|i: int| 0 <= i < samples.skip(1).len() implies ((#[trigger] samples.skip(
            1,
        )[i]) matches Option::Some(c) && c.x == 0) by {
            assert(samples.skip(1)[i] == samples[i + 1]);
        }
        lemma_run_actions_len(s1, samples.skip(1));
        if s.touch_edge_count + 1 >= s.config.touch_threshold {
            // The first tick fires: the bumped counter is at the threshold
            // (or saturated at `u32::MAX`, which any threshold undercuts).
            assert(discrete_step_action(s, samples[0]) == Action::Show);
            lemma_edge_run_shown(s1, samples.skip(1));
        } else {
            assert(discrete_step_action(s, samples[0]) == Action::Stay);
            lemma_edge_run_hidden(s1, samples.skip(1));
            assert(first_fire_index(s1.touch_edge_count, s.config.touch_threshold) == fire - 1);
        }
        assert forall|i: int| 0 <= i < samples.len() implies discrete_run_actions(s, samples)[i]
            == (if i == fire {
            Action::Show
        } else {
            Action::Stay
        }) by {
            if i > 0 {
                assert(discrete_run_actions(s, samples)[i] == discrete_run_actions(
                    s1,
                    samples.skip(1),
                )[i - 1]);
            }
        }
    }
}

/// Far-outside samples on an already-hidden panel are all no-ops: the hide
/// guard needs a shown panel and the show guard an edge pointer, so nothing
/// fires and the panel stays hidden.
pub proof fn lemma_outside_run_hidden(s: AppState, samples: Seq<Option<Coord>>)
    requires
        s.wf(),
        !s.is_window_shown,
        all_outside_samples(samples, s.config.panel_width as int),
    ensures
        forall|i: int|
            0 <= i < samples.len() ==> discrete_run_actions(s, samples)[i] == Action::Stay,
        !discrete_run_state(s, samples).is_window_shown,
        discrete_run_state(s, samples).config == s.config,
        samples.len() == 0 ==> discrete_run_state(s, samples) == s,
    decreases samples.len(),
{
    if samples.len() > 0 {
        assert(samples[0] matches Option::Some(c) && c.x > s.config.panel_width);
        let s1 = discrete_step_state(s, samples[0]);
        assert forall|i: int| 0 <= i < samples.skip(1).len() implies ((#[trigger] samples.skip(
            1,
        )[i]) matches Option::Some(c) && c.x > s.config.panel_width) by {
            assert(samples.skip(1)[i] == samples[i + 1]);
        }
        lemma_outside_run_hidden(s1, samples.skip(1));
        lemma_run_actions_len(s1, samples.skip(1));
        assert forall|i: int| 0 <= i < samples.len() implies discrete_run_actions(s, samples)[i]
            == Action::Stay by {
            if i > 0 {
                assert(discrete_run_actions(s, samples)[i] == discrete_run_actions(
                    s1,
                    samples.skip(1),
                )[i - 1]);
            }
        }
    }
}

/// Far-outside samples on a shown panel hide it exactly once: the tick at
/// which the outside counter first reaches the threshold emits `Hide`, every
/// other tick emits nothing, and afterwards the panel is hidden exactly when
/// the run was long enough to reach that tick.
pub proof fn lemma_outside_run_shown(s: AppState, samples: Seq<Option<Coord>>)
    requires
        s.wf(),
        s.is_window_shown,
        all_outside_samples(samples, s.config.panel_width as int),
    ensures
        forall|i: int|
            0 <= i < samples.len() ==> discrete_run_actions(s, samples)[i] == (if i
                == first_fire_index(s.touch_outside_count, s.config.touch_threshold) {
                Action::Hide
            } else {
                Action::Stay
            }),
        discrete_run_state(s, samples).is_window_shown == !(samples.len() > first_fire_index(
            s.touch_outside_count,
            s.config.touch_threshold,
        )),
        discrete_run_state(s, samples).config == s.config,
        samples.len() == 0 ==> discrete_run_state(s, samples) == s,
    decreases samples.len(),
{
    if samples.len() > 0 {
        assert(samples[0] matches Option::Some(c) && c.x > s.config.panel_width);
        let s1 = discrete_step_state(s, samples[0]);
        let fire = first_fire_index(s.touch_outside_count, s.config.touch_threshold);
        assert forall|i: int| 0 <= i < samples.skip(1).len() implies ((#[trigger] samples.skip(
            1,
        )[i]) matches Option::Some(c) && c.x > s.config.panel_width) by {
            assert(samples.skip(1)[i] == samples[i + 1]);
        }
        lemma_run_actions_len(s1, samples.skip(1));
        if s.touch_outside_count + 1 >= s.config.touch_threshold {
            assert(discrete_step_action(s, samples[0]) == Action::Hide);
            lemma_outside_run_hidden(s1, samples.skip(1));
        } else {
            assert(discrete_step_action(s, samples[0]) == Action::Stay);
            lemma_outside_run_shown(s1, samples.skip(1));
            assert(first_fire_index(s1.touch_outside_count, s.config.touch_threshold) == fire - 1);
        }
        assert forall|i: int| 0 <= i < samples.len() implies discrete_run_actions(s, samples)[i]
            == (if i == fire {
            Action::Hide
        } else {
            Action::Stay
        }) by {
            if i > 0 {
                assert(discrete_run_actions(s, samples)[i] == discrete_run_actions(
                    s1,
                    samples.skip(1),
                )[i - 1]);
            }
        }
    }
}

/// Running a concatenated sample sequence is running the two halves in turn.
pub proof fn lemma_run_concat(s: AppState, a: Seq<Option<Coord>>, b: Seq<Option<Coord>>)
    ensures
        discrete_run_state(s, a + b) == discrete_run_state(discrete_run_state(s, a), b),
        discrete_run_actions(s, a + b) == discrete_run_actions(s, a) + discrete_run_actions(
            discrete_run_state(s, a),
            b,
        ),
    decreases a.len(),
{
    if a.len() == 0 {
        assert(a + b =~= b);
        assert(discrete_run_actions(s, a) + discrete_run_actions(s, b) =~= discrete_run_actions(
            s,
            b,
        ));
    } else {
        let s1 = discrete_step_state(s, a[0]);
        assert((a + b)[0] == a[0]);
        assert((a + b).skip(1) =~= a.skip(1) + b);
        lemma_run_concat(s1, a.skip(1), b);
        assert(discrete_run_actions(s, a + b) =~= discrete_run_actions(s, a)
            + discrete_run_actions(discrete_run_state(s, a), b));
    }
}

/// One transition each per qualifying run: feed a hidden panel at least
/// `threshold` consecutive edge samples and then at least `threshold`
/// consecutive far-outside samples, and it goes Hidden to Shown to Hidden
/// exactly once each — one `Show`, one `Hide`, nothing else, ending hidden.
pub proof fn lemma_show_hide_once(
    s: AppState,
    edge_run: Seq<Option<Coord>>,
    outside_run: Seq<Option<Coord>>,
)
    requires
        s.wf(),
        !s.is_window_shown,
        all_edge_samples(edge_run),
        all_outside_samples(outside_run, s.config.panel_width as int),
        edge_run.len() >= s.config.touch_threshold,
        outside_run.len() >= s.config.touch_threshold,
    ensures
        forall|i: int|
            0 <= i < edge_run.len() + outside_run.len() ==> discrete_run_actions(
                s,
                edge_run + outside_run,
            )[i] == (if i == first_fire_index(s.touch_edge_count, s.config.touch_threshold) {
                Action::Show
            } else if i == edge_run.len() + s.config.touch_threshold - 1 {
                Action::Hide
            } else {
                Action::Stay
            }),
        !discrete_run_state(s, edge_run + outside_run).is_window_shown,
{
    let mid = discrete_run_state(s, edge_run);
    let show_at = first_fire_index(s.touch_edge_count, s.config.touch_threshold);
    lemma_edge_run_hidden(s, edge_run);
    assert(mid.is_window_shown);
    assert(mid.touch_outside_count == 0);
    lemma_outside_run_shown(mid, outside_run);
    lemma_run_concat(s, edge_run, outside_run);
    lemma_run_actions_len(s, edge_run);
    lemma_run_actions_len(mid, outside_run);
    assert forall|i: int| 0 <= i < edge_run.len() + outside_run.len() implies discrete_run_actions(
        s,
        edge_run + outside_run,
    )[i] == (if i == show_at {
        Action::Show
    } else if i == edge_run.len() + s.config.touch_threshold - 1 {
        Action::Hide
    } else {
        Action::Stay
    }) by {
        if i < edge_run.len() {
            assert(discrete_run_actions(s, edge_run + outside_run)[i] == discrete_run_actions(
                s,
                edge_run,
            )[i]);
        } else {
            assert(discrete_run_actions(s, edge_run + outside_run)[i] == discrete_run_actions(
                mid,
                outside_run,
            )[i - edge_run.len()]);
        }
    }
}

} // verus!
