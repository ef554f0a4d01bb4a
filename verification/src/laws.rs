//! What holds of the dimmer over any number of ticks.
use crate::ring::enqueued;
use crate::state::step_delay_ms;
use crate::state::Level;
use crate::state::Phase;
use crate::state::SensorReadings;
use crate::state::StateView;
use crate::LED_POWER_STAGES;
use vstd::prelude::*;

verus! {

/// The state after the ticks of `ticks`, taken in their order.
pub open spec fn run(start: StateView, ticks: Seq<SensorReadings>) -> StateView
    decreases ticks.len(),
{
    if ticks.len() == 0 {
        start
    } else {
        run(start, ticks.drop_last()).ticked(ticks.last())
    }
}

/// Whether someone is there and the always-on switch is left alone at every tick.
pub open spec fn presence_throughout(ticks: Seq<SensorReadings>) -> bool {
    forall|i: int|
        0 <= i < ticks.len() ==> !(#[trigger] ticks[i]).light_always_on && ticks[i].presence
            == Level::High
}

/// Whether nobody is there and the always-on switch is left alone at every tick.
pub open spec fn absence_throughout(ticks: Seq<SensorReadings>) -> bool {
    forall|i: int|
        0 <= i < ticks.len() ==> !(#[trigger] ticks[i]).light_always_on && ticks[i].presence
            == Level::Low
}

/// Whether the phase after each of the ticks is the phase at the start.
pub open spec fn phase_kept(start: StateView, ticks: Seq<SensorReadings>) -> bool {
    forall|n: int| 0 <= n <= ticks.len() ==> (#[trigger] run(start, ticks.take(n))).phase
        == start.phase
}

/// The history after the samples of `samples` were recorded in their order.
pub open spec fn recorded_all(history: Seq<u32>, capacity: nat, samples: Seq<u32>) -> Seq<u32>
    decreases samples.len(),
{
    if samples.len() == 0 {
        history
    } else {
        enqueued(recorded_all(history, capacity, samples.drop_last()), capacity, samples.last())
    }
}

/// The newest `capacity` samples of a run, or all of them where they are fewer.
pub open spec fn newest(samples: Seq<u32>, capacity: nat) -> Seq<u32> {
    if samples.len() <= capacity {
        samples
    } else {
        samples.skip(samples.len() - capacity)
    }
}

/// A history holds the newest samples it was given, in the order they came, and
/// forgets the oldest first: whatever was recorded, what is left are the newest
/// `capacity` samples of all that the history held and took in.
pub proof fn law_history_holds_the_newest(history: Seq<u32>, capacity: nat, samples: Seq<u32>)
    requires
        0 < capacity,
        history.len() <= capacity,
    ensures
        recorded_all(history, capacity, samples) == newest(history + samples, capacity),
    decreases samples.len(),
{
    if samples.len() == 0 {
        assert(history + samples == history);
    } else {
        let earlier = samples.drop_last();
        law_history_holds_the_newest(history, capacity, earlier);
        let all = history + samples;
        let before = history + earlier;
        assert(all == before.push(samples.last()));
        assert(recorded_all(history, capacity, samples) =~= newest(all, capacity));
    }
}

/// Without a sample nothing counts as dark.
pub proof fn law_no_sample_is_not_dark(state: StateView)
    requires
        state.history.len() == 0,
    ensures
        !state.dark(),
{
}

/// A tick never changes the size of the history or the threshold, and a history
/// within its size stays within it.
pub proof fn law_tick_keeps_light_settings(state: StateView, readings: SensorReadings)
    ensures
        state.ticked(readings).capacity == state.capacity,
        state.ticked(readings).threshold == state.threshold,
        0 < state.capacity && state.history.len() <= state.capacity ==> state.ticked(
            readings,
        ).history.len() <= state.capacity,
{
}

/// One tick brings any state whose stage is on the ramp to one that meets the phase
/// invariant: `Off` goes with stage 0, `On` with the top stage.
pub proof fn law_tick_settles(state: StateView, readings: SensorReadings)
    requires
        state.bounded(),
    ensures
        state.ticked(readings).settled(),
{
}

/// After a tick the LED is at an end of the ramp exactly when it is at rest there:
/// stage 0 goes with `Off` and with no other phase, the top stage with `On` and with
/// no other.
pub proof fn law_tick_ties_rest_to_the_ends(state: StateView, readings: SensorReadings)
    requires
        state.bounded(),
    ensures
        state.ticked(readings).at_rest_exactly_at_the_ends(),
{
}

/// The phase invariant holds of every state that ticks lead to from a state that
/// meets it.
pub proof fn law_phase_invariant(start: StateView, ticks: Seq<SensorReadings>)
    requires
        start.settled(),
    ensures
        run(start, ticks).settled(),
    decreases ticks.len(),
{
    if ticks.len() > 0 {
        law_phase_invariant(start, ticks.drop_last());
        law_tick_settles(run(start, ticks.drop_last()), ticks.last());
    }
}

/// The phase invariant holds of every state that ticks lead to from start-up, and
/// in its strict form: such a state is at an end of the ramp exactly when it is at
/// rest there.
pub proof fn law_phase_invariant_from_start(
    capacity: nat,
    threshold: u32,
    ticks: Seq<SensorReadings>,
)
    ensures
        run(StateView::initial(capacity, threshold), ticks).settled(),
        run(StateView::initial(capacity, threshold), ticks).at_rest_exactly_at_the_ends(),
{
    let start = StateView::initial(capacity, threshold);
    law_phase_invariant(start, ticks);
    if ticks.len() > 0 {
        law_phase_invariant(start, ticks.drop_last());
        law_tick_ties_rest_to_the_ends(run(start, ticks.drop_last()), ticks.last());
    }
}

/// A ramp ticks faster than a resting LED, and faster on the way up than on the way
/// down.
pub proof fn law_ramps_tick_faster()
    ensures
        step_delay_ms(Phase::PowerUp) < step_delay_ms(Phase::PowerDown),
        step_delay_ms(Phase::PowerDown) < step_delay_ms(Phase::Off),
        step_delay_ms(Phase::Off) == step_delay_ms(Phase::On),
{
}

/// An asserted always-on switch brings the LED to `On` at the top stage within the
/// tick, wherever it stood.
pub proof fn law_override_skips_the_ramp(state: StateView, readings: SensorReadings)
    requires
        readings.light_always_on,
    ensures
        state.ticked(readings).phase == Phase::On,
        state.ticked(readings).stage == LED_POWER_STAGES,
{
}

/// A tick that leaves a resting LED in its phase leaves its stage alone.
pub proof fn law_rest_keeps_stage(state: StateView, readings: SensorReadings)
    requires
        state.settled(),
        state.phase == Phase::Off || state.phase == Phase::On,
        state.ticked(readings).phase == state.phase,
    ensures
        state.ticked(readings).stage == state.stage,
{
}

/// Ticks that each leave a resting LED in its phase leave its stage alone, however
/// many they are.
pub proof fn law_rest_keeps_stage_over_ticks(start: StateView, ticks: Seq<SensorReadings>)
    requires
        start.settled(),
        start.phase == Phase::Off || start.phase == Phase::On,
        phase_kept(start, ticks),
    ensures
        run(start, ticks).stage == start.stage,
    decreases ticks.len(),
{
    if ticks.len() > 0 {
        let before = ticks.drop_last();
        assert forall|n: int| 0 <= n <= before.len() implies (#[trigger] run(
            start,
            before.take(n),
        )).phase == start.phase by {
            assert(before.take(n) == ticks.take(n));
        }
        law_rest_keeps_stage_over_ticks(start, before);
        law_phase_invariant(start, before);
        assert(ticks.take(ticks.len() as int) == ticks);
        assert(before.take(before.len() as int) == before);
        law_rest_keeps_stage(run(start, before), ticks.last());
    }
}

/// While someone is there, a ramp that starts at stage 0 climbs one stage with every
/// tick and comes to rest at `On` with the tick that reaches the top.
pub proof fn law_ramp_up_climbs(start: StateView, ticks: Seq<SensorReadings>)
    requires
        start.phase == Phase::PowerUp,
        start.stage == 0,
        ticks.len() <= LED_POWER_STAGES,
        presence_throughout(ticks),
    ensures
        run(start, ticks).stage == ticks.len(),
        run(start, ticks).phase == if ticks.len() == LED_POWER_STAGES {
            Phase::On
        } else {
            Phase::PowerUp
        },
    decreases ticks.len(),
{
    if ticks.len() > 0 {
        let before = ticks.drop_last();
        assert(presence_throughout(before)) by {
            assert forall|i: int| 0 <= i < before.len() implies !(#[trigger] before[i]).light_always_on
                && before[i].presence == Level::High by {
                assert(before[i] == ticks[i]);
            }
        }
        law_ramp_up_climbs(start, before);
        assert(!ticks.last().light_always_on && ticks.last().presence == Level::High);
    }
}

/// Ramp completion: from stage 0 in phase `PowerUp`, with someone there throughout,
/// the LED is `On` after exactly as many ticks as the ramp has stages, and not
/// before.
pub proof fn law_ramp_up_completes(start: StateView, ticks: Seq<SensorReadings>)
    requires
        start.phase == Phase::PowerUp,
        start.stage == 0,
        ticks.len() == LED_POWER_STAGES,
        presence_throughout(ticks),
    ensures
        run(start, ticks).phase == Phase::On,
        run(start, ticks).stage == LED_POWER_STAGES,
        forall|n: int|
            0 <= n < ticks.len() ==> (#[trigger] run(start, ticks.take(n))).phase
                == Phase::PowerUp && run(start, ticks.take(n)).stage == n,
{
    law_ramp_up_climbs(start, ticks);
    assert forall|n: int| 0 <= n < ticks.len() implies (#[trigger] run(
        start,
        ticks.take(n),
    )).phase == Phase::PowerUp && run(start, ticks.take(n)).stage == n by {
        let head = ticks.take(n);
        assert(presence_throughout(head)) by {
            assert forall|i: int| 0 <= i < head.len() implies !(#[trigger] head[i]).light_always_on
                && head[i].presence == Level::High by {
                assert(head[i] == ticks[i]);
            }
        }
        law_ramp_up_climbs(start, head);
    }
}

/// While nobody is there, a lit LED descends one stage with every tick and comes to
/// rest at `Off` with the tick that reaches stage 0.
pub proof fn law_ramp_down_descends(start: StateView, ticks: Seq<SensorReadings>)
    requires
        start.phase == Phase::On,
        start.stage == LED_POWER_STAGES,
        ticks.len() <= LED_POWER_STAGES,
        absence_throughout(ticks),
    ensures
        run(start, ticks).stage == LED_POWER_STAGES - ticks.len(),
        run(start, ticks).phase == if ticks.len() == 0 {
            Phase::On
        } else if ticks.len() == LED_POWER_STAGES {
            Phase::Off
        } else {
            Phase::PowerDown
        },
    decreases ticks.len(),
{
    if ticks.len() > 0 {
        let before = ticks.drop_last();
        assert(absence_throughout(before)) by {
            assert forall|i: int| 0 <= i < before.len() implies !(#[trigger] before[i]).light_always_on
                && before[i].presence == Level::Low by {
                assert(before[i] == ticks[i]);
            }
        }
        law_ramp_down_descends(start, before);
        assert(!ticks.last().light_always_on && ticks.last().presence == Level::Low);
    }
}

} // verus!
