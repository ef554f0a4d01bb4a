//! The dimmer's state and the decisions that move it from one tick to the next.
//!
//! Every decision is stated twice: as a spec function on [`StateView`], the
//! mathematical picture of a [`State`], and as a method of [`State`] that is proved
//! to do what the spec function says.
use crate::light::dark_enough;
use crate::light::smoothed_lux;
use crate::light::LightHistory;
use crate::ring::enqueued;
use crate::ring::MAX_RING_CAPACITY;
use crate::LED_DIM_DOWN_STEP_DELAY_MS;
use crate::LED_DIM_UP_STEP_DELAY_MS;
use crate::LED_POWER_STAGES;
use crate::LUX_BUFFER_SIZE;
use crate::LUX_THRESHOLD;
use crate::ON_OFF_REACTION_STEP_DELAY_MS;
use vstd::prelude::*;

verus! {

/// Where the LED power stands: at rest at either end, or on its way between them.
#[derive(Copy, Clone, Eq, PartialEq, Debug, Structural)]
pub enum Phase {
    Off,
    PowerDown,
    PowerUp,
    On,
}

/// The logical level of a digital input.
#[derive(Copy, Clone, Eq, PartialEq, Debug, Structural)]
pub enum Level {
    Low,
    High,
}

/// What the inputs showed at one tick.
#[derive(Copy, Clone, Debug)]
pub struct SensorReadings {
    /// Whether the always-on switch is asserted.
    pub light_always_on: bool,
    /// The illuminance sample taken at this tick, if one was taken.
    pub lux: Option<u32>,
    /// The level of the presence sensor: high while someone is there.
    pub presence: Level,
}

/// The state of the dimmer.
#[derive(Debug)]
pub struct State {
    /// The last samples of the ambient light sensor.
    pub light: LightHistory,
    pub phase: Phase,
    /// Position on the ramp, from 0 to [`LED_POWER_STAGES`].
    pub led_power_stage: u32,
    /// The duty last handed to the LED driver, before inversion.
    pub duty: u32,
    pub light_always_on: bool,
}

/// The mathematical picture of a [`State`].
pub struct StateView {
    /// The illuminance samples held, the oldest first.
    pub history: Seq<u32>,
    /// The number of samples the history keeps at most.
    pub capacity: nat,
    /// The illuminance up to which the surroundings count as dark.
    pub threshold: u32,
    pub phase: Phase,
    pub stage: nat,
    pub duty: u32,
    pub light_always_on: bool,
}

/// The phase after the presence sensor was consulted. Absence sends a lit or
/// brightening LED down; presence in the dark sends a dark or dimming LED up;
/// anything else leaves the phase as it is.
pub open spec fn phase_after_presence(phase: Phase, presence: Level, dark: bool) -> Phase {
    match presence {
        Level::Low => if phase != Phase::Off && phase != Phase::PowerDown {
            Phase::PowerDown
        } else {
            phase
        },
        Level::High => if dark && phase != Phase::On && phase != Phase::PowerUp {
            Phase::PowerUp
        } else {
            phase
        },
    }
}

/// The stage one step on: a step down while powering down, a step up while
/// powering up, never past either end, and the end itself while at rest.
pub open spec fn stage_after_step(phase: Phase, stage: nat) -> nat {
    match phase {
        Phase::Off => 0,
        Phase::PowerDown => if stage > 0 {
            (stage - 1) as nat
        } else {
            0
        },
        Phase::PowerUp => if stage < LED_POWER_STAGES {
            stage + 1
        } else {
            LED_POWER_STAGES as nat
        },
        Phase::On => LED_POWER_STAGES as nat,
    }
}

/// The phase one step on: a ramp that reached its end comes to rest there.
pub open spec fn phase_after_step(phase: Phase, stage: nat) -> Phase {
    let next = stage_after_step(phase, stage);
    match phase {
        Phase::PowerDown => if next == 0 {
            Phase::Off
        } else {
            Phase::PowerDown
        },
        Phase::PowerUp => if next == LED_POWER_STAGES {
            Phase::On
        } else {
            Phase::PowerUp
        },
        _ => phase,
    }
}

/// The delay before the next tick, in milliseconds: long at rest, short on a ramp,
/// and shorter on the way up than on the way down.
pub open spec fn step_delay_ms(phase: Phase) -> u32 {
    match phase {
        Phase::Off | Phase::On => ON_OFF_REACTION_STEP_DELAY_MS,
        Phase::PowerDown => LED_DIM_DOWN_STEP_DELAY_MS,
        Phase::PowerUp => LED_DIM_UP_STEP_DELAY_MS,
    }
}

impl StateView {
    /// The state at start-up: off, at stage 0, with no sample taken.
    pub open spec fn initial(capacity: nat, threshold: u32) -> StateView {
        StateView {
            history: Seq::empty(),
            capacity,
            threshold,
            phase: Phase::Off,
            stage: 0,
            duty: 0,
            light_always_on: false,
        }
    }

    /// Whether the surroundings count as dark.
    pub open spec fn dark(self) -> bool {
        dark_enough(self.history, self.threshold)
    }

    /// The stage is on the ramp.
    pub open spec fn bounded(self) -> bool {
        self.stage <= LED_POWER_STAGES
    }

    /// The phase invariant: the stage is on the ramp, at its foot while the phase is
    /// `Off` and at its top while the phase is `On`.
    pub open spec fn settled(self) -> bool {
        &&& self.bounded()
        &&& self.phase == Phase::Off ==> self.stage == 0
        &&& self.phase == Phase::On ==> self.stage == LED_POWER_STAGES
    }

    /// The phase invariant in its strict form: the LED is at the foot of the ramp
    /// exactly while the phase is `Off`, and at its top exactly while it is `On`.
    pub open spec fn at_rest_exactly_at_the_ends(self) -> bool {
        &&& self.bounded()
        &&& self.phase == Phase::Off <==> self.stage == 0
        &&& self.phase == Phase::On <==> self.stage == LED_POWER_STAGES
    }

    /// The state after `lux` was taken into the history.
    pub open spec fn recorded(self, lux: u32) -> StateView {
        StateView { history: enqueued(self.history, self.capacity, lux), ..self }
    }

    /// The state after the sample of a tick was dealt with: it enters the history
    /// only while the LED is off, since the LED's own light would spoil it.
    pub open spec fn sampled(self, lux: Option<u32>) -> StateView {
        match lux {
            Some(sample) if self.phase == Phase::Off => self.recorded(sample),
            _ => self,
        }
    }

    /// The state after the presence sensor was consulted.
    pub open spec fn with_presence(self, presence: Level) -> StateView {
        StateView { phase: phase_after_presence(self.phase, presence, self.dark()), ..self }
    }

    /// The state after the readings of a tick were taken in: the sample first, then
    /// the always-on switch, which forces the phase to `On`, and only where it is not
    /// asserted the presence sensor.
    pub open spec fn sensed(self, readings: SensorReadings) -> StateView {
        let sampled = self.sampled(readings.lux);
        if readings.light_always_on {
            StateView { phase: Phase::On, light_always_on: true, ..sampled }
        } else {
            StateView { light_always_on: false, ..sampled }.with_presence(readings.presence)
        }
    }

    /// The state one step along the ramp.
    pub open spec fn progressed(self) -> StateView {
        StateView {
            phase: phase_after_step(self.phase, self.stage),
            stage: stage_after_step(self.phase, self.stage),
            ..self
        }
    }

    /// The state after one whole tick: the readings are taken in, then the ramp is
    /// advanced.
    pub open spec fn ticked(self, readings: SensorReadings) -> StateView {
        self.sensed(readings).progressed()
    }

    /// Whether the presence sensor is to be powered: whenever it is dark enough, or
    /// the LED is on a ramp or on.
    pub open spec fn presence_sensor_wanted(self) -> bool {
        self.dark() || self.phase != Phase::Off
    }
}

impl View for State {
    type V = StateView;

    open spec fn view(&self) -> StateView {
        StateView {
            history: self.light@,
            capacity: self.light.capacity(),
            threshold: self.light.threshold(),
            phase: self.phase,
            stage: self.led_power_stage as nat,
            duty: self.duty,
            light_always_on: self.light_always_on,
        }
    }
}

impl State {
    /// The state at start-up, with the history size and the threshold of this crate.
    pub fn new() -> (state: State)
        ensures
            state@ == StateView::initial(LUX_BUFFER_SIZE as nat, LUX_THRESHOLD),
            !state@.dark(),
            state@.settled(),
    {
        State::with_light_settings(LUX_BUFFER_SIZE, LUX_THRESHOLD)
    }

    /// The state at start-up, for a history of `capacity` samples that are judged by
    /// `threshold`.
    pub fn with_light_settings(capacity: usize, threshold: u32) -> (state: State)
        requires
            0 < capacity <= MAX_RING_CAPACITY,
        ensures
            state@ == StateView::initial(capacity as nat, threshold),
            !state@.dark(),
            state@.settled(),
    {
        State {
            light: LightHistory::new(capacity, threshold),
            phase: Phase::Off,
            led_power_stage: 0,
            duty: 0,
            light_always_on: false,
        }
    }

    /// The smoothed illuminance: the median of the samples held, or nothing while
    /// no sample was taken.
    pub fn lux_level(&self) -> (level: Option<u32>)
        ensures
            level == smoothed_lux(self@.history),
    {
        self.light.lux_level()
    }

    /// Whether the surroundings are dark enough for the LED to be of use.
    pub fn is_dark_enough_for_operation(&self) -> (dark: bool)
        ensures
            dark == self@.dark(),
            dark == (self@.history.len() > 0 && crate::median::median(self@.history)
                <= self@.threshold),
    {
        self.light.is_dark_enough()
    }

    /// The delay before the next tick, in milliseconds.
    pub fn duty_step_delay_ms(&self) -> (delay: u32)
        ensures
            delay == step_delay_ms(self.phase),
    {
        match self.phase {
            Phase::Off | Phase::On => ON_OFF_REACTION_STEP_DELAY_MS,
            Phase::PowerDown => LED_DIM_DOWN_STEP_DELAY_MS,
            Phase::PowerUp => LED_DIM_UP_STEP_DELAY_MS,
        }
    }

    /// Moves the stage one step along the ramp and brings a ramp that reached its
    /// end to rest. Afterwards `Off` goes with stage 0 and `On` with the top stage,
    /// whatever the stage was before.
    pub fn calc_dim_progress(&mut self)
        ensures
            final(self)@ == old(self)@.progressed(),
            final(self)@.phase == Phase::Off ==> final(self)@.stage == 0,
            final(self)@.phase == Phase::On ==> final(self)@.stage == LED_POWER_STAGES,
            old(self)@.bounded() ==> final(self)@.settled(),
    {
        match self.phase {
            Phase::Off => {
                self.led_power_stage = 0;
            },
            Phase::PowerDown => {
                if self.led_power_stage > 0 {
                    self.led_power_stage -= 1;
                }
                if self.led_power_stage == 0 {
                    self.phase = Phase::Off;
                }
            },
            Phase::PowerUp => {
                if self.led_power_stage < LED_POWER_STAGES {
                    self.led_power_stage += 1;
                } else {
                    self.led_power_stage = LED_POWER_STAGES;
                }
                if self.led_power_stage == LED_POWER_STAGES {
                    self.phase = Phase::On;
                }
            },
            Phase::On => {
                self.led_power_stage = LED_POWER_STAGES;
            },
        }
    }

    /// Takes a sample of the ambient light sensor into the history.
    pub fn record_ambient_light_level(&mut self, lux: u32)
        ensures
            final(self)@ == old(self)@.recorded(lux),
    {
        self.light.record(lux);
    }

    /// Sets the phase by the level of the presence sensor.
    pub fn apply_presence(&mut self, presence: Level)
        ensures
            final(self)@ == old(self)@.with_presence(presence),
    {
        match presence {
            Level::Low => {
                if self.phase != Phase::Off && self.phase != Phase::PowerDown {
                    self.phase = Phase::PowerDown;
                }
            },
            Level::High => {
                if self.is_dark_enough_for_operation() && self.phase != Phase::On && self.phase
                    != Phase::PowerUp {
                    self.phase = Phase::PowerUp;
                }
            },
        }
    }

    /// Takes in what the inputs showed at this tick. The sample, if there is one,
    /// enters the history only while the phase is `Off`. An asserted always-on switch
    /// sets the phase to `On` at once; otherwise the presence sensor decides.
    pub fn read_sensors(&mut self, readings: SensorReadings)
        ensures
            final(self)@ == old(self)@.sensed(readings),
    {
        self.light_always_on = readings.light_always_on;
        if self.phase == Phase::Off {
            match readings.lux {
                Some(lux) => {
                    self.record_ambient_light_level(lux);
                },
                None => {},
            }
        }
        if self.light_always_on {
            self.phase = Phase::On;
        } else {
            self.apply_presence(readings.presence);
        }
    }

    /// One whole tick: takes the readings in, then advances the ramp.
    pub fn tick(&mut self, readings: SensorReadings)
        ensures
            final(self)@ == old(self)@.ticked(readings),
            readings.light_always_on ==> final(self)@.phase == Phase::On && final(self)@.stage
                == LED_POWER_STAGES,
            old(self)@.bounded() ==> final(self)@.settled(),
            old(self)@.bounded() ==> final(self)@.at_rest_exactly_at_the_ends(),
    {
        self.read_sensors(readings);
        self.calc_dim_progress();
    }

    /// Whether the presence sensor is to be powered.
    pub fn steer_presence_sensor(&self) -> (enable: bool)
        ensures
            enable == self@.presence_sensor_wanted(),
    {
        self.is_dark_enough_for_operation() || self.phase != Phase::Off
    }

    /// Notes `duty` as the duty in force and returns the value to write to an
    /// inverting output stage whose full scale is `max_duty`.
    pub fn apply_led_power_level(&mut self, duty: u32, max_duty: u32) -> (inverted_duty: u32)
        requires
            duty <= max_duty,
        ensures
            inverted_duty == max_duty - duty,
            final(self)@ == (StateView { duty, ..old(self)@ }),
    {
        self.duty = duty;
        max_duty - duty
    }
}

} // verus!
