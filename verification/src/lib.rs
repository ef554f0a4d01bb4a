//! Control core of a presence-triggered LED dimmer that only lights up when the
//! surroundings are dark.
//!
//! The crate holds the decisions of the controller: the smoothed judgement of the
//! ambient light level, the phase machine that ramps the LED power up and down, the
//! cadence of the control loop and the steering of the presence sensor's supply.
//! Reading pins and sensors, driving the PWM output and the floating-point power
//! curve are left to the program around it, which hands plain values in and out.
use vstd::prelude::*;

pub mod error;
pub mod laws;
pub mod light;
pub mod median;
pub mod ring;
pub mod state;
pub mod status;

verus! {

/// Number of stages (and also the highest stage) the LED power passes through on
/// its way from [`state::Phase::Off`] to [`state::Phase::On`] and back.
pub const LED_POWER_STAGES: u32 = 1000;

/// Step delay, and longest reaction time, while the LED is fully off or fully on.
pub const ON_OFF_REACTION_STEP_DELAY_MS: u32 = 500;

/// Step delay, and longest reaction time, while the LED dims down.
pub const LED_DIM_DOWN_STEP_DELAY_MS: u32 = 14;

/// Step delay, and longest reaction time, while the LED dims up.
pub const LED_DIM_UP_STEP_DELAY_MS: u32 = 7;

/// Number of illuminance samples the light history keeps.
pub const LUX_BUFFER_SIZE: usize = 8;

/// Illuminance, in millilux, up to which the surroundings count as dark.
pub const LUX_THRESHOLD: u32 = 160;

/// Shortest time between two status lines, in milliseconds.
pub const STATUS_LOG_INTERVAL_MS: u64 = 2000;

} // verus!
