//! Vehicle-wide calibration constants shared across FSM/domain logic.
use vstd::prelude::*;

verus! {

pub const RPM_IDLE: u16 = 800;
pub const RPM_REDLINE_THRESHOLD: u16 = 7000;
pub const RPM_GREENLINE_THRESHOLD: u16 = 6000;

pub const RPM_STRESS_DURATION_THRESHOLD_SECS: u64 = 5;

pub const LUX_ON_THRESHOLD: u16 = 30;
pub const LUX_OFF_THRESHOLD: u16 = 45;

/// Maximum time, in seconds, to wait for an ON command ACK before timeout recovery.
pub const CORNER_LIGHTS_ON_ACK_WAIT_SECS: u64 = 2;
/// Maximum time, in seconds, to wait for an OFF command ACK before timeout recovery.
pub const CORNER_LIGHTS_OFF_ACK_WAIT_SECS: u64 = 2;

/// Monotonic time stamps in this crate count nanoseconds.
pub const NANOS_PER_SEC: u64 = 1_000_000_000;

} // verus!
