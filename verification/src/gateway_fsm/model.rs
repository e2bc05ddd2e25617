//! Context of the gateway stress supervisor.
use vstd::prelude::*;

verus! {

#[derive(Debug, Clone, Copy, PartialEq, Eq, Structural)]
pub enum OperationalState {
    Operational,
    Warning,
    Critical,
}

#[derive(Debug, Clone, Copy, PartialEq, Eq, Structural)]
pub struct VehicleContext {
    // Current telemetry snapshot (speed in whole km/h)
    pub speed: i64,
    pub rpm: u16,
    /// Monotonic time (nanoseconds) at which RPM last went above the stress threshold.
    pub rpm_stress_timer: Option<u64>,
    pub current_state: OperationalState,
}

impl VehicleContext {
    pub fn new() -> (r: Self)
        ensures
            r == (VehicleContext {
                speed: 0,
                rpm: 0,
                rpm_stress_timer: None,
                current_state: OperationalState::Operational,
            }),
    {
        VehicleContext {
            speed: 0,
            rpm: 0,
            rpm_stress_timer: None,
            current_state: OperationalState::Operational,
        }
    }

    /// Reset the stress timer if we drop below threshold
    pub fn clear_stress(&mut self)
        ensures
            *final(self) == (VehicleContext { rpm_stress_timer: None, ..*old(self) }),
    {
        self.rpm_stress_timer = None;
    }

    /// Start the timer at `now` if it's not already running
    pub fn start_stress_timer(&mut self, now: u64)
        ensures
            *final(self) == (VehicleContext {
                rpm_stress_timer: if old(self).rpm_stress_timer is Some {
                    old(self).rpm_stress_timer
                } else {
                    Some(now)
                },
                ..*old(self)
            }),
    {
        if self.rpm_stress_timer.is_none() {
            self.rpm_stress_timer = Some(now);
        }
    }
}

} // verus!
