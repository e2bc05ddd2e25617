//! Decision engine of the gateway stress supervisor.
use super::model::{OperationalState, VehicleContext};
use crate::vehicle_constants::{NANOS_PER_SEC, RPM_STRESS_DURATION_THRESHOLD_SECS};
use vstd::prelude::*;

verus! {

/// RPM has stayed above the stress threshold for at least the stress duration.
pub open spec fn under_extreme_stress(ctx: VehicleContext, now: u64) -> bool {
    match ctx.rpm_stress_timer {
        Some(start) => now >= start && now - start >= RPM_STRESS_DURATION_THRESHOLD_SECS
            * NANOS_PER_SEC,
        None => false,
    }
}

/// The state the supervisor decides on; `Critical` holds until a reset.
pub open spec fn decided_state(current: OperationalState, ctx: VehicleContext, now: u64) -> OperationalState {
    match current {
        OperationalState::Operational => {
            if under_extreme_stress(ctx, now) {
                OperationalState::Warning
            } else {
                OperationalState::Operational
            }
        },
        OperationalState::Warning => {
            if ctx.rpm_stress_timer is None {
                OperationalState::Operational
            } else {
                OperationalState::Warning
            }
        },
        OperationalState::Critical => OperationalState::Critical,
    }
}

/// Looks at the current state and the accumulated context to decide the new state.
pub fn decide_next_state(current_state: OperationalState, ctx: &VehicleContext, now: u64) -> (r:
    OperationalState)
    ensures
        r == decided_state(current_state, *ctx, now),
{
    match current_state {
        OperationalState::Operational => {
            if is_under_extreme_stress(ctx, now) {
                OperationalState::Warning
            } else {
                OperationalState::Operational
            }
        },
        OperationalState::Warning => {
            if is_recovered(ctx) {
                OperationalState::Operational
            } else if is_critical_failure(ctx) {
                OperationalState::Critical
            } else {
                OperationalState::Warning
            }
        },
        OperationalState::Critical => OperationalState::Critical,
    }
}

fn is_under_extreme_stress(ctx: &VehicleContext, now: u64) -> (r: bool)
    ensures
        r == under_extreme_stress(*ctx, now),
{
    match ctx.rpm_stress_timer {
        Some(start) => {
            let elapsed: u64 = if now >= start {
                now - start
            } else {
                0
            };
            now >= start && elapsed >= RPM_STRESS_DURATION_THRESHOLD_SECS * NANOS_PER_SEC
        },
        None => false,
    }
}

/// Stress timer has been cleared (RPM dropped).
fn is_recovered(ctx: &VehicleContext) -> (r: bool)
    ensures
        r == (ctx.rpm_stress_timer is None),
{
    ctx.rpm_stress_timer.is_none()
}

/// No condition is classified as critical yet.
fn is_critical_failure(ctx: &VehicleContext) -> (r: bool)
    ensures
        !r,
{
    false
}

} // verus!
