//! Gateway-side stress supervisor: a three-state machine driven by telemetry
//! with a stress timer that starts when RPM exceeds the stress threshold.
pub mod model;
pub mod transitions;

use crate::domain_types::{VehicleEvent, VssSignal};
use model::{OperationalState, VehicleContext};
use transitions::{decided_state, decide_next_state, under_extreme_stress};
use vstd::prelude::*;

pub use crate::vehicle_constants::RPM_GREENLINE_THRESHOLD as RPM_STRESS_THRESHOLD;

verus! {

/// The context after an event's data is applied (before the state decision).
pub open spec fn context_with_event(ctx: VehicleContext, event: VehicleEvent, now: u64) -> VehicleContext {
    match event {
        VehicleEvent::TelemetryUpdate(VssSignal::VehicleSpeed(s)) => VehicleContext { speed: s, ..ctx },
        VehicleEvent::TelemetryUpdate(VssSignal::EngineRpm(r)) => {
            if r > RPM_STRESS_THRESHOLD {
                VehicleContext {
                    rpm: r,
                    rpm_stress_timer: if ctx.rpm_stress_timer is Some {
                        ctx.rpm_stress_timer
                    } else {
                        Some(now)
                    },
                    ..ctx
                }
            } else {
                VehicleContext { rpm: r, rpm_stress_timer: None, ..ctx }
            }
        },
        _ => ctx,
    }
}

/// The context after an event is handled.
pub open spec fn handled_context(ctx: VehicleContext, event: VehicleEvent, now: u64) -> VehicleContext {
    if event == VehicleEvent::SystemReset {
        VehicleContext {
            rpm_stress_timer: None,
            current_state: OperationalState::Operational,
            ..ctx
        }
    } else {
        let c = context_with_event(ctx, event, now);
        VehicleContext { current_state: decided_state(c.current_state, c, now), ..c }
    }
}

/// Applies an event at monotonic time `now` (nanoseconds): updates the
/// telemetry snapshot and stress timer, then decides the next state.
/// A system reset clears the stress timer and returns to `Operational`.
pub fn handle_vehicle_event(ctx: &mut VehicleContext, event: VehicleEvent, now: u64)
    ensures
        *final(ctx) == handled_context(*old(ctx), event, now),
{
    match event {
        VehicleEvent::TelemetryUpdate(signal) => match signal {
            VssSignal::VehicleSpeed(s) => ctx.speed = s,
            VssSignal::EngineRpm(r) => {
                ctx.rpm = r;
                if r > RPM_STRESS_THRESHOLD {
                    ctx.start_stress_timer(now);
                } else {
                    ctx.clear_stress();
                }
            },
            VssSignal::AmbientLux(_) => {},
        },
        VehicleEvent::TimerTick => {},
        VehicleEvent::SystemReset => {
            ctx.clear_stress();
            ctx.current_state = OperationalState::Operational;
            return;
        },
    }
    let next_state = decide_next_state(ctx.current_state, ctx, now);
    if next_state != ctx.current_state {
        ctx.current_state = next_state;
    }
}

/// Every event other than a reset is applied to the context and then decided on:
/// a speed update sets the speed and keeps RPM and the stress timer; an RPM update
/// above the stress threshold keeps a running timer or starts one now, and one at
/// or below it clears the timer; ticks and lux updates change no field. Then an
/// operational supervisor warns exactly when the timer has run for the stress
/// duration (5 s), a warning holds while the timer runs and recovers when it is
/// cleared, and `Critical` stays.
pub proof fn law_decides_after_every_event(ctx: VehicleContext, event: VehicleEvent, now: u64)
    requires
        event != VehicleEvent::SystemReset,
    ensures
        ({
            let h = handled_context(ctx, event, now);
            &&& h.speed == (match event {
                VehicleEvent::TelemetryUpdate(VssSignal::VehicleSpeed(s)) => s,
                _ => ctx.speed,
            })
            &&& h.rpm == (match event {
                VehicleEvent::TelemetryUpdate(VssSignal::EngineRpm(r)) => r,
                _ => ctx.rpm,
            })
            &&& h.rpm_stress_timer == (match event {
                VehicleEvent::TelemetryUpdate(VssSignal::EngineRpm(r)) => {
                    if r <= 6000 {
                        None
                    } else if ctx.rpm_stress_timer is Some {
                        ctx.rpm_stress_timer
                    } else {
                        Some(now)
                    }
                },
                _ => ctx.rpm_stress_timer,
            })
            &&& ctx.current_state == OperationalState::Operational ==> h.current_state == (
            if h.rpm_stress_timer matches Some(start) && now >= start && now - start
                >= 5_000_000_000u64 {
                OperationalState::Warning
            } else {
                OperationalState::Operational
            })
            &&& ctx.current_state == OperationalState::Warning ==> h.current_state == (
            if h.rpm_stress_timer is None {
                OperationalState::Operational
            } else {
                OperationalState::Warning
            })
            &&& ctx.current_state == OperationalState::Critical ==> h.current_state
                == OperationalState::Critical
        }),
{
}

/// Sustained stress is reported on whatever event comes next: an operational
/// supervisor whose timer started at least 5 s ago warns on a speed update, a
/// tick or a lux update just as on an RPM update above the threshold.
pub proof fn law_sustained_stress_warns_on_any_event(
    ctx: VehicleContext,
    event: VehicleEvent,
    start: u64,
    now: u64,
)
    requires
        ctx.current_state == OperationalState::Operational,
        ctx.rpm_stress_timer == Some(start),
        now >= start,
        now - start >= 5_000_000_000u64,
        event != VehicleEvent::SystemReset,
        !(event matches VehicleEvent::TelemetryUpdate(VssSignal::EngineRpm(r)) && r <= 6000),
    ensures
        handled_context(ctx, event, now).current_state == OperationalState::Warning,
{
}

/// `Critical` holds until a system reset; a reset always returns to `Operational`
/// with the stress timer cleared.
pub proof fn law_critical_until_reset(ctx: VehicleContext, event: VehicleEvent, now: u64)
    ensures
        ctx.current_state == OperationalState::Critical && event != VehicleEvent::SystemReset
            ==> handled_context(ctx, event, now).current_state == OperationalState::Critical,
        event == VehicleEvent::SystemReset ==> handled_context(ctx, event, now).current_state
            == OperationalState::Operational && handled_context(ctx, event, now).rpm_stress_timer
            is None,
{
}

/// A warning recovers as soon as RPM drops to the stress threshold.
pub proof fn law_warning_recovers_when_rpm_drops(ctx: VehicleContext, rpm: u16, now: u64)
    requires
        ctx.current_state == OperationalState::Warning,
        rpm <= RPM_STRESS_THRESHOLD,
    ensures
        handled_context(ctx, VehicleEvent::TelemetryUpdate(VssSignal::EngineRpm(rpm)), now).current_state
            == OperationalState::Operational,
{
}

/// The supervisor warns only after RPM has stayed above the stress threshold for
/// the whole stress duration.
pub proof fn law_warning_needs_sustained_stress(ctx: VehicleContext, event: VehicleEvent, now: u64)
    requires
        ctx.current_state == OperationalState::Operational,
        handled_context(ctx, event, now).current_state == OperationalState::Warning,
    ensures
        under_extreme_stress(context_with_event(ctx, event, now), now),
{
}

} // verus!
