//! Transition spec (runtime source of truth) and transition outputs.
//!
//! - Off + PowerOn(healthy ctx) -> Idle
//! - Idle + PowerOff -> Off
//! - Idle + UpdateRpm(rpm > 1000) -> Driving
//! - Driving + UpdateSpeed(0) -> Idle
//! - Driving + UpdateRpm(rpm > stress threshold) -> Warning(now)
//! - Warning + TimerTick + cooldown elapsed + rpm <= recovery threshold -> Driving/Idle
//! - Everything else -> stay in current state
use super::machineries::{
    healthy, FsmAction, FsmActionView, FsmEvent, FsmState, VehicleContext,
};
use crate::vehicle_constants::{
    NANOS_PER_SEC, RPM_GREENLINE_THRESHOLD, RPM_STRESS_DURATION_THRESHOLD_SECS,
};
use crate::seq_views::views;
use vstd::prelude::*;

verus! {

/// RPM at or below which a warning may recover.
pub const RPM_RECOVERY_THRESHOLD: u16 = 5000;

/// RPM above which an idle vehicle counts as driving.
pub const RPM_DRIVING_THRESHOLD: u16 = 1000;

/// How long the vehicle has been in warning: zero when `now` precedes `began_at`.
pub open spec fn warning_age(began_at: u64, now: u64) -> int {
    if now >= began_at {
        now - began_at
    } else {
        0
    }
}

/// Cooldown elapsed and RPM back at or below the recovery threshold.
pub open spec fn recovery_ready(began_at: u64, now: u64, rpm: u16) -> bool {
    &&& warning_age(began_at, now) >= RPM_STRESS_DURATION_THRESHOLD_SECS * NANOS_PER_SEC
    &&& rpm <= RPM_RECOVERY_THRESHOLD
}

/// The transition table.
pub open spec fn next_state(
    current: FsmState,
    event: FsmEvent,
    ctx: VehicleContext,
    now: u64,
) -> FsmState {
    match current {
        FsmState::Off => {
            if event == FsmEvent::PowerOn && healthy(ctx) {
                FsmState::Idle
            } else {
                FsmState::Off
            }
        },
        FsmState::Idle => {
            if event == FsmEvent::PowerOff {
                FsmState::Off
            } else if event matches FsmEvent::UpdateRpm(rpm) && rpm > RPM_DRIVING_THRESHOLD {
                FsmState::Driving
            } else {
                FsmState::Idle
            }
        },
        FsmState::Driving => {
            if event == FsmEvent::UpdateSpeed(0) {
                FsmState::Idle
            } else if event matches FsmEvent::UpdateRpm(rpm) && rpm > RPM_GREENLINE_THRESHOLD {
                FsmState::Warning(now)
            } else {
                FsmState::Driving
            }
        },
        FsmState::Warning(began_at) => {
            if event == FsmEvent::TimerTick && recovery_ready(began_at, now, ctx.rpm) {
                if ctx.speed == 0 {
                    FsmState::Idle
                } else {
                    FsmState::Driving
                }
            } else {
                FsmState::Warning(began_at)
            }
        },
    }
}

pub fn transition(
    current_state: &FsmState,
    event: &FsmEvent,
    current_ctx: &VehicleContext,
    now: u64,
) -> (r: FsmState)
    ensures
        r == next_state(*current_state, *event, *current_ctx, now),
{
    match current_state {
        FsmState::Off => match event {
            FsmEvent::PowerOn => {
                if current_ctx.is_healthy() {
                    FsmState::Idle
                } else {
                    FsmState::Off
                }
            },
            _ => FsmState::Off,
        },
        FsmState::Idle => match event {
            FsmEvent::PowerOff => FsmState::Off,
            FsmEvent::UpdateRpm(rpm) => {
                if *rpm > RPM_DRIVING_THRESHOLD {
                    FsmState::Driving
                } else {
                    FsmState::Idle
                }
            },
            _ => FsmState::Idle,
        },
        FsmState::Driving => match event {
            FsmEvent::UpdateSpeed(speed) => {
                if *speed == 0 {
                    FsmState::Idle
                } else {
                    FsmState::Driving
                }
            },
            FsmEvent::UpdateRpm(rpm) => {
                if *rpm > RPM_GREENLINE_THRESHOLD {
                    FsmState::Warning(now)
                } else {
                    FsmState::Driving
                }
            },
            _ => FsmState::Driving,
        },
        FsmState::Warning(began_at) => match event {
            FsmEvent::TimerTick => {
                if warning_recovery_ready(*began_at, now, current_ctx.rpm) {
                    if current_ctx.speed == 0 {
                        FsmState::Idle
                    } else {
                        FsmState::Driving
                    }
                } else {
                    FsmState::Warning(*began_at)
                }
            },
            _ => FsmState::Warning(*began_at),
        },
    }
}

/// A power-off request the machine refuses: any state but `Idle`.
pub open spec fn power_off_rejected(current: FsmState, event: FsmEvent) -> bool {
    event == FsmEvent::PowerOff && !(current is Idle)
}

/// Whether `event` is a power-off request that `current_state` refuses (to be reported).
pub fn is_rejected_power_off(current_state: &FsmState, event: &FsmEvent) -> (r: bool)
    ensures
        r == power_off_rejected(*current_state, *event),
{
    match (current_state, event) {
        (FsmState::Idle, _) => false,
        (_, FsmEvent::PowerOff) => true,
        _ => false,
    }
}

pub fn warning_recovery_ready(began_at: u64, now: u64, rpm: u16) -> (r: bool)
    ensures
        r == recovery_ready(began_at, now, rpm),
{
    let warning_age: u64 = if now >= began_at {
        now - began_at
    } else {
        0
    };
    warning_age >= RPM_STRESS_DURATION_THRESHOLD_SECS * NANOS_PER_SEC && rpm
        <= RPM_RECOVERY_THRESHOLD
}

/// The actions a move from `old` to `new` emits.
pub open spec fn transition_outputs(old: FsmState, new: FsmState) -> Seq<FsmActionView> {
    if old is Driving && new is Warning {
        seq![FsmActionView::StartBuzzer, FsmActionView::LogWarning("Overspeed detected!"@)]
    } else if old is Warning && (new is Driving || new is Idle) {
        seq![FsmActionView::StopBuzzer]
    } else if old != new {
        seq![FsmActionView::PublishStateSync]
    } else {
        seq![]
    }
}

/// The mathematical values of a list of actions.
pub open spec fn action_views(actions: Seq<FsmAction>) -> Seq<FsmActionView> {
    views(actions)
}

pub fn output(old_state: &FsmState, new_state: &FsmState) -> (actions: Vec<FsmAction>)
    ensures
        action_views(actions@) == transition_outputs(*old_state, *new_state),
{
    let mut actions: Vec<FsmAction> = Vec::new();
    match (old_state, new_state) {
        (FsmState::Driving, FsmState::Warning(_)) => {
            actions.push(FsmAction::StartBuzzer);
            actions.push(FsmAction::LogWarning("Overspeed detected!".to_owned()));
        },
        (FsmState::Warning(_), FsmState::Driving) | (FsmState::Warning(_), FsmState::Idle) => {
            actions.push(FsmAction::StopBuzzer);
        },
        (old, new) => {
            if old != new {
                actions.push(FsmAction::PublishStateSync);
            }
        },
    }
    assert(action_views(actions@) =~= transition_outputs(*old_state, *new_state));
    actions
}

} // verus!
