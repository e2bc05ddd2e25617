//! Laws of the FSM and of its lighting sub-state, over the specs of
//! `transition`, `output` and `step`.
use super::engine::{next_state, recovery_ready, transition_outputs, warning_age};
use super::machineries::{healthy, FsmActionView, FsmEvent, FsmState, LightingState, VehicleContext};
use super::step::{
    context_with_event, domain_actions_of, lighting_request, mode_hint, step_actions,
    step_context, step_state, ActorModeHintFromDomain, DomainActionView,
};
use crate::vehicle_constants::{
    LUX_OFF_THRESHOLD, LUX_ON_THRESHOLD, NANOS_PER_SEC, RPM_GREENLINE_THRESHOLD,
    RPM_STRESS_DURATION_THRESHOLD_SECS,
};
use vstd::prelude::*;

verus! {

/// Outputs of a transition carry no request and no mode hint: they are buzzer,
/// warning-log and state-sync intents only.
pub proof fn lemma_transition_outputs_are_drive_intents(old: FsmState, new: FsmState)
    ensures
        forall|i: int|
            0 <= i < domain_actions_of(transition_outputs(old, new)).len() ==> {
                let a = #[trigger] domain_actions_of(transition_outputs(old, new))[i];
                !(a is RequestCornerLightsOn) && !(a is RequestCornerLightsOff) && !(a is EnterMode)
            },
{
    let outs = transition_outputs(old, new);
    reveal_with_fuel(domain_actions_of, 3);
    if outs.len() == 2 {
        assert(outs.drop_last().drop_last() =~= Seq::<FsmActionView>::empty());
    } else if outs.len() == 1 {
        assert(outs.drop_last() =~= Seq::<FsmActionView>::empty());
    }
}

/// A state change is always announced and a non-change never is: the outputs are
/// empty exactly when the state stays the same.
pub proof fn law_outputs_empty_iff_no_change(old: FsmState, new: FsmState)
    ensures
        transition_outputs(old, new).len() == 0 <==> old == new,
{
}

/// Power-off is honoured only when idle; in every other state it changes nothing.
pub proof fn law_power_off_only_from_idle(s: FsmState, ctx: VehicleContext, now: u64)
    ensures
        next_state(s, FsmEvent::PowerOff, ctx, now) == if s is Idle {
            FsmState::Off
        } else {
            s
        },
{
}

/// An off vehicle leaves `Off` only on power-on with a healthy context, and then to `Idle`.
pub proof fn law_off_leaves_only_on_healthy_power_on(
    e: FsmEvent,
    ctx: VehicleContext,
    now: u64,
)
    ensures
        next_state(FsmState::Off, e, ctx, now) != FsmState::Off ==> e == FsmEvent::PowerOn
            && healthy(ctx) && next_state(FsmState::Off, e, ctx, now) == FsmState::Idle,
{
}

/// A warning is left only on a timer tick, once the cooldown has elapsed and RPM
/// has dropped to the recovery threshold; it then returns to `Idle` when stopped
/// and to `Driving` otherwise.
pub proof fn law_warning_recovery(began_at: u64, e: FsmEvent, ctx: VehicleContext, now: u64)
    ensures
        next_state(FsmState::Warning(began_at), e, ctx, now) != FsmState::Warning(began_at)
            <==> (e == FsmEvent::TimerTick && recovery_ready(began_at, now, ctx.rpm)),
        warning_age(began_at, now) < RPM_STRESS_DURATION_THRESHOLD_SECS * NANOS_PER_SEC
            ==> next_state(FsmState::Warning(began_at), e, ctx, now) == FsmState::Warning(
            began_at,
        ),
        e == FsmEvent::TimerTick && recovery_ready(began_at, now, ctx.rpm) ==> next_state(
            FsmState::Warning(began_at),
            e,
            ctx,
            now,
        ) == if ctx.speed == 0 {
            FsmState::Idle
        } else {
            FsmState::Driving
        },
{
}

/// A warning is entered only from `Driving`, stamped with the time of the step.
pub proof fn law_warning_entered_from_driving(
    s: FsmState,
    e: FsmEvent,
    ctx: VehicleContext,
    now: u64,
)
    requires
        !(s is Warning),
        next_state(s, e, ctx, now) is Warning,
    ensures
        s == FsmState::Driving,
        next_state(s, e, ctx, now) == FsmState::Warning(now),
{
}

/// The lighting request of a step, read off the step's intents.
proof fn lemma_step_requests(s: FsmState, ctx: VehicleContext, e: FsmEvent, now: u64)
    ensures
        step_actions(s, ctx, e, now).contains(DomainActionView::RequestCornerLightsOn) <==> (
        lighting_request(ctx.lighting_state, e, step_state(s, ctx, e, now)) matches Some((_, req))
            && req == DomainActionView::RequestCornerLightsOn),
        step_actions(s, ctx, e, now).contains(DomainActionView::RequestCornerLightsOff) <==> (
        lighting_request(ctx.lighting_state, e, step_state(s, ctx, e, now)) matches Some((_, req))
            && req == DomainActionView::RequestCornerLightsOff),
{
    let outs = domain_actions_of(transition_outputs(s, step_state(s, ctx, e, now)));
    lemma_transition_outputs_are_drive_intents(s, step_state(s, ctx, e, now));
    let all = step_actions(s, ctx, e, now);
    assert(all.last() is EnterMode);
    if all.contains(DomainActionView::RequestCornerLightsOn) {
        let i = choose|i: int| 0 <= i < all.len() && all[i] == DomainActionView::RequestCornerLightsOn;
        if i < outs.len() {
            assert(outs[i] == all[i]);
        }
    }
    if all.contains(DomainActionView::RequestCornerLightsOff) {
        let i = choose|i: int| 0 <= i < all.len() && all[i] == DomainActionView::RequestCornerLightsOff;
        if i < outs.len() {
            assert(outs[i] == all[i]);
        }
    }
    match lighting_request(ctx.lighting_state, e, step_state(s, ctx, e, now)) {
        Some((_, req)) => {
            assert(all[outs.len() as int] == req);
        },
        None => {},
    }
}

/// An ON request is emitted only from lighting `Off`, an OFF request only from `On`,
/// and never both in one step.
pub proof fn law_requests_only_from_settled_lighting(
    s: FsmState,
    ctx: VehicleContext,
    e: FsmEvent,
    now: u64,
)
    ensures
        step_actions(s, ctx, e, now).contains(DomainActionView::RequestCornerLightsOn)
            ==> ctx.lighting_state == LightingState::Off,
        step_actions(s, ctx, e, now).contains(DomainActionView::RequestCornerLightsOff)
            ==> ctx.lighting_state == LightingState::On,
        !(step_actions(s, ctx, e, now).contains(DomainActionView::RequestCornerLightsOn)
            && step_actions(s, ctx, e, now).contains(DomainActionView::RequestCornerLightsOff)),
{
    lemma_step_requests(s, ctx, e, now);
}

/// Lighting follows the hysteresis contract: the ON threshold lies below the OFF
/// threshold; while the vehicle is not off, lux at or below the ON threshold
/// requests ON from `Off` (entering `OnRequested`); lux at or above the OFF
/// threshold requests OFF from `On` (entering `OffRequested`).
pub proof fn law_lux_hysteresis(s: FsmState, ctx: VehicleContext, lux: u16, now: u64)
    ensures
        crate::vehicle_constants::LUX_ON_THRESHOLD < crate::vehicle_constants::LUX_OFF_THRESHOLD,
        ctx.lighting_state == LightingState::Off && lux <= crate::vehicle_constants::LUX_ON_THRESHOLD
            && !(s is Off) ==> step_context(s, ctx, FsmEvent::UpdateAmbientLux(lux), now).lighting_state
            == LightingState::OnRequested && step_actions(
            s,
            ctx,
            FsmEvent::UpdateAmbientLux(lux),
            now,
        ).contains(DomainActionView::RequestCornerLightsOn),
        ctx.lighting_state == LightingState::On && lux >= crate::vehicle_constants::LUX_OFF_THRESHOLD
            ==> step_context(s, ctx, FsmEvent::UpdateAmbientLux(lux), now).lighting_state
            == LightingState::OffRequested && step_actions(
            s,
            ctx,
            FsmEvent::UpdateAmbientLux(lux),
            now,
        ).contains(DomainActionView::RequestCornerLightsOff),
{
    lemma_step_requests(s, ctx, FsmEvent::UpdateAmbientLux(lux), now);
}

/// A pending lighting request is resolved only by a confirmation: any other event
/// leaves `OnRequested` / `OffRequested` as it is.
pub proof fn law_pending_resolves_only_on_confirmation(
    s: FsmState,
    ctx: VehicleContext,
    e: FsmEvent,
    now: u64,
)
    requires
        ctx.lighting_state == LightingState::OnRequested || ctx.lighting_state
            == LightingState::OffRequested,
        e != FsmEvent::CornerLightsOnConfirmed,
        e != FsmEvent::CornerLightsOffConfirmed,
    ensures
        step_context(s, ctx, e, now).lighting_state == ctx.lighting_state,
{
}

/// Confirmations settle the lighting state: ON confirmed gives `On`, OFF confirmed gives `Off`.
pub proof fn law_confirmation_settles_lighting(s: FsmState, ctx: VehicleContext, now: u64)
    ensures
        step_context(s, ctx, FsmEvent::CornerLightsOnConfirmed, now).lighting_state
            == LightingState::On,
        step_context(s, ctx, FsmEvent::CornerLightsOffConfirmed, now).lighting_state
            == LightingState::Off,
{
}

/// Once a step has asked for the lights, the same event again (in any drive
/// state, at any time) does not ask for them again.
pub proof fn law_no_duplicate_requests(
    s: FsmState,
    ctx: VehicleContext,
    e: FsmEvent,
    now: u64,
    s2: FsmState,
    now2: u64,
)
    ensures
        !step_actions(s2, step_context(s, ctx, e, now), e, now2).contains(
            DomainActionView::RequestCornerLightsOn,
        ) || !step_actions(s, ctx, e, now).contains(DomainActionView::RequestCornerLightsOn),
        !step_actions(s2, step_context(s, ctx, e, now), e, now2).contains(
            DomainActionView::RequestCornerLightsOff,
        ) || !step_actions(s, ctx, e, now).contains(DomainActionView::RequestCornerLightsOff),
{
    lemma_step_requests(s, ctx, e, now);
    lemma_step_requests(s2, step_context(s, ctx, e, now), e, now2);
}

/// A repeated identical lux update requests nothing and keeps the lighting state,
/// unless the vehicle was off at the first update and is no longer off at the second.
pub proof fn law_repeated_lux_update_is_idempotent(
    s: FsmState,
    ctx: VehicleContext,
    lux: u16,
    now: u64,
    s2: FsmState,
    now2: u64,
)
    requires
        s is Off ==> s2 is Off,
    ensures
        ({
            let e = FsmEvent::UpdateAmbientLux(lux);
            let c1 = step_context(s, ctx, e, now);
            &&& step_context(s2, c1, e, now2).lighting_state == c1.lighting_state
            &&& !step_actions(s2, c1, e, now2).contains(DomainActionView::RequestCornerLightsOn)
            &&& !step_actions(s2, c1, e, now2).contains(DomainActionView::RequestCornerLightsOff)
        }),
{
    let e = FsmEvent::UpdateAmbientLux(lux);
    lemma_step_requests(s2, step_context(s, ctx, e, now), e, now2);
}

/// While the vehicle is off the corner lights are kept off: a step that ends in
/// `Off` never requests them ON, and lights that were off stay off (short of an
/// ON confirmation from the actuator).
pub proof fn law_lights_kept_off_while_off(s: FsmState, ctx: VehicleContext, e: FsmEvent, now: u64)
    requires
        step_state(s, ctx, e, now) == FsmState::Off,
    ensures
        !step_actions(s, ctx, e, now).contains(DomainActionView::RequestCornerLightsOn),
        ctx.lighting_state == LightingState::Off && e != FsmEvent::CornerLightsOnConfirmed
            ==> step_context(s, ctx, e, now).lighting_state == LightingState::Off,
{
    lemma_step_requests(s, ctx, e, now);
}

/// The drive state and its intents do not depend on the lighting sub-state: two
/// contexts that differ only in lighting state and ambient lux step alike.
pub proof fn law_drive_logic_independent_of_lighting(
    s: FsmState,
    ctx1: VehicleContext,
    ctx2: VehicleContext,
    e: FsmEvent,
    now: u64,
)
    requires
        ctx1.rpm == ctx2.rpm,
        ctx1.speed == ctx2.speed,
        ctx1.fuel_level == ctx2.fuel_level,
        ctx1.oil_pressure == ctx2.oil_pressure,
        ctx1.tyre_pressure_ok == ctx2.tyre_pressure_ok,
    ensures
        step_state(s, ctx1, e, now) == step_state(s, ctx2, e, now),
        step_context(s, ctx1, e, now).rpm == step_context(s, ctx2, e, now).rpm,
        step_context(s, ctx1, e, now).speed == step_context(s, ctx2, e, now).speed,
{
    assert(healthy(context_with_event(ctx1, e)) == healthy(context_with_event(ctx2, e)));
}

/// Every step ends with exactly one mode hint, `Transitioning` exactly when the
/// step lands in a warning.
pub proof fn law_single_trailing_mode_hint(s: FsmState, ctx: VehicleContext, e: FsmEvent, now: u64)
    ensures
        step_actions(s, ctx, e, now).len() > 0,
        step_actions(s, ctx, e, now).last() == DomainActionView::EnterMode(
            mode_hint(step_state(s, ctx, e, now)),
        ),
        step_actions(s, ctx, e, now).last() == DomainActionView::EnterMode(
            if step_state(s, ctx, e, now) is Warning {
                ActorModeHintFromDomain::Transitioning
            } else {
                ActorModeHintFromDomain::Normal
            },
        ),
        forall|i: int|
            0 <= i < step_actions(s, ctx, e, now).len() - 1 ==> !(#[trigger] step_actions(
                s,
                ctx,
                e,
                now,
            )[i] is EnterMode),
{
    let outs = domain_actions_of(transition_outputs(s, step_state(s, ctx, e, now)));
    lemma_transition_outputs_are_drive_intents(s, step_state(s, ctx, e, now));
    let all = step_actions(s, ctx, e, now);
    assert forall|i: int| 0 <= i < all.len() - 1 implies !(#[trigger] all[i] is EnterMode) by {
        if i < outs.len() {
            assert(outs[i] == all[i]);
        }
    }
}

/// From `Driving`: a standstill (speed update to 0) makes the vehicle `Idle`, an
/// RPM above the greenline enters `Warning` stamped with the step time, and every
/// other event (an RPM at or below the greenline, any other speed, power-off,
/// ticks, lux and actuator events) keeps it `Driving`.
pub proof fn law_driving_transitions(e: FsmEvent, ctx: VehicleContext, now: u64)
    ensures
        (next_state(FsmState::Driving, e, ctx, now) == FsmState::Idle) <==> e
            == FsmEvent::UpdateSpeed(0),
        (next_state(FsmState::Driving, e, ctx, now) is Warning) <==> (e matches FsmEvent::UpdateRpm(
            r,
        ) && r > RPM_GREENLINE_THRESHOLD),
        next_state(FsmState::Driving, e, ctx, now) is Warning ==> next_state(
            FsmState::Driving,
            e,
            ctx,
            now,
        ) == FsmState::Warning(now),
        next_state(FsmState::Driving, e, ctx, now) != FsmState::Off,
        forall|r: u16|
            r <= RPM_GREENLINE_THRESHOLD ==> #[trigger] next_state(
                FsmState::Driving,
                FsmEvent::UpdateRpm(r),
                ctx,
                now,
            ) == FsmState::Driving,
        forall|v: u8|
            v > 0 ==> #[trigger] next_state(FsmState::Driving, FsmEvent::UpdateSpeed(v), ctx, now)
                == FsmState::Driving,
{
}

/// From `Idle`: power-off turns the vehicle `Off`, an RPM above 1000 makes it
/// `Driving`, and every other event keeps it `Idle`; it never warns directly.
pub proof fn law_idle_transitions(e: FsmEvent, ctx: VehicleContext, now: u64)
    ensures
        (next_state(FsmState::Idle, e, ctx, now) == FsmState::Off) <==> e == FsmEvent::PowerOff,
        (next_state(FsmState::Idle, e, ctx, now) == FsmState::Driving) <==> (e matches FsmEvent::UpdateRpm(
            r,
        ) && r > 1000),
        !(next_state(FsmState::Idle, e, ctx, now) is Warning),
{
}

/// Powering on a healthy vehicle that is off always makes it `Idle`.
pub proof fn law_healthy_power_on_idles(ctx: VehicleContext, now: u64)
    requires
        ctx.fuel_level > 5,
        ctx.oil_pressure > 10,
        ctx.tyre_pressure_ok,
    ensures
        next_state(FsmState::Off, FsmEvent::PowerOn, ctx, now) == FsmState::Idle,
{
}

/// The outputs of a state change: entering `Warning` from `Driving` starts the
/// buzzer and logs the overspeed warning; leaving `Warning` for `Driving` or `Idle`
/// stops the buzzer; every other change publishes exactly one state sync; no
/// change emits nothing. The buzzer is stopped only when leaving a warning and
/// started only when entering one.
pub proof fn law_output_table(old: FsmState, new: FsmState)
    ensures
        old == new ==> transition_outputs(old, new).len() == 0,
        old == FsmState::Driving && new is Warning ==> transition_outputs(old, new) == seq![
            FsmActionView::StartBuzzer,
            FsmActionView::LogWarning("Overspeed detected!"@),
        ],
        old is Warning && (new == FsmState::Driving || new == FsmState::Idle) ==> transition_outputs(
            old,
            new,
        ) == seq![FsmActionView::StopBuzzer],
        old != new && !(old is Warning) && !(new is Warning) ==> transition_outputs(old, new)
            == seq![FsmActionView::PublishStateSync],
        transition_outputs(old, new).contains(FsmActionView::StopBuzzer) ==> old is Warning
            && !(new is Warning),
        transition_outputs(old, new).contains(FsmActionView::StartBuzzer) ==> new is Warning
            && !(old is Warning),
        transition_outputs(old, new).len() <= 2,
{
    let outs = transition_outputs(old, new);
    if outs.contains(FsmActionView::StopBuzzer) {
        let i = choose|i: int| 0 <= i < outs.len() && outs[i] == FsmActionView::StopBuzzer;
        assert(outs[i] == FsmActionView::StopBuzzer);
    }
    if outs.contains(FsmActionView::StartBuzzer) {
        let i = choose|i: int| 0 <= i < outs.len() && outs[i] == FsmActionView::StartBuzzer;
        assert(outs[i] == FsmActionView::StartBuzzer);
    }
}

/// A step writes the event's sensor payload into the context (RPM, speed, ambient
/// lux) and keeps every other sensor and health field; only the lighting state
/// may change besides.
pub proof fn law_step_applies_payload(s: FsmState, ctx: VehicleContext, e: FsmEvent, now: u64)
    ensures
        step_context(s, ctx, e, now).rpm == (match e {
            FsmEvent::UpdateRpm(r) => r,
            _ => ctx.rpm,
        }),
        step_context(s, ctx, e, now).speed == (match e {
            FsmEvent::UpdateSpeed(v) => v,
            _ => ctx.speed,
        }),
        step_context(s, ctx, e, now).ambient_lux == (match e {
            FsmEvent::UpdateAmbientLux(l) => l,
            _ => ctx.ambient_lux,
        }),
        step_context(s, ctx, e, now).fuel_level == ctx.fuel_level,
        step_context(s, ctx, e, now).oil_pressure == ctx.oil_pressure,
        step_context(s, ctx, e, now).tyre_pressure_ok == ctx.tyre_pressure_ok,
        forall|v: u8|
            #[trigger] step_context(s, ctx, FsmEvent::UpdateSpeed(v), now).speed == v,
        forall|r: u16| #[trigger] step_context(s, ctx, FsmEvent::UpdateRpm(r), now).rpm == r,
        forall|l: u16|
            #[trigger] step_context(s, ctx, FsmEvent::UpdateAmbientLux(l), now).ambient_lux == l,
{
}

/// The drive state a step lands in is the transition on the context that
/// carries the event's payload: e.g. a warning recovering on a tick after a
/// standstill was reported recovers to `Idle`.
pub proof fn law_step_decides_on_updated_context(
    s: FsmState,
    ctx: VehicleContext,
    e: FsmEvent,
    now: u64,
)
    ensures
        step_state(s, ctx, e, now) == next_state(s, e, step_context(s, ctx, e, now), now),
{
}

/// The lighting state after a step: a confirmation settles it (`On` / `Off`); a
/// lux update at or below the ON threshold turns settled-off lights into
/// `OnRequested` unless the vehicle ends the step off; one at or above the OFF
/// threshold turns settled-on lights into `OffRequested`; nothing else changes it.
pub proof fn law_step_lighting(s: FsmState, ctx: VehicleContext, e: FsmEvent, now: u64)
    ensures
        step_context(s, ctx, e, now).lighting_state == (match e {
            FsmEvent::CornerLightsOnConfirmed => LightingState::On,
            FsmEvent::CornerLightsOffConfirmed => LightingState::Off,
            FsmEvent::UpdateAmbientLux(lux) => {
                if ctx.lighting_state == LightingState::Off && lux <= LUX_ON_THRESHOLD && !(s is Off) {
                    LightingState::OnRequested
                } else if ctx.lighting_state == LightingState::On && lux >= LUX_OFF_THRESHOLD {
                    LightingState::OffRequested
                } else {
                    ctx.lighting_state
                }
            },
            _ => ctx.lighting_state,
        }),
{
}

/// A step requests the lights ON exactly for a lux update at or below the ON
/// threshold, with lights settled off and a vehicle that is not off; it requests
/// them OFF exactly for a lux update at or above the OFF threshold with lights on.
pub proof fn law_step_requests_exactly(s: FsmState, ctx: VehicleContext, e: FsmEvent, now: u64)
    ensures
        step_actions(s, ctx, e, now).contains(DomainActionView::RequestCornerLightsOn) <==> (
        ctx.lighting_state == LightingState::Off && !(s is Off) && (e matches FsmEvent::UpdateAmbientLux(
            lux,
        ) && lux <= LUX_ON_THRESHOLD)),
        step_actions(s, ctx, e, now).contains(DomainActionView::RequestCornerLightsOff) <==> (
        ctx.lighting_state == LightingState::On && (e matches FsmEvent::UpdateAmbientLux(lux) && lux
            >= LUX_OFF_THRESHOLD)),
{
    lemma_step_requests(s, ctx, e, now);
}

/// Domain intents of a transition's outputs, one for one and in order:
/// buzzer start/stop, the warning log with its text, and state sync.
pub proof fn law_step_intents_follow_outputs(s: FsmState, ctx: VehicleContext, e: FsmEvent, now: u64)
    ensures
        ({
            let outs = transition_outputs(s, step_state(s, ctx, e, now));
            let all = step_actions(s, ctx, e, now);
            &&& all.len() >= outs.len() + 1
            &&& forall|i: int|
                0 <= i < outs.len() ==> match #[trigger] outs[i] {
                    FsmActionView::StartBuzzer => all[i] == DomainActionView::StartBuzzer,
                    FsmActionView::StopBuzzer => all[i] == DomainActionView::StopBuzzer,
                    FsmActionView::PublishStateSync => all[i] == DomainActionView::PublishStateSync,
                    FsmActionView::LogWarning(m) => all[i] == DomainActionView::LogWarning(m),
                    FsmActionView::NoAction => false,
                }
        }),
{
    let next = step_state(s, ctx, e, now);
    let outs = transition_outputs(s, next);
    reveal_with_fuel(domain_actions_of, 3);
    if outs.len() == 2 {
        assert(outs.drop_last().drop_last() =~= Seq::<FsmActionView>::empty());
    } else if outs.len() == 1 {
        assert(outs.drop_last() =~= Seq::<FsmActionView>::empty());
    }
}

/// The transition table with its thresholds spelled out: an off vehicle becomes
/// `Idle` exactly on power-on with fuel above 5, oil pressure above 10 and tyres
/// ok; an idle one turns off on power-off and drives on an RPM above 1000; a
/// warning that began at `began_at` recovers only on a tick at least 5 s later
/// with RPM at most 5000, to `Idle` at a standstill and to `Driving` otherwise.
pub proof fn law_transition_thresholds(e: FsmEvent, ctx: VehicleContext, began_at: u64, now: u64)
    ensures
        next_state(FsmState::Off, e, ctx, now) == if e == FsmEvent::PowerOn && ctx.fuel_level > 5
            && ctx.oil_pressure > 10 && ctx.tyre_pressure_ok {
            FsmState::Idle
        } else {
            FsmState::Off
        },
        next_state(FsmState::Idle, e, ctx, now) == if e == FsmEvent::PowerOff {
            FsmState::Off
        } else if e matches FsmEvent::UpdateRpm(r) && r > 1000 {
            FsmState::Driving
        } else {
            FsmState::Idle
        },
        next_state(FsmState::Driving, e, ctx, now) == if e == FsmEvent::UpdateSpeed(0) {
            FsmState::Idle
        } else if e matches FsmEvent::UpdateRpm(r) && r > 6000 {
            FsmState::Warning(now)
        } else {
            FsmState::Driving
        },
        next_state(FsmState::Warning(began_at), e, ctx, now) == if e == FsmEvent::TimerTick && now
            >= began_at && now - began_at >= 5_000_000_000u64 && ctx.rpm <= 5000 {
            if ctx.speed == 0 {
                FsmState::Idle
            } else {
                FsmState::Driving
            }
        } else {
            FsmState::Warning(began_at)
        },
{
}

/// Lux hysteresis with its thresholds spelled out: settled-off lights of a vehicle
/// that is not off are requested ON exactly when the lux update is at most 30;
/// settled-on lights are requested OFF exactly when it is at least 45.
pub proof fn law_lux_thresholds(s: FsmState, ctx: VehicleContext, lux: u16, now: u64)
    ensures
        ctx.lighting_state == LightingState::Off && !(s is Off) ==> ((step_context(
            s,
            ctx,
            FsmEvent::UpdateAmbientLux(lux),
            now,
        ).lighting_state == LightingState::OnRequested) <==> lux <= 30),
        ctx.lighting_state == LightingState::On ==> ((step_context(
            s,
            ctx,
            FsmEvent::UpdateAmbientLux(lux),
            now,
        ).lighting_state == LightingState::OffRequested) <==> lux >= 45),
{
}

} // verus!
