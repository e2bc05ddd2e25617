//! FSM step contract: the single state-transition boundary
//! `step(current_state, current_ctx, event, now) -> StepResult`.
//!
//! - `event` payload is canonical input; `current_ctx` is the snapshot before the event.
//! - `next_state`: state after this event; `modified_ctx`: context after this event.
//! - `actions`: pure domain intents (no hardware/network calls).
//! - `transition_record`: audit snapshot for observability/replay.
use super::engine::{action_views, next_state, output, transition, transition_outputs};
use super::machineries::{
    FsmAction, FsmActionView, FsmEvent, FsmState, LightingState, VehicleContext,
};
use crate::vehicle_constants::{LUX_OFF_THRESHOLD, LUX_ON_THRESHOLD};
use crate::seq_views::{lemma_views_after_front_removal, views};
use vstd::prelude::*;

verus! {

#[derive(Debug, Clone, Copy, PartialEq, Eq, Structural)]
pub enum ActorModeHintFromDomain {
    Normal,
    Transitioning,
}

#[derive(Debug, Clone, PartialEq)]
pub enum DomainAction {
    StartBuzzer,
    StopBuzzer,
    PublishStateSync,
    LogWarning(String),
    RequestCornerLightsOn,
    RequestCornerLightsOff,
    EnterMode(ActorModeHintFromDomain),
}

/// Mathematical value of a [`DomainAction`].
pub enum DomainActionView {
    StartBuzzer,
    StopBuzzer,
    PublishStateSync,
    LogWarning(Seq<char>),
    RequestCornerLightsOn,
    RequestCornerLightsOff,
    EnterMode(ActorModeHintFromDomain),
}

impl View for DomainAction {
    type V = DomainActionView;

    open spec fn view(&self) -> DomainActionView {
        match self {
            DomainAction::StartBuzzer => DomainActionView::StartBuzzer,
            DomainAction::StopBuzzer => DomainActionView::StopBuzzer,
            DomainAction::PublishStateSync => DomainActionView::PublishStateSync,
            DomainAction::LogWarning(m) => DomainActionView::LogWarning(m@),
            DomainAction::RequestCornerLightsOn => DomainActionView::RequestCornerLightsOn,
            DomainAction::RequestCornerLightsOff => DomainActionView::RequestCornerLightsOff,
            DomainAction::EnterMode(h) => DomainActionView::EnterMode(*h),
        }
    }
}

#[derive(Debug, Clone, Copy, PartialEq, Eq, Structural)]
pub struct TransitionRecord {
    /// Monotonic time (nanoseconds) of the step.
    pub at: u64,
    pub event: FsmEvent,
    pub old_state: FsmState,
    pub next_state: FsmState,
    pub old_ctx: VehicleContext,
    pub current_ctx: VehicleContext,
}

#[derive(Debug, Clone, PartialEq)]
pub struct StepResult {
    pub next_state: FsmState,
    pub modified_ctx: VehicleContext,
    pub actions: Vec<DomainAction>,
    pub transition_record: TransitionRecord,
}

/// The context after the event's payload is applied (before lighting requests).
pub open spec fn context_with_event(ctx: VehicleContext, event: FsmEvent) -> VehicleContext {
    match event {
        FsmEvent::UpdateRpm(rpm) => VehicleContext { rpm, ..ctx },
        FsmEvent::UpdateSpeed(speed) => VehicleContext { speed, ..ctx },
        FsmEvent::UpdateAmbientLux(lux) => VehicleContext { ambient_lux: lux, ..ctx },
        FsmEvent::CornerLightsOnConfirmed => VehicleContext {
            lighting_state: LightingState::On,
            ..ctx
        },
        FsmEvent::CornerLightsOffConfirmed => VehicleContext {
            lighting_state: LightingState::Off,
            ..ctx
        },
        _ => ctx,
    }
}

/// The lighting request an event raises, given the lighting state before the
/// event and the drive state after it: the new lighting state and the request
/// to emit. While the vehicle is off the lights are kept off: no ON request.
pub open spec fn lighting_request(lighting: LightingState, event: FsmEvent, next: FsmState) -> Option<
    (LightingState, DomainActionView),
> {
    if lighting == LightingState::Off && !(next is Off) && (event matches FsmEvent::UpdateAmbientLux(
        lux,
    ) && lux <= LUX_ON_THRESHOLD) {
        Some((LightingState::OnRequested, DomainActionView::RequestCornerLightsOn))
    } else if lighting == LightingState::On && (event matches FsmEvent::UpdateAmbientLux(lux)
        && lux >= LUX_OFF_THRESHOLD) {
        Some((LightingState::OffRequested, DomainActionView::RequestCornerLightsOff))
    } else {
        None
    }
}

/// The domain intent an FSM action becomes, if any.
pub open spec fn domain_action_of(a: FsmActionView) -> Option<DomainActionView> {
    match a {
        FsmActionView::StartBuzzer => Some(DomainActionView::StartBuzzer),
        FsmActionView::StopBuzzer => Some(DomainActionView::StopBuzzer),
        FsmActionView::PublishStateSync => Some(DomainActionView::PublishStateSync),
        FsmActionView::LogWarning(m) => Some(DomainActionView::LogWarning(m)),
        FsmActionView::NoAction => None,
    }
}

/// The domain intents of a list of FSM actions, in order, with the empty ones dropped.
pub open spec fn domain_actions_of(s: Seq<FsmActionView>) -> Seq<DomainActionView>
    decreases s.len(),
{
    if s.len() == 0 {
        seq![]
    } else {
        let rest = domain_actions_of(s.drop_last());
        match domain_action_of(s.last()) {
            Some(d) => rest.push(d),
            None => rest,
        }
    }
}

/// Mode hint: transitioning while in warning, normal otherwise.
pub open spec fn mode_hint(s: FsmState) -> ActorModeHintFromDomain {
    if s is Warning {
        ActorModeHintFromDomain::Transitioning
    } else {
        ActorModeHintFromDomain::Normal
    }
}

/// Drive state after a step.
pub open spec fn step_state(s: FsmState, ctx: VehicleContext, e: FsmEvent, now: u64) -> FsmState {
    next_state(s, e, context_with_event(ctx, e), now)
}

/// Context after a step.
pub open spec fn step_context(s: FsmState, ctx: VehicleContext, e: FsmEvent, now: u64) -> VehicleContext {
    match lighting_request(ctx.lighting_state, e, step_state(s, ctx, e, now)) {
        Some((l, _)) => VehicleContext { lighting_state: l, ..context_with_event(ctx, e) },
        None => context_with_event(ctx, e),
    }
}

/// Intents of a step: transition outputs, then the lighting request if any, then the mode hint.
pub open spec fn step_actions(s: FsmState, ctx: VehicleContext, e: FsmEvent, now: u64) -> Seq<
    DomainActionView,
> {
    let outs = domain_actions_of(transition_outputs(s, step_state(s, ctx, e, now)));
    let with_lights = match lighting_request(ctx.lighting_state, e, step_state(s, ctx, e, now)) {
        Some((_, req)) => outs.push(req),
        None => outs,
    };
    with_lights.push(DomainActionView::EnterMode(mode_hint(step_state(s, ctx, e, now))))
}

/// The mathematical values of a list of intents.
pub open spec fn domain_action_views(actions: Seq<DomainAction>) -> Seq<DomainActionView> {
    views(actions)
}

pub fn step(
    current_state: &FsmState,
    current_ctx: &VehicleContext,
    event: &FsmEvent,
    now: u64,
) -> (r: StepResult)
    ensures
        r.next_state == step_state(*current_state, *current_ctx, *event, now),
        r.modified_ctx == step_context(*current_state, *current_ctx, *event, now),
        domain_action_views(r.actions@) == step_actions(*current_state, *current_ctx, *event, now),
        r.transition_record == (TransitionRecord {
            at: now,
            event: *event,
            old_state: *current_state,
            next_state: r.next_state,
            old_ctx: *current_ctx,
            current_ctx: r.modified_ctx,
        }),
{
    let mut modified_ctx = *current_ctx;
    match event {
        FsmEvent::UpdateRpm(rpm) => modified_ctx.rpm = *rpm,
        FsmEvent::UpdateSpeed(speed) => modified_ctx.speed = *speed,
        FsmEvent::UpdateAmbientLux(lux) => modified_ctx.ambient_lux = *lux,
        FsmEvent::CornerLightsOnConfirmed => modified_ctx.lighting_state = LightingState::On,
        FsmEvent::CornerLightsOffConfirmed => modified_ctx.lighting_state = LightingState::Off,
        FsmEvent::PowerOn
        | FsmEvent::PowerOff
        | FsmEvent::TimerTick
        | FsmEvent::CornerLightsActuationIncomplete { .. } => {},
    }
    assert(modified_ctx == context_with_event(*current_ctx, *event));

    let next_state = transition(current_state, event, &modified_ctx, now);
    let fsm_actions = output(current_state, &next_state);
    let mut actions = map_fsm_actions(fsm_actions);

    // While the vehicle is off the lights are kept off: no ON request.
    let powered_off = match next_state {
        FsmState::Off => true,
        _ => false,
    };
    match (current_ctx.lighting_state, event) {
        (LightingState::Off, FsmEvent::UpdateAmbientLux(lux)) => {
            if *lux <= LUX_ON_THRESHOLD && !powered_off {
                modified_ctx.lighting_state = LightingState::OnRequested;
                actions.push(DomainAction::RequestCornerLightsOn);
            }
        },
        (LightingState::On, FsmEvent::UpdateAmbientLux(lux)) => {
            if *lux >= LUX_OFF_THRESHOLD {
                modified_ctx.lighting_state = LightingState::OffRequested;
                actions.push(DomainAction::RequestCornerLightsOff);
            }
        },
        _ => {},
    }

    match next_state {
        FsmState::Warning(_) => {
            actions.push(DomainAction::EnterMode(ActorModeHintFromDomain::Transitioning))
        },
        _ => actions.push(DomainAction::EnterMode(ActorModeHintFromDomain::Normal)),
    }
    assert(domain_action_views(actions@) =~= step_actions(
        *current_state,
        *current_ctx,
        *event,
        now,
    ));

    StepResult {
        next_state,
        modified_ctx,
        actions,
        transition_record: TransitionRecord {
            at: now,
            event: *event,
            old_state: *current_state,
            next_state,
            old_ctx: *current_ctx,
            current_ctx: modified_ctx,
        },
    }
}

/// Maps each FSM action onto its domain intent, dropping those with none, in order.
fn map_fsm_actions(fsm_actions: Vec<FsmAction>) -> (r: Vec<DomainAction>)
    ensures
        domain_action_views(r@) == domain_actions_of(action_views(fsm_actions@)),
{
    let mut r: Vec<DomainAction> = Vec::new();
    let mut rest = fsm_actions;
    let ghost all = action_views(fsm_actions@);
    let n = rest.len();
    let mut i: usize = 0;
    while i < n
        invariant
            n == all.len(),
            i <= n,
            rest@.len() == n - i,
            action_views(rest@) == all.skip(i as int),
            domain_action_views(r@) == domain_actions_of(all.take(i as int)),
        decreases n - i,
    {
        let ghost before = rest@;
        let a = rest.remove(0);
        proof {
            lemma_views_after_front_removal(before, all, i as int);
            assert(all.take(i + 1).drop_last() =~= all.take(i as int));
        }
        match map_fsm_action(a) {
            Some(d) => r.push(d),
            None => {},
        }
        proof {
            assert(domain_action_views(r@) =~= domain_actions_of(all.take(i + 1)));
        }
        i = i + 1;
    }
    assert(all.take(n as int) =~= all);
    r
}

fn map_fsm_action(action: FsmAction) -> (r: Option<DomainAction>)
    ensures
        match domain_action_of(action@) {
            Some(d) => r matches Some(x) && x@ == d,
            None => r is None,
        },
{
    match action {
        FsmAction::StartBuzzer => Some(DomainAction::StartBuzzer),
        FsmAction::StopBuzzer => Some(DomainAction::StopBuzzer),
        FsmAction::PublishStateSync => Some(DomainAction::PublishStateSync),
        FsmAction::LogWarning(msg) => Some(DomainAction::LogWarning(msg)),
        FsmAction::NoAction => None,
    }
}

} // verus!
