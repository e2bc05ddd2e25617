//! Decisions of the digital-twin actor: how one mailbox FSM event changes the
//! twin, which transition record is emitted, which intents are executed and
//! which mailbox mode follows. The actor runtime performs the I/O around them.
use crate::digital_twin::DigitalTwinCar;
use crate::fsm::machineries::default_context;
use crate::fsm::laws::law_single_trailing_mode_hint;
use crate::fsm::step::{
    domain_action_views, mode_hint, step_actions, step_context, step_state, DomainActionView,
};
use crate::fsm::{
    step, ActorModeHintFromDomain, DomainAction, FsmEvent, FsmState, TransitionRecord,
    VehicleContext,
};
use crate::seq_views::lemma_views_after_front_removal;
use vstd::prelude::*;

verus! {

/// A transition record stamped with the twin's identity and its emission number.
#[derive(Debug, Clone, PartialEq)]
pub struct RawTransitionRecord {
    pub car_identity: String,
    pub sequence_no: u64,
    pub transition: TransitionRecord,
}

/// Mutable state of the twin actor.
#[derive(Debug, Clone)]
pub struct VirtualCarRuntimeState {
    pub twin_car: DigitalTwinCar,
    /// Number the next emitted transition record gets.
    pub next_sequence_no: u64,
}

impl VirtualCarRuntimeState {
    /// A fresh twin: off, default context, first record numbered 1.
    pub fn new(identity: String) -> (r: Self)
        ensures
            r.twin_car.identity == identity,
            r.twin_car.current_state == FsmState::Off,
            r.twin_car.context == default_context(),
            r.next_sequence_no == 1,
    {
        VirtualCarRuntimeState {
            twin_car: DigitalTwinCar {
                identity,
                current_state: FsmState::Off,
                context: VehicleContext::default(),
            },
            next_sequence_no: 1,
        }
    }
}

/// Mailbox mode of the actor.
#[derive(Debug, Clone, Copy, PartialEq, Eq, Structural)]
pub enum ActorMode {
    Normal,
    Transitioning,
}

pub open spec fn mode_of_hint(h: ActorModeHintFromDomain) -> ActorMode {
    match h {
        ActorModeHintFromDomain::Normal => ActorMode::Normal,
        ActorModeHintFromDomain::Transitioning => ActorMode::Transitioning,
    }
}

/// The intents of a list that the runtime executes: all but the mode hints, in order.
pub open spec fn executed_actions(s: Seq<DomainActionView>) -> Seq<DomainActionView>
    decreases s.len(),
{
    if s.len() == 0 {
        seq![]
    } else {
        let rest = executed_actions(s.drop_last());
        if s.last() is EnterMode {
            rest
        } else {
            rest.push(s.last())
        }
    }
}

/// The mode a list of intents leaves the actor in: the last mode hint, `init` if none.
pub open spec fn final_mode(s: Seq<DomainActionView>, init: ActorMode) -> ActorMode
    decreases s.len(),
{
    if s.len() == 0 {
        init
    } else {
        match s.last() {
            DomainActionView::EnterMode(h) => mode_of_hint(h),
            _ => final_mode(s.drop_last(), init),
        }
    }
}

/// The actor executes every intent of a step except its trailing mode hint, in
/// order, and takes the mode that the step hints.
pub proof fn law_actor_executes_all_but_mode_hint(
    s: FsmState,
    ctx: VehicleContext,
    e: FsmEvent,
    now: u64,
)
    ensures
        executed_actions(step_actions(s, ctx, e, now)) == step_actions(s, ctx, e, now).drop_last(),
        final_mode(step_actions(s, ctx, e, now), ActorMode::Normal) == mode_of_hint(
            mode_hint(step_state(s, ctx, e, now)),
        ),
{
    let all = step_actions(s, ctx, e, now);
    law_single_trailing_mode_hint(s, ctx, e, now);
    lemma_executed_without_hints(all.drop_last());
    assert(all.drop_last() == all.take(all.len() - 1));
}

/// A list without mode hints is executed as it is.
proof fn lemma_executed_without_hints(s: Seq<DomainActionView>)
    requires
        forall|i: int| 0 <= i < s.len() ==> !(#[trigger] s[i] is EnterMode),
    ensures
        executed_actions(s) == s,
    decreases s.len(),
{
    if s.len() > 0 {
        assert forall|i: int| 0 <= i < s.drop_last().len() implies !(
        #[trigger] s.drop_last()[i] is EnterMode) by {
            assert(s.drop_last()[i] == s[i]);
        }
        lemma_executed_without_hints(s.drop_last());
        assert(s.drop_last().push(s.last()) =~= s);
    }
}

/// What handling one FSM event produced.
#[derive(Debug, Clone, PartialEq)]
pub struct FsmEventOutcome {
    /// Drive state before the event.
    pub old_state: FsmState,
    /// Record for the transition sink; present only when a sink is attached.
    pub record: Option<RawTransitionRecord>,
    /// Intents for the actuation manager, in order.
    pub actions: Vec<DomainAction>,
    /// Mailbox mode after the event.
    pub mode: ActorMode,
}

/// Applies one FSM event to the twin: persists the step's state and context
/// first, then numbers the transition record when a sink is attached.
pub fn handle_fsm_event(
    runtime_state: &mut VirtualCarRuntimeState,
    evt: FsmEvent,
    now: u64,
    sink_attached: bool,
) -> (out: FsmEventOutcome)
    ensures
        ({
            let old_twin = old(runtime_state).twin_car;
            let new_twin = final(runtime_state).twin_car;
            let all = step_actions(old_twin.current_state, old_twin.context, evt, now);
            &&& new_twin.identity == old_twin.identity
            &&& new_twin.current_state == step_state(
                old_twin.current_state,
                old_twin.context,
                evt,
                now,
            )
            &&& new_twin.context == step_context(old_twin.current_state, old_twin.context, evt, now)
            &&& out.old_state == old_twin.current_state
            &&& domain_action_views(out.actions@) == executed_actions(all)
            &&& domain_action_views(out.actions@) == all.drop_last()
            &&& out.mode == final_mode(all, ActorMode::Normal)
            &&& out.mode == mode_of_hint(mode_hint(new_twin.current_state))
            &&& if sink_attached {
                &&& out.record == Some(
                    RawTransitionRecord {
                        car_identity: old_twin.identity,
                        sequence_no: old(runtime_state).next_sequence_no,
                        transition: TransitionRecord {
                            at: now,
                            event: evt,
                            old_state: old_twin.current_state,
                            next_state: new_twin.current_state,
                            old_ctx: old_twin.context,
                            current_ctx: new_twin.context,
                        },
                    },
                )
                &&& final(runtime_state).next_sequence_no == if old(runtime_state).next_sequence_no
                    == u64::MAX {
                    u64::MAX
                } else {
                    (old(runtime_state).next_sequence_no + 1) as u64
                }
            } else {
                &&& out.record is None
                &&& final(runtime_state).next_sequence_no == old(runtime_state).next_sequence_no
            }
        }),
{
    let result = step(&runtime_state.twin_car.current_state, &runtime_state.twin_car.context, &evt, now);
    let old_state = runtime_state.twin_car.current_state;

    // Persist actor state first (ordering before transition record emission).
    runtime_state.twin_car.current_state = result.next_state;
    runtime_state.twin_car.context = result.modified_ctx;

    let record = if sink_attached {
        let sequence_no = runtime_state.next_sequence_no;
        runtime_state.next_sequence_no = runtime_state.next_sequence_no.saturating_add(1);
        Some(
            RawTransitionRecord {
                car_identity: runtime_state.twin_car.identity.clone(),
                sequence_no,
                transition: result.transition_record,
            },
        )
    } else {
        None
    };

    let ghost all = domain_action_views(result.actions@);
    let mut rest = result.actions;
    let n = rest.len();
    let mut executed: Vec<DomainAction> = Vec::new();
    let mut mode = ActorMode::Normal;
    let mut i: usize = 0;
    while i < n
        invariant
            n == all.len(),
            i <= n,
            rest@.len() == n - i,
            domain_action_views(rest@) == all.skip(i as int),
            domain_action_views(executed@) == executed_actions(all.take(i as int)),
            mode == final_mode(all.take(i as int), ActorMode::Normal),
        decreases n - i,
    {
        let ghost before = rest@;
        let action = rest.remove(0);
        proof {
            lemma_views_after_front_removal(before, all, i as int);
            assert(all.take(i + 1).drop_last() =~= all.take(i as int));
        }
        match action {
            DomainAction::EnterMode(hint) => {
                mode = match hint {
                    ActorModeHintFromDomain::Normal => ActorMode::Normal,
                    ActorModeHintFromDomain::Transitioning => ActorMode::Transitioning,
                };
            },
            other => executed.push(other),
        }
        proof {
            assert(domain_action_views(executed@) =~= executed_actions(all.take(i + 1)));
        }
        i = i + 1;
    }
    proof {
        assert(all.take(n as int) =~= all);
        law_actor_executes_all_but_mode_hint(old_state, old(runtime_state).twin_car.context, evt, now);
    }
    FsmEventOutcome { old_state, record, actions: executed, mode }
}

} // verus!
