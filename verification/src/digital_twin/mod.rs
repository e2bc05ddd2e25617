//! Digital twin runtime model: snapshot, invariants, and actor mailbox vocabulary.
pub mod car_behaviour_checker;

use crate::fsm::machineries::healthy;
use crate::fsm::{FsmEvent, FsmState, VehicleContext};
use car_behaviour_checker::{
    kinetic_breach_message, kinetic_locking_holds, law_kinetic_locking_holds,
    law_rpm_above_threshold_holds, rpm_above_threshold_holds, stall_breach_message,
};
use ractor::RpcReplyPort;
use vstd::prelude::*;

verus! {

/// A reply port of the actor runtime; opaque here, it is only carried to the runtime.
#[verifier::external_type_specification]
#[verifier::external_body]
#[verifier::reject_recursive_types(TMsg)]
pub struct ExRpcReplyPort<TMsg>(ractor::RpcReplyPort<TMsg>);

/// Runtime snapshot of the vehicle digital twin: identity, FSM state, and sensor context.
#[derive(Debug, Clone)]
pub struct DigitalTwinCar {
    pub identity: String,
    /// The primary logical state of the digital twin
    pub current_state: FsmState,
    /// Sensor / health context associated with this twin
    pub context: VehicleContext,
}

/// The first safety law a snapshot breaks, as its report; `None` when all hold.
pub open spec fn invariant_violation(
    identity: Seq<char>,
    state: FsmState,
    ctx: VehicleContext,
) -> Option<Seq<char>> {
    if identity.len() == 0 {
        Some("identity must not be empty"@)
    } else if !healthy(ctx) {
        Some("vehicle context failed health invariants"@)
    } else if !kinetic_locking_holds(state, ctx) {
        Some(kinetic_breach_message(ctx.speed))
    } else if !rpm_above_threshold_holds(state, ctx) {
        Some(stall_breach_message())
    } else {
        None
    }
}

/// A snapshot passes every safety check exactly when its identity is non-empty,
/// its context is healthy (fuel above 5, oil pressure above 10, tyres ok), it is
/// not off while moving, and it is not driving below 500 RPM. A named, healthy
/// snapshot that is off while moving reports the kinetic breach; one driving
/// below 500 RPM reports the stall breach, whatever its speed.
pub proof fn law_invariant_report(identity: Seq<char>, state: FsmState, ctx: VehicleContext)
    ensures
        invariant_violation(identity, state, ctx) is None <==> (identity.len() > 0
            && ctx.fuel_level > 5 && ctx.oil_pressure > 10 && ctx.tyre_pressure_ok && !(state
            == FsmState::Off && ctx.speed > 0) && !(state == FsmState::Driving && ctx.rpm < 500)),
        identity.len() == 0 ==> invariant_violation(identity, state, ctx) == Some(
            "identity must not be empty"@,
        ),
        identity.len() > 0 && !(ctx.fuel_level > 5 && ctx.oil_pressure > 10
            && ctx.tyre_pressure_ok) ==> invariant_violation(identity, state, ctx) == Some(
            "vehicle context failed health invariants"@,
        ),
        identity.len() > 0 && ctx.fuel_level > 5 && ctx.oil_pressure > 10 && ctx.tyre_pressure_ok
            && state == FsmState::Off && ctx.speed > 0 ==> invariant_violation(identity, state, ctx)
            == Some(kinetic_breach_message(ctx.speed)),
        identity.len() > 0 && ctx.fuel_level > 5 && ctx.oil_pressure > 10 && ctx.tyre_pressure_ok
            && state == FsmState::Driving && ctx.rpm < 500 ==> invariant_violation(
            identity,
            state,
            ctx,
        ) == Some("Logic Breach: State is Driving but RPM is below stall levels"@),
{
}

impl DigitalTwinCar {
    /// Checks identity and context invariants on a snapshot (e.g. after `GetStatus`).
    /// Returns Ok(()) if all safety laws are satisfied, or an Err describing the violation.
    pub fn verify_all_invariants(&self) -> (r: Result<(), String>)
        ensures
            r is Ok <==> invariant_violation(self.identity@, self.current_state, self.context)
                is None,
            r matches Err(m) ==> invariant_violation(
                self.identity@,
                self.current_state,
                self.context,
            ) == Some(m@),
    {
        if self.identity.as_str().is_empty() {
            return Err("identity must not be empty".to_owned());
        }
        if !self.context.is_healthy() {
            return Err("vehicle context failed health invariants".to_owned());
        }
        match law_kinetic_locking_holds(&self.current_state, &self.context) {
            Err(m) => return Err(m),
            Ok(()) => {},
        }
        match law_rpm_above_threshold_holds(&self.current_state, &self.context) {
            Err(m) => return Err(m),
            Ok(()) => {},
        }
        Ok(())
    }
}

/// Actor mailbox vocabulary for the digital twin: FSM traffic plus request/reply.
#[derive(Debug)]
pub enum DigitalTwinCarVocabulary {
    /// Drive the FSM.
    Fsm(FsmEvent),
    /// Return a snapshot of the twin; does not drive the FSM.
    GetStatus(RpcReplyPort<DigitalTwinCar>),
}

impl From<FsmEvent> for DigitalTwinCarVocabulary {
    fn from(evt: FsmEvent) -> (r: Self) {
        DigitalTwinCarVocabulary::Fsm(evt)
    }
}

impl vstd::std_specs::convert::FromSpecImpl<FsmEvent> for DigitalTwinCarVocabulary {
    open spec fn obeys_from_spec() -> bool {
        true
    }

    open spec fn from_spec(evt: FsmEvent) -> DigitalTwinCarVocabulary {
        DigitalTwinCarVocabulary::Fsm(evt)
    }
}

/// Returned when a [`DigitalTwinCarVocabulary`] is not an [`FsmEvent`] wrapper.
#[derive(Debug, Clone, Copy, PartialEq, Eq, Structural)]
pub struct NotFsmVocabulary;

impl TryFrom<DigitalTwinCarVocabulary> for FsmEvent {
    type Error = NotFsmVocabulary;

    fn try_from(value: DigitalTwinCarVocabulary) -> (r: Result<FsmEvent, NotFsmVocabulary>) {
        match value {
            DigitalTwinCarVocabulary::Fsm(e) => Ok(e),
            DigitalTwinCarVocabulary::GetStatus(_) => Err(NotFsmVocabulary),
        }
    }
}

impl vstd::std_specs::convert::TryFromSpecImpl<DigitalTwinCarVocabulary> for FsmEvent {
    open spec fn obeys_try_from_spec() -> bool {
        true
    }

    open spec fn try_from_spec(value: DigitalTwinCarVocabulary) -> Result<
        FsmEvent,
        NotFsmVocabulary,
    > {
        match value {
            DigitalTwinCarVocabulary::Fsm(e) => Ok(e),
            DigitalTwinCarVocabulary::GetStatus(_) => Err(NotFsmVocabulary),
        }
    }
}

impl DigitalTwinCarVocabulary {
    /// Borrow the inner [`FsmEvent`] when this message is [`Self::Fsm`].
    pub fn as_fsm_event(&self) -> (r: Option<&FsmEvent>)
        ensures
            match self {
                DigitalTwinCarVocabulary::Fsm(e) => r == Some(e),
                DigitalTwinCarVocabulary::GetStatus(_) => r is None,
            },
    {
        match self {
            DigitalTwinCarVocabulary::Fsm(e) => Some(e),
            DigitalTwinCarVocabulary::GetStatus(_) => None,
        }
    }

    /// Take the inner [`FsmEvent`] when this message is [`Self::Fsm`].
    pub fn into_fsm_event(self) -> (r: Option<FsmEvent>)
        ensures
            match self {
                DigitalTwinCarVocabulary::Fsm(e) => r == Some(e),
                DigitalTwinCarVocabulary::GetStatus(_) => r is None,
            },
    {
        match self {
            DigitalTwinCarVocabulary::Fsm(e) => Some(e),
            DigitalTwinCarVocabulary::GetStatus(_) => None,
        }
    }
}

} // verus!
