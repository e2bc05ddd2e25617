//! Shared actuation command/feedback contracts, independent of the transport.
use crate::fsm::step::DomainActionView;
use crate::fsm::DomainAction;
use vstd::prelude::*;

verus! {

/// Correlation identity for command <-> feedback flows.
///
/// Scoped identity (`source_id`, `session_id`, `sequence_no`) instead of a
/// single global counter avoids uniqueness issues across restarts/processes.
#[derive(Debug, Clone, PartialEq, Eq, Hash)]
pub struct CorrelationId {
    pub source_id: String,
    pub session_id: u64,
    pub sequence_no: u64,
}

/// Outbound actuation intent emitted by controller runtime.
#[derive(Debug, Clone, PartialEq, Eq)]
pub enum ActuationCommand {
    SwitchCornerLightsOn { correlation_id: CorrelationId },
    SwitchCornerLightsOff { correlation_id: CorrelationId },
}

/// Inbound actuation feedback consumed by controller runtime.
#[derive(Debug, Clone, PartialEq, Eq)]
pub enum ActuationFeedback {
    CornerLightsOnConfirmed { correlation_id: CorrelationId },
    CornerLightsOffConfirmed { correlation_id: CorrelationId },
    CornerLightsActuationFailed { correlation_id: CorrelationId, reason: String },
}

/// The correlation identity a command carries.
pub open spec fn command_correlation(cmd: ActuationCommand) -> CorrelationId {
    match cmd {
        ActuationCommand::SwitchCornerLightsOn { correlation_id } => correlation_id,
        ActuationCommand::SwitchCornerLightsOff { correlation_id } => correlation_id,
    }
}

/// Whether a command switches the lights on.
pub open spec fn command_is_on(cmd: ActuationCommand) -> bool {
    cmd is SwitchCornerLightsOn
}

/// The actuator command a domain intent asks for, if it asks for one.
pub open spec fn command_for(action: DomainActionView, correlation_id: CorrelationId) -> Option<
    ActuationCommand,
> {
    match action {
        DomainActionView::RequestCornerLightsOn => Some(
            ActuationCommand::SwitchCornerLightsOn { correlation_id },
        ),
        DomainActionView::RequestCornerLightsOff => Some(
            ActuationCommand::SwitchCornerLightsOff { correlation_id },
        ),
        _ => None,
    }
}

/// The actuator command for a corner-light request, carrying `correlation_id`;
/// `None` for every other intent.
pub fn actuation_command_for(action: &DomainAction, correlation_id: CorrelationId) -> (r: Option<
    ActuationCommand,
>)
    ensures
        r == command_for(action@, correlation_id),
{
    match action {
        DomainAction::RequestCornerLightsOn => Some(
            ActuationCommand::SwitchCornerLightsOn { correlation_id },
        ),
        DomainAction::RequestCornerLightsOff => Some(
            ActuationCommand::SwitchCornerLightsOff { correlation_id },
        ),
        _ => None,
    }
}

} // verus!
