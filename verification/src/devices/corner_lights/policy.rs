//! Acceptance policy for corner-light responses: a response is accepted only
//! for the one pending command, with matching correlation and direction.
use crate::corner_light_actuation_can::{
    ack_kind, command_kind, command_payload, nack_kind, physical_of_payload, wire_meta,
};
use crate::devices::corner_lights::codec::{
    payload_to_physical, CornerLightActuationPayload, KIND_ACK_OFF, KIND_ACK_ON, KIND_CMD_OFF,
    KIND_CMD_ON, KIND_NACK_OFF, KIND_NACK_ON,
};
use crate::domain_types::PhysicalCarVocabulary;
use crate::engine::controller::actuation_contract::command_is_on;
use crate::engine::controller::ActuationCommand;
use vstd::prelude::*;

verus! {

/// The command awaiting a response, by its wire correlation and direction.
#[derive(Debug, Clone, Copy, PartialEq, Eq, Structural)]
pub struct PendingCornerLightCommand {
    pub session: u16,
    pub sequence: u32,
    pub on_command: bool,
}

#[derive(Debug, Clone)]
pub enum CornerLightPolicyDecision {
    Accept { physical: PhysicalCarVocabulary, session: u16, sequence: u32 },
    Ignore(&'static str),
}

/// Mathematical value of a decision: the reason of an `Ignore` as characters.
pub enum PolicyDecisionView {
    Accept { physical: PhysicalCarVocabulary, session: u16, sequence: u32 },
    Ignore(Seq<char>),
}

impl View for CornerLightPolicyDecision {
    type V = PolicyDecisionView;

    open spec fn view(&self) -> PolicyDecisionView {
        match self {
            CornerLightPolicyDecision::Accept { physical, session, sequence } => {
                PolicyDecisionView::Accept {
                    physical: *physical,
                    session: *session,
                    sequence: *sequence,
                }
            },
            CornerLightPolicyDecision::Ignore(reason) => PolicyDecisionView::Ignore(reason@),
        }
    }
}

#[derive(Debug)]
pub struct CornerLightPolicy {
    pending: Option<PendingCornerLightCommand>,
}

impl View for CornerLightPolicy {
    type V = Option<PendingCornerLightCommand>;

    /// The pending command, if any.
    closed spec fn view(&self) -> Option<PendingCornerLightCommand> {
        self.pending
    }
}

impl Default for CornerLightPolicy {
    fn default() -> (r: Self)
        ensures
            r@ is None,
    {
        CornerLightPolicy { pending: None }
    }
}

/// `(on_command, is_ack)` of a response kind; `None` for every other kind.
pub open spec fn response_kind(kind: u8) -> Option<(bool, bool)> {
    if kind == KIND_ACK_ON {
        Some((true, true))
    } else if kind == KIND_ACK_OFF {
        Some((false, true))
    } else if kind == KIND_NACK_ON {
        Some((true, false))
    } else if kind == KIND_NACK_OFF {
        Some((false, false))
    } else {
        None
    }
}

/// The pending entry a sent command leaves.
pub open spec fn pending_for(cmd: ActuationCommand) -> PendingCornerLightCommand {
    PendingCornerLightCommand {
        session: wire_meta(cmd).0,
        sequence: wire_meta(cmd).1,
        on_command: command_is_on(cmd),
    }
}

/// The decision on a response, given the pending command.
pub open spec fn response_decision(
    pending: Option<PendingCornerLightCommand>,
    payload: CornerLightActuationPayload,
) -> PolicyDecisionView {
    match response_kind(payload.kind) {
        None => PolicyDecisionView::Ignore(
            if payload.kind == KIND_CMD_ON || payload.kind == KIND_CMD_OFF {
                "command-frame"@
            } else {
                "unknown-kind"@
            },
        ),
        Some((on_command, _)) => match pending {
            None => PolicyDecisionView::Ignore("no-pending-command"@),
            Some(p) => {
                if p.session != payload.session_id || p.sequence != payload.sequence_no {
                    PolicyDecisionView::Ignore("correlation-mismatch"@)
                } else if p.on_command != on_command {
                    PolicyDecisionView::Ignore("direction-mismatch"@)
                } else {
                    PolicyDecisionView::Accept {
                        physical: physical_of_payload(payload)->0,
                        session: payload.session_id,
                        sequence: payload.sequence_no,
                    }
                }
            },
        },
    }
}

impl CornerLightPolicy {
    /// Remembers the command just sent as the one pending (replacing any earlier one).
    pub fn on_command_sent(&mut self, cmd: &ActuationCommand)
        ensures
            final(self)@ == Some(pending_for(*cmd)),
    {
        let (session, sequence) = crate::corner_light_actuation_can::actuation_command_wire_meta(
            cmd,
        );
        let pending = match cmd {
            ActuationCommand::SwitchCornerLightsOn { .. } => PendingCornerLightCommand {
                session,
                sequence,
                on_command: true,
            },
            ActuationCommand::SwitchCornerLightsOff { .. } => PendingCornerLightCommand {
                session,
                sequence,
                on_command: false,
            },
        };
        self.pending = Some(pending);
    }

    /// Decides on a response; an accepted response clears the pending command,
    /// an ignored one leaves it as it was.
    pub fn on_response(&mut self, payload: CornerLightActuationPayload) -> (r:
        CornerLightPolicyDecision)
        ensures
            r@ == response_decision(old(self)@, payload),
            final(self)@ == if r is Accept {
                None
            } else {
                old(self)@
            },
    {
        let response_type = match payload.kind {
            KIND_ACK_ON => Some((true, true)),
            KIND_ACK_OFF => Some((false, true)),
            KIND_NACK_ON => Some((true, false)),
            KIND_NACK_OFF => Some((false, false)),
            KIND_CMD_ON | KIND_CMD_OFF => return CornerLightPolicyDecision::Ignore("command-frame"),
            _ => return CornerLightPolicyDecision::Ignore("unknown-kind"),
        };

        let (response_on_command, is_ack) = match response_type {
            Some(t) => t,
            None => return CornerLightPolicyDecision::Ignore("unknown-kind"),
        };
        let pending = match self.pending {
            Some(p) => p,
            None => return CornerLightPolicyDecision::Ignore("no-pending-command"),
        };
        if pending.session != payload.session_id || pending.sequence != payload.sequence_no {
            return CornerLightPolicyDecision::Ignore("correlation-mismatch");
        }
        if pending.on_command != response_on_command {
            return CornerLightPolicyDecision::Ignore("direction-mismatch");
        }

        let physical = match payload_to_physical(payload) {
            Some(p) => p,
            None => return CornerLightPolicyDecision::Ignore("non-ingress-kind"),
        };
        let confirmed = match physical {
            PhysicalCarVocabulary::CornerLightsCommandConfirmed { .. } => true,
            _ => false,
        };
        if is_ack != confirmed {
            return CornerLightPolicyDecision::Ignore("ack-kind-mapping-mismatch");
        }

        self.pending = None;
        CornerLightPolicyDecision::Accept {
            physical,
            session: payload.session_id,
            sequence: payload.sequence_no,
        }
    }
}

/// The decision on any response: ACK ON (0x81), ACK OFF (0x82), NACK ON (0xC1)
/// and NACK OFF (0xC2) are accepted exactly when a command is pending with the
/// same session, the same sequence number and the same direction, and are then
/// reported as a confirmation (ACK) or a rejection (NACK) of that direction with
/// the payload's correlation. Otherwise the reason is, in this order: a command
/// kind (0x01, 0x02) is a "command-frame", any other kind is "unknown-kind",
/// nothing pending is "no-pending-command", another session or sequence number
/// is a "correlation-mismatch", and the other direction a "direction-mismatch".
pub proof fn law_response_decision_table(
    pending: Option<PendingCornerLightCommand>,
    payload: CornerLightActuationPayload,
)
    ensures
        ({
            let k = payload.kind;
            let is_response = k == 0x81 || k == 0x82 || k == 0xC1 || k == 0xC2;
            let on = k == 0x81 || k == 0xC1;
            let d = response_decision(pending, payload);
            &&& (d is Accept) <==> (is_response && pending is Some && pending->0.session
                == payload.session_id && pending->0.sequence == payload.sequence_no
                && pending->0.on_command == on)
            &&& d is Accept ==> d == (PolicyDecisionView::Accept {
                physical: if k == 0x81 || k == 0x82 {
                    PhysicalCarVocabulary::CornerLightsCommandConfirmed { on_command: on }
                } else {
                    PhysicalCarVocabulary::CornerLightsCommandRejected { on_command: on }
                },
                session: payload.session_id,
                sequence: payload.sequence_no,
            })
            &&& (k == 0x01 || k == 0x02) ==> d == PolicyDecisionView::Ignore("command-frame"@)
            &&& (!is_response && k != 0x01 && k != 0x02) ==> d == PolicyDecisionView::Ignore(
                "unknown-kind"@,
            )
            &&& (is_response && pending is None) ==> d == PolicyDecisionView::Ignore(
                "no-pending-command"@,
            )
            &&& (is_response && pending is Some && (pending->0.session != payload.session_id
                || pending->0.sequence != payload.sequence_no)) ==> d
                == PolicyDecisionView::Ignore("correlation-mismatch"@)
            &&& (is_response && pending is Some && pending->0.session == payload.session_id
                && pending->0.sequence == payload.sequence_no && pending->0.on_command != on)
                ==> d == PolicyDecisionView::Ignore("direction-mismatch"@)
        }),
{
}

/// The ACK or NACK answering the command just sent is accepted, as a confirmation
/// or a rejection of that command's direction, with the command's wire correlation.
pub proof fn law_answer_to_pending_command_accepted(cmd: ActuationCommand, ack: bool)
    ensures
        response_decision(
            Some(pending_for(cmd)),
            command_payload(if ack { ack_kind(cmd) } else { nack_kind(cmd) }, cmd),
        ) == (PolicyDecisionView::Accept {
            physical: if ack {
                PhysicalCarVocabulary::CornerLightsCommandConfirmed {
                    on_command: command_is_on(cmd),
                }
            } else {
                PhysicalCarVocabulary::CornerLightsCommandRejected {
                    on_command: command_is_on(cmd),
                }
            },
            session: wire_meta(cmd).0,
            sequence: wire_meta(cmd).1,
        }),
{
}

/// With nothing pending (e.g. once a response was accepted), every response is ignored.
pub proof fn law_nothing_pending_ignores_all(payload: CornerLightActuationPayload)
    ensures
        response_decision(None, payload) is Ignore,
{
}

/// A command frame echoed on the bus is never taken as a response.
pub proof fn law_command_frames_ignored(
    pending: Option<PendingCornerLightCommand>,
    cmd: ActuationCommand,
)
    ensures
        response_decision(pending, command_payload(command_kind(cmd), cmd))
            == PolicyDecisionView::Ignore("command-frame"@),
{
}

/// An accepted response is reported with the physical vocabulary ingress maps it to,
/// and only for the pending command's correlation and direction.
pub proof fn law_accept_agrees_with_ingress(
    pending: Option<PendingCornerLightCommand>,
    payload: CornerLightActuationPayload,
)
    requires
        response_decision(pending, payload) is Accept,
    ensures
        physical_of_payload(payload) == Some(response_decision(pending, payload)->physical),
        pending is Some,
        pending->0.session == payload.session_id,
        pending->0.sequence == payload.sequence_no,
        response_kind(payload.kind) is Some,
        pending->0.on_command == (response_kind(payload.kind)->0).0,
{
}

} // verus!
