use sdv_twin::devices::corner_lights::codec::{
    CornerLightActuationPayload, KIND_ACK_OFF, KIND_ACK_ON, KIND_CMD_ON, KIND_NACK_ON,
};
use sdv_twin::devices::corner_lights::policy::{CornerLightPolicy, CornerLightPolicyDecision};
use sdv_twin::{ActuationCommand, CorrelationId, PhysicalCarVocabulary};

fn corr(session: u64, sequence: u64) -> CorrelationId {
    CorrelationId {
        source_id: "test".to_string(),
        session_id: session,
        sequence_no: sequence,
    }
}

#[test]
fn accepts_matching_ack_for_pending_command() {
    let mut policy = CornerLightPolicy::default();
    policy.on_command_sent(&ActuationCommand::SwitchCornerLightsOn {
        correlation_id: corr(0x1234, 0xabcdef01),
    });
    let decision = policy.on_response(CornerLightActuationPayload {
        kind: KIND_ACK_ON,
        session_id: 0x1234,
        sequence_no: 0xabcdef01,
    });
    assert!(matches!(
        decision,
        CornerLightPolicyDecision::Accept {
            physical: PhysicalCarVocabulary::CornerLightsCommandConfirmed { on_command: true },
            session: 0x1234,
            sequence: 0xabcdef01
        }
    ));
}

#[test]
fn rejects_correlation_mismatch() {
    let mut policy = CornerLightPolicy::default();
    policy.on_command_sent(&ActuationCommand::SwitchCornerLightsOn {
        correlation_id: corr(0x1234, 0xabcdef01),
    });
    let decision = policy.on_response(CornerLightActuationPayload {
        kind: KIND_ACK_ON,
        session_id: 0x9999,
        sequence_no: 0xabcdef01,
    });
    assert!(matches!(
        decision,
        CornerLightPolicyDecision::Ignore("correlation-mismatch")
    ));
}

#[test]
fn ignores_duplicate_after_acceptance() {
    let mut policy = CornerLightPolicy::default();
    policy.on_command_sent(&ActuationCommand::SwitchCornerLightsOn {
        correlation_id: corr(0x1234, 0xabcdef01),
    });
    let _ = policy.on_response(CornerLightActuationPayload {
        kind: KIND_ACK_ON,
        session_id: 0x1234,
        sequence_no: 0xabcdef01,
    });
    let duplicate = policy.on_response(CornerLightActuationPayload {
        kind: KIND_ACK_ON,
        session_id: 0x1234,
        sequence_no: 0xabcdef01,
    });
    assert!(matches!(
        duplicate,
        CornerLightPolicyDecision::Ignore("no-pending-command")
    ));
}

#[test]
fn ignores_response_in_wrong_direction_and_keeps_pending() {
    let mut policy = CornerLightPolicy::default();
    policy.on_command_sent(&ActuationCommand::SwitchCornerLightsOn {
        correlation_id: corr(7, 8),
    });
    let wrong = policy.on_response(CornerLightActuationPayload { kind: KIND_ACK_OFF, session_id: 7, sequence_no: 8 });
    assert!(matches!(wrong, CornerLightPolicyDecision::Ignore("direction-mismatch")));
    let right = policy.on_response(CornerLightActuationPayload { kind: KIND_ACK_ON, session_id: 7, sequence_no: 8 });
    assert!(matches!(right, CornerLightPolicyDecision::Accept { session: 7, sequence: 8, .. }));
}

#[test]
fn ignores_command_frames_and_unknown_kinds() {
    let mut policy = CornerLightPolicy::default();
    policy.on_command_sent(&ActuationCommand::SwitchCornerLightsOn { correlation_id: corr(1, 2) });
    let echo = policy.on_response(CornerLightActuationPayload { kind: KIND_CMD_ON, session_id: 1, sequence_no: 2 });
    assert!(matches!(echo, CornerLightPolicyDecision::Ignore("command-frame")));
    let unknown = policy.on_response(CornerLightActuationPayload { kind: 0x55, session_id: 1, sequence_no: 2 });
    assert!(matches!(unknown, CornerLightPolicyDecision::Ignore("unknown-kind")));
    let nothing_pending = CornerLightPolicy::default().on_response(CornerLightActuationPayload { kind: KIND_ACK_ON, session_id: 1, sequence_no: 2 });
    assert!(matches!(nothing_pending, CornerLightPolicyDecision::Ignore("no-pending-command")));
}

#[test]
fn accepts_nack_as_rejection() {
    let mut policy = CornerLightPolicy::default();
    policy.on_command_sent(&ActuationCommand::SwitchCornerLightsOn { correlation_id: corr(3, 4) });
    let d = policy.on_response(CornerLightActuationPayload { kind: KIND_NACK_ON, session_id: 3, sequence_no: 4 });
    assert!(matches!(
        d,
        CornerLightPolicyDecision::Accept {
            physical: PhysicalCarVocabulary::CornerLightsCommandRejected { on_command: true },
            session: 3,
            sequence: 4
        }
    ));
}

#[test]
fn later_command_replaces_pending_and_compares_truncated_correlation() {
    let mut policy = CornerLightPolicy::default();
    policy.on_command_sent(&ActuationCommand::SwitchCornerLightsOn { correlation_id: corr(1, 1) });
    policy.on_command_sent(&ActuationCommand::SwitchCornerLightsOff {
        correlation_id: corr(0x1_0005, 0x1_0000_0006),
    });
    let old = policy.on_response(CornerLightActuationPayload { kind: KIND_ACK_ON, session_id: 1, sequence_no: 1 });
    assert!(matches!(old, CornerLightPolicyDecision::Ignore("correlation-mismatch")));
    let new = policy.on_response(CornerLightActuationPayload { kind: KIND_ACK_OFF, session_id: 5, sequence_no: 6 });
    assert!(matches!(
        new,
        CornerLightPolicyDecision::Accept {
            physical: PhysicalCarVocabulary::CornerLightsCommandConfirmed { on_command: false },
            ..
        }
    ));
}
