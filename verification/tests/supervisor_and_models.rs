use sdv_twin::emulator_models::target_phase_is_high;
use sdv_twin::gateway_fsm::handle_vehicle_event;
use sdv_twin::gateway_fsm::model::{OperationalState, VehicleContext};
use sdv_twin::gateway_fsm::transitions::decide_next_state;
use sdv_twin::{VehicleEvent, VssSignal};

const SEC: u64 = 1_000_000_000;

fn rpm(r: u16) -> VehicleEvent {
    VehicleEvent::TelemetryUpdate(VssSignal::EngineRpm(r))
}

#[test]
fn supervisor_warns_after_sustained_stress_and_recovers() {
    let mut ctx = VehicleContext::new();
    handle_vehicle_event(&mut ctx, rpm(6500), 1 * SEC);
    assert_eq!(ctx.rpm_stress_timer, Some(1 * SEC));
    assert_eq!(ctx.current_state, OperationalState::Operational);
    handle_vehicle_event(&mut ctx, rpm(6600), 3 * SEC);
    assert_eq!(ctx.rpm_stress_timer, Some(1 * SEC), "timer keeps its start");
    handle_vehicle_event(&mut ctx, VehicleEvent::TimerTick, 6 * SEC - 1);
    assert_eq!(ctx.current_state, OperationalState::Operational);
    handle_vehicle_event(&mut ctx, VehicleEvent::TimerTick, 6 * SEC);
    assert_eq!(ctx.current_state, OperationalState::Warning);
    handle_vehicle_event(&mut ctx, rpm(6000), 7 * SEC);
    assert_eq!(ctx.rpm_stress_timer, None);
    assert_eq!(ctx.current_state, OperationalState::Operational);
}

#[test]
fn supervisor_speed_updates_and_reset() {
    let mut ctx = VehicleContext::new();
    handle_vehicle_event(&mut ctx, VehicleEvent::TelemetryUpdate(VssSignal::VehicleSpeed(73)), 0);
    assert_eq!(ctx.speed, 73);
    ctx.current_state = OperationalState::Critical;
    ctx.rpm_stress_timer = Some(0);
    handle_vehicle_event(&mut ctx, rpm(100), 100 * SEC);
    assert_eq!(ctx.current_state, OperationalState::Critical);
    handle_vehicle_event(&mut ctx, rpm(7000), 200 * SEC);
    handle_vehicle_event(&mut ctx, VehicleEvent::SystemReset, 300 * SEC);
    assert_eq!(ctx.current_state, OperationalState::Operational);
    assert_eq!(ctx.rpm_stress_timer, None);
    assert_eq!(ctx.rpm, 7000);
}

#[test]
fn supervisor_decision_table() {
    let calm = VehicleContext::new();
    assert_eq!(decide_next_state(OperationalState::Warning, &calm, 0), OperationalState::Operational);
    let stressed = VehicleContext { rpm_stress_timer: Some(0), ..calm };
    assert_eq!(decide_next_state(OperationalState::Warning, &stressed, 0), OperationalState::Warning);
    assert_eq!(decide_next_state(OperationalState::Operational, &stressed, 5 * SEC), OperationalState::Warning);
    assert_eq!(decide_next_state(OperationalState::Critical, &calm, 0), OperationalState::Critical);
}

#[test]
fn rpm_target_phase_alternates_every_period() {
    assert!(target_phase_is_high(0, 15));
    assert!(target_phase_is_high(14, 15));
    assert!(!target_phase_is_high(15, 15));
    assert!(!target_phase_is_high(29, 15));
    assert!(target_phase_is_high(30, 15));
}
