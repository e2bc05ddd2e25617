use sdv_twin::fsm::engine::{is_rejected_power_off, warning_recovery_ready};
use sdv_twin::fsm::{output, transition, FsmAction, FsmEvent, FsmState, LightingState, VehicleContext};
use sdv_twin::{DigitalTwinCar, VehicleState};

const SEC: u64 = 1_000_000_000;

fn valid_twin_context() -> VehicleContext {
    VehicleContext {
        rpm: 0,
        speed: 0,
        fuel_level: 85,
        oil_pressure: 30,
        tyre_pressure_ok: true,
        ambient_lux: 100,
        lighting_state: LightingState::Off,
    }
}

#[test]
fn test_high_rpm_warning_and_cooldown() {
    let mut ctx = valid_twin_context();
    let mut state = FsmState::Idle;

    // 1. Move to Driving
    ctx.rpm = 1200;
    state = transition(&state, &FsmEvent::UpdateRpm(1200), &ctx, 0);
    assert_eq!(state, FsmState::Driving);

    // 2. Trigger Warning
    state = transition(&state, &FsmEvent::UpdateRpm(6500), &ctx, 0);
    match state {
        FsmState::Warning(_) => (),
        _ => panic!("Should have transitioned to Warning"),
    }

    // 3. Check Cooldown (should NOT transition back yet even if RPM is low)
    let actions = output(&FsmState::Driving, &state);
    assert!(actions.contains(&FsmAction::StartBuzzer));

    state = transition(&state, &FsmEvent::UpdateRpm(3000), &ctx, 0);
    match state {
        FsmState::Warning(_) => (),
        _ => panic!("Should still be in Warning during cooldown"),
    }
}

#[test]
fn test_standard_commute_flow() {
    let mut car = DigitalTwinCar {
        identity: "NASHIK-VC-001".to_string(),
        current_state: FsmState::Off,
        context: valid_twin_context(),
    };

    let sequence = vec![
        (FsmEvent::PowerOn, FsmState::Idle),
        (FsmEvent::UpdateRpm(1500), FsmState::Driving),
        (FsmEvent::UpdateSpeed(50), FsmState::Driving),
        (FsmEvent::UpdateSpeed(0), FsmState::Idle),
        (FsmEvent::PowerOff, FsmState::Off),
    ];

    for (event, expected_state) in sequence {
        car.current_state = transition(&car.current_state, &event, &car.context, 0);
        assert_eq!(car.current_state, expected_state);
    }
}

#[test]
fn test_illegal_shutdown_attempt() {
    let mut car = DigitalTwinCar {
        identity: "NASHIK-VC-001".to_string(),
        current_state: FsmState::Driving,
        context: VehicleContext {
            rpm: 3000,
            speed: 80,
            ..VehicleContext::default()
        },
    };

    car.current_state = transition(&car.current_state, &FsmEvent::PowerOff, &car.context, 0);

    assert_eq!(car.current_state, FsmState::Driving);
}

#[test]
fn unhealthy_context_blocks_power_on() {
    let low_fuel = VehicleContext { fuel_level: 5, ..valid_twin_context() };
    assert_eq!(transition(&FsmState::Off, &FsmEvent::PowerOn, &low_fuel, 0), FsmState::Off);
    let low_oil = VehicleContext { oil_pressure: 10, ..valid_twin_context() };
    assert_eq!(transition(&FsmState::Off, &FsmEvent::PowerOn, &low_oil, 0), FsmState::Off);
    let flat = VehicleContext { tyre_pressure_ok: false, ..valid_twin_context() };
    assert_eq!(transition(&FsmState::Off, &FsmEvent::PowerOn, &flat, 0), FsmState::Off);
    let ok = VehicleContext { fuel_level: 6, oil_pressure: 11, ..valid_twin_context() };
    assert_eq!(transition(&FsmState::Off, &FsmEvent::PowerOn, &ok, 0), FsmState::Idle);
}

#[test]
fn driving_threshold_is_strictly_above_one_thousand() {
    let ctx = valid_twin_context();
    assert_eq!(transition(&FsmState::Idle, &FsmEvent::UpdateRpm(1000), &ctx, 0), FsmState::Idle);
    assert_eq!(transition(&FsmState::Idle, &FsmEvent::UpdateRpm(1001), &ctx, 0), FsmState::Driving);
}

#[test]
fn warning_is_stamped_with_step_time_above_greenline() {
    let ctx = valid_twin_context();
    assert_eq!(transition(&FsmState::Driving, &FsmEvent::UpdateRpm(6000), &ctx, 42), FsmState::Driving);
    assert_eq!(transition(&FsmState::Driving, &FsmEvent::UpdateRpm(6001), &ctx, 42), FsmState::Warning(42));
}

#[test]
fn warning_recovers_on_tick_after_cooldown_to_idle_or_driving() {
    let stopped = VehicleContext { rpm: 5000, speed: 0, ..valid_twin_context() };
    let moving = VehicleContext { rpm: 5000, speed: 30, ..valid_twin_context() };
    let w = FsmState::Warning(10 * SEC);
    assert_eq!(transition(&w, &FsmEvent::TimerTick, &stopped, 15 * SEC), FsmState::Idle);
    assert_eq!(transition(&w, &FsmEvent::TimerTick, &moving, 15 * SEC), FsmState::Driving);
    // one nanosecond short of the cooldown
    assert_eq!(transition(&w, &FsmEvent::TimerTick, &stopped, 15 * SEC - 1), w);
    // RPM above the recovery threshold
    let hot = VehicleContext { rpm: 5001, ..stopped };
    assert_eq!(transition(&w, &FsmEvent::TimerTick, &hot, 20 * SEC), w);
    // only a tick recovers
    assert_eq!(transition(&w, &FsmEvent::UpdateRpm(100), &stopped, 20 * SEC), w);
    // a clock reading before the warning counts as no elapsed time
    assert_eq!(transition(&w, &FsmEvent::TimerTick, &stopped, 0), w);
}

#[test]
fn recovery_readiness_exact_bounds() {
    assert!(warning_recovery_ready(0, 5 * SEC, 5000));
    assert!(!warning_recovery_ready(0, 5 * SEC - 1, 5000));
    assert!(!warning_recovery_ready(0, 5 * SEC, 5001));
    assert!(!warning_recovery_ready(9 * SEC, 1, 0));
}

#[test]
fn output_actions_per_transition_kind() {
    let enter = output(&FsmState::Driving, &FsmState::Warning(3));
    assert_eq!(enter, vec![FsmAction::StartBuzzer, FsmAction::LogWarning("Overspeed detected!".to_string())]);
    assert_eq!(output(&FsmState::Warning(3), &FsmState::Driving), vec![FsmAction::StopBuzzer]);
    assert_eq!(output(&FsmState::Warning(3), &FsmState::Idle), vec![FsmAction::StopBuzzer]);
    assert_eq!(output(&FsmState::Off, &FsmState::Idle), vec![FsmAction::PublishStateSync]);
    assert_eq!(output(&FsmState::Idle, &FsmState::Idle), vec![]);
    assert_eq!(output(&FsmState::Warning(3), &FsmState::Warning(3)), vec![]);
}

#[test]
fn power_off_is_honoured_only_when_idle() {
    let ctx = valid_twin_context();
    for s in [FsmState::Off, FsmState::Driving, FsmState::Warning(7)] {
        assert_eq!(transition(&s, &FsmEvent::PowerOff, &ctx, 0), s);
        assert!(is_rejected_power_off(&s, &FsmEvent::PowerOff));
    }
    assert_eq!(transition(&FsmState::Idle, &FsmEvent::PowerOff, &ctx, 0), FsmState::Off);
    assert!(!is_rejected_power_off(&FsmState::Idle, &FsmEvent::PowerOff));
    assert!(!is_rejected_power_off(&FsmState::Driving, &FsmEvent::TimerTick));
}

#[test]
fn drive_state_reports_public_state() {
    assert_eq!(VehicleState::from(&FsmState::Off), VehicleState::Off);
    assert_eq!(VehicleState::from(&FsmState::Idle), VehicleState::Idle);
    assert_eq!(VehicleState::from(&FsmState::Driving), VehicleState::Driving);
    assert_eq!(VehicleState::from(&FsmState::Warning(9)), VehicleState::Warning);
    assert_eq!(VehicleState::default(), VehicleState::Off);
}

#[test]
fn context_health_guard() {
    assert!(VehicleContext::default().is_healthy());
    assert!(!VehicleContext { tyre_pressure_ok: false, ..VehicleContext::default() }.is_healthy());
}
