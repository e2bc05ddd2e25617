# sdv_twin

Verified core of a small software-defined-vehicle simulation: a digital twin
of a car driven by a finite-state machine, with a lighting sub-state that asks
an actuator to switch the front corner lights, and the CAN protocol that
carries those commands and their acknowledgements.

- `src/` — the library, verified with Verus:
  - `fsm/` — drive states, events, context, the transition table
    (`engine`), the step boundary that also runs the lighting sub-state
    (`step`), and the laws they obey (`laws`).
  - `digital_twin/` — twin snapshot, its safety invariants, mailbox vocabulary.
  - `engine/` — projection of physical inputs onto FSM events, actuation
    contracts, and the per-event decisions of the twin actor.
  - `codec/`, `corner_light_actuation_can.rs`, `devices/corner_lights/` —
    the 8-byte corner-light payload, its CAN framing, and the policy that
    accepts an actuator response only for the pending command.
  - `can_frame.rs` — the trusted boundary to SocketCAN frames.
  - `gateway_fsm/` — the gateway's RPM stress supervisor.
  - `emulator_models.rs` — the integer part of the emulator's RPM model.
- `app/` — the gateway program: actor runtime, CAN reader, heartbeat loop,
  simulated actuator, and the emulator's floating-point models.
- `tests/` — behaviour tests of the library.

Monotonic time is passed in explicitly as nanoseconds (`u64`), so every
time-dependent decision is a function of its arguments.
