# common — a verified digital twin of a vehicle

The twin mirrors a car's operational mode (off, starting up, idle, driving, driving
dangerously, extreme-operation warning, shutting down) and the assembly zones it coordinates
(steering column, body control, front light control, headlamp, wiper). It decodes CAN
signals, projects ingress into FSM events, runs each event through the zones and the FSM to
quiescence, keeps turns in arrival order behind a reorder barrier, and publishes transition
records and diagnostics.

## Layout

- `src/` — the library, verified with Verus. Every public function carries a contract over
  mathematical models (`Seq`, `Set`, `Map`, views); the laws of the library are public proof
  functions (`fsm/laws.rs`, `twin_runtime/laws.rs`, and `law_*` items beside the code they
  speak of).
  - `time`, `vehicle_physics`, `vehicle_state` — plain time values, kinematics, zone contexts.
  - `fsm` — the transition table, the step and the lifecycle laws.
  - `signals`, `domain_types` — CAN codecs on plain frames and the ingress vocabulary.
  - `digital_twin` — the twin value, its identity and state laws, zone envelopes.
  - `twin_runtime` — zone routing and merging, quiescence, tell-back retries, the reorder
    barrier, the zone runtimes, and the brain's decision core (`controller::virtual_car_actor`).
  - `observation_records` — the published transition records and diagnostics.
- `app/` — the runtime around the library: ractor actors, Tokio channels, timers, clock
  readings, SocketCAN frame conversion and serde images of the published records.
- `tests/` — behaviour tests of the library.
