# sim_core (verified core)

Discrete core of a deterministic 6-DOF interplanetary spacecraft simulator,
written in Verus.

`src/` is the verified library:

- `mission`, `mode` — mission endpoints and the Sandbox / Mission mode, with
  their wire names.
- `protocol` — the operator control state, the command set, and the
  transition every command makes (`apply_command`), with the laws the
  dashboard relies on (the autopilot is never engaged in Sandbox, leaving
  Mission cuts the burn, a mission kickoff engages the autopilot, reset
  restores the default scenario, …).
- `autopilot`, `thrust_controller`, `nav` — per-tick decisions of the
  rendezvous autopilot, the operator thrust controller and the navigation
  filter.
- `ephemeris` — NAIF ids, the default body roster (parents before
  satellites) and the ephemeris bookkeeping table with its single-pass
  refresh. A second pass at the same instant reproduces the first when
  parents are listed before their satellites, no id is listed twice, and
  the host's propagation is a function of its arguments that leaves kept
  bodies where they were.
- `sensors` — the xorshift noise generator and its seeding from simulation
  time, which make sensor noise replayable.
- `runner` — tick cap and telemetry cadence of the driver loop.

`app/` is the WebSocket server around it: the floating-point physics
(RK4 dynamics, Keplerian propagation, ZEM/ZEV guidance, EKF navigation,
sensor geometry, thermal model) on a `bevy_ecs` world, the JSON wire
format, and the axum / tokio transport.
