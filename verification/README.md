# nightshade_bridge

The device-management and imaging logic behind the Nightshade astrophotography
bridge, written in Verus. The functions in `src/` are proved against contracts
over mathematical models (`Seq`, `Map`, `int`); the few that only read the
clock state what holds whatever time it reads.

- `src/registry.rs`: the managed-device registry (connection state, error
  reporting, automatic reconnection bookkeeping, heartbeat health), viewed as a
  `Map` from device id to entry, with its laws as proof functions.
- `src/heartbeat.rs`: per-device-type heartbeat settings and the step function
  that decides the next check interval and when a device counts as lost.
- `src/device_id.rs`, `src/discovery.rs`, `src/native.rs`: parsing of device
  ids and the assembly and lookup of discovery results.
- `src/drivers.rs`, `src/simulated.rs`, `src/sequencer.rs`: driver-level
  decisions (states, status defaults, subframes, parking, guiding, tracking
  rates, worker replies), the simulated devices, sequencer state names and the
  translation of executor events into application events.
- `src/autofocus.rs`, `src/polar.rs`: how autofocus requests and outcomes are
  mapped, and the failure budget of the polar-alignment adjustment loop.
- `src/imaging.rs`, `src/thumbnail.rs`: pixel conversions, INDI image BLOBs,
  histograms, downscaling, Bayer handling, white-balance peaks, and JPEG
  thumbnails.
- `src/rand.rs`: the simulator's own small linear congruential generator.
- `src/text.rs`, `src/case.rs`, `src/clock.rs`: string helpers,
  and the few calls into std, each behind a small wrapper whose
  contract is assumed rather than proved.
- `app/`: the tokio tasks (reconnection loop, heartbeat task) that drive the
  verified step functions, and the floating-point helpers.
