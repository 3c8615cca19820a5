# sirin

The core of the Sirin flight computer, verified with Verus.

`src/` is the verified library:

- `song` — the compact binary format used on USB, over the radio and in the flash log, with the
  law that reading back what was written gives the value again;
- `mode`, `flight` — the flight modes and the phase detector that decides launch, apogee, main
  deployment and landing, with its safety properties as proof functions;
- `packet`, `config`, `time`, `state`, `error` — the packets, the configuration and their
  encodings;
- `gating`, `history`, `health`, `runtime`, `estimator` — the integer decisions of the
  navigation filter: which IMU samples are integrated, which measurements are fused and into
  which snapshot, and how sensor health is tracked;
- `byte_str`, `payload`, `lis3mdl` — padded strings, the payload's launch trigger and the
  magnetometer's register protocol.

`tests/` exercises the library on concrete values. `app/` holds what stays outside the
verifier: the floating-point error-state Kalman filter, the metric front end of the flight
detector, the magnetometer's SPI driver and the payload's standby loop, each calling into the
library for its decisions.
