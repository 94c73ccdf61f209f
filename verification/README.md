# dorarobot

The verified core of a leader/follower teleoperation stack for SO-101 arms.

`src/` is the library, checked by Verus:

- `transport/`: logical channels and QoS profiles, the length-prefixed frame
  encoder/decoder (with its round-trip and reassembly laws), the transport trait,
  the in-process loopback link, datagram decoding and the stub backends.
- `messages/`: control modes, headers, control commands, episode events, errors,
  health status, capability descriptors and their negotiation.
- `session.rs`: session lifecycle, sequence numbers and the heartbeat watchdog.
- `daemon/`: the follower's arm state machine (Idle, Ready, Recording) and its
  dataflow actions, the exponential backoff policy, and the console/web command
  parsers.
- `robot/`: robot errors, the placeholder kinematics solver and the safety latch
  (e-stop and safe-hold) that gates commands to an actively driven arm.
- `capture.rs`: which control commands the recording pipeline sees as episode
  boundaries.
- `so101/`: USB identity of an arm and hexadecimal id parsing.
- `text.rs`, `time.rs`: character-level string helpers and the clock.

`app/` holds what Verus does not check: the daemons' `main`, I/O (serial bus,
USB scan, sockets, zenoh, the DORA process, the web console), serde/postcard/TOML
encodings, and every message or computation that carries floating-point values
(poses, joint targets, calibration, slew limiting, kinematics).

`tests/` exercises the library from outside.
