# zmtp_core

The connection logic of a ZeroMQ socket: the ZMTP greeting and its versions, the
handshake, heartbeats and socket options, written in Rust and proved with Verus.

A connection speaks ZMTP/3.x with peers that do and falls back to ZMTP/2.0 with those
that do not, unless `allow_zmtp2` is off. Two transports are served: byte streams, and
io_uring.

## Layout

- `src/greeting.rs`: the greetings of ZMTP/3.x and ZMTP/2.0 and how they are told apart.
- `src/options.rs` and `src/options/`: socket options, by number and as bytes.
- `src/mechanism.rs`, `src/ready.rs`, `src/command.rs`, `src/v2_rules.rs`,
  `src/heartbeat.rs`: the rules of a connection that both transports share.
- `src/uring.rs` and `src/uring/`: a connection on io_uring. `handler` decides,
  `session` runs the decisions against a `UringEnvironment`.
- `src/stream.rs` and `src/stream/`: the handshake on a byte stream, as steps that ask
  their caller to read, write or consult the security mechanism.
- `src/buffer.rs`, `src/text.rs`, `src/byte_order.rs`, `src/message.rs`, `src/time.rs`,
  `src/error.rs`: what the rest is built on.
- `app/`: the asynchronous side, which reads and writes sockets and the clock.

Functions are specified over models: `model.rs` and `calls.rs` say what a connection is
and what each step makes of it. The files named `laws.rs` and `outcomes.rs` state what
holds across steps.

Time comes in as readings of a clock; the library itself never looks at one.
