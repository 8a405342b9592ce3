# poweredup

A library for LEGO Powered UP hubs (LPF2 and WeDo 2.0), with its protocol
logic verified by Verus.

- `src/` — the verified library: protocol constants and their decoding,
  the LPF2 message codec and notification framing, the WeDo 2.0 codec,
  devices (motors, lights, sensors) and their command encoders and decoders,
  hub port maps, hub-property bookkeeping, initialization progress, the
  attached-device registry, and advertisement parsing. `src/buffer.rs` holds
  the trusted declarations for the `bytes` crate.
- `app/` — ordinary Rust around it: the asynchronous BLE transport trait and
  its in-process mock, the hub connection typestate that performs the I/O,
  the error type with its `Display` impl, and the voltage and current sensors,
  whose scaling is done in floating point.
- `tests/` — tests of the library.
