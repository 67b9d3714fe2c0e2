# chiaki-media audio output

A two-stage audio output. Decoded samples wait in a first ring, a drain moves
them into a second one, and the device callback plays from there.

- `src/` is the verified library: the rings, the drain, the volume, the sizes,
  the callback's chunks and sample formats, and the steps of opening a device.
  `src/laws.rs` states what holds of them together, `src/history.rs` what holds
  over any run of events.
- `tests/` runs the library on concrete samples.
- `app/` puts it on a cpal device: streams, threads, logging and floating point.
