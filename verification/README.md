# brail

The decision-making core of a Windows screen recorder and live-streaming
tool, written in Verus and proved against its contracts.

- `src/` is the verified library: configuration and preset tables,
  encoder settings and pacing, the instant-replay ring buffer, the
  streaming bitrate ladder, the adaptive engine and self-tuner, benchmark
  reports, secret redaction, the credential-name and key-blob encoding,
  hardware-profile assembly, hotkey tables, screenshot packing and
  encoding, and the text encodings used at the operating-system boundary.
  Public `law_*` proof functions state the properties that hold across
  calls (what redaction removes, what a stored key reads back as, how the
  adaptive engine filters spikes, and so on).
- `tests/` exercises the compiled library on concrete values.
- `app/` is the ordinary Rust around it: Win32 probes, files, the
  credential store, worker threads, serialisable forms of the library's
  types, and the floating-point audio and layout code.

Fractional measurements are carried in hundredths of their unit (fields
ending in `_x100`).
