# asc-standard

A verified core of the ASC safety-kernel reference stack and of the TASC SDK, written in
Verus. Every function under `src/` carries a contract that Verus proves.

## Layout

- `src/kernel/` — the safety kernel: verdicts and their precedence, the command each verdict
  applies, the per-tick safety checks, the authority interlock, the reference adapter and supervisor, the hash-chained
  event log and the runtime's bookkeeping, the signed operational log of a mission, the
  replay-drift conformance assessment, and the command lines of the kernel tools.
- `src/sdk/` — the SDK: requests, responses and errors, the `tasc` arguments of each
  operation, how the client invokes `tasc` and reads its output, path resolution,
  diagnostics, report summaries, rendering, snippets, deterministic templates and mock
  data, canonical-encoding checks and sandbox attestation.
- `src/sdk_types/` — the SDK's shared types: output formats and error codes.
- `src/text.rs`, `src/digest.rs`, `src/casing.rs` — text helpers, and the calls into `sha2`,
  `hex`, `base64` and the standard library's case mapping, each behind a small trusted
  wrapper whose contract states what the outside code does.
- `app/` — the `tasc-sdk-cli` program: argument parsing with clap, process execution,
  file-system probes, JSON parsing and serialisation. It hands plain values to the library
  and performs the actions the library decides on.
- `tests/` — tests of the library on concrete values.

Physical thresholds (speeds, positions, rates) are floating point and are compared by the
caller; the library receives the outcome of each comparison.
