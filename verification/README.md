# appcore

Verified building blocks of the AppCore runtime, written in Verus.

- `src/cli/`: command-line specifications, their validation, the parser, completion, help
  rendering, shell completion scripts and typo suggestions. The parser's result, including every
  diagnostic message, is stated exactly by `parse_spec`; `cli/laws.rs` proves properties that
  span these functions.
- `src/api/`: the transport-neutral command and query contracts, request validation, the
  authorization and status decisions of the HTTP ingress, and the reload coordinator as a state
  machine (`reload_machine.rs`) with its laws.
- `src/ai/`: identifiers, the cost-based placement scheduler (`scheduler.rs`, laws in
  `scheduler_laws.rs`), peer advertisements and the expiring peer directory (`swarm.rs`,
  `directory.rs`, laws in `directory_laws.rs`), route gathering for one request (remote
  candidates, the cost cap and the placement context in `routing.rs`, one local device in
  `local_route.rs`), the resolution of a request as a state machine (`resolve.rs`), in-memory
  training datasets and batch limits, the model security policy, and the bounded artifact
  provenance catalog (`provenance.rs`).
- `src/durations.rs`, `src/text.rs`: small shared pieces, including the few trusted wrappers
  around `std` and `serde_json`.
- `app/`: process-facing glue (reading the command line, JSON forms of the contracts).
- `tests/`: executable tests of the library.
