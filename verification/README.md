# bargo

A command-line companion for Noir circuits: it drives `nargo`, `bb`,
`garaga`, `scarb`, `starkli`, `forge` and `cast` through the build, proving,
verifier-generation and deployment workflows for EVM and Starknet.

## Layout

- `src/` is the verified library. Every command is planned there as a list
  of steps (`plan.rs`): running a tool, creating or moving a directory,
  writing a file, printing a message, recording an operation in the
  summary. Each planner's contract gives its plan exactly, as a function of
  the command-line options and of what the command found on disk or in the
  environment.
  - `workflow.rs`: `check`, `build`, `clean`, `rebuild`.
  - `proving.rs`: bb's argument lists, `prove`, `verify`, the Solidity verifier.
  - `cairo.rs`, `evm.rs`: the Starknet and EVM workflows; commands whose
    tool output feeds a later stage are planned in two halves.
  - `scan.rs`: reading tool output (lines, trimming, tokens, UTF-8 lengths)
    as the standard library's `str` methods define them, and the parsers
    for class hashes, addresses and transaction hashes.
  - `paths.rs`, `rebuild.rs`, `manifest.rs`, `errors.rs`, `output.rs`,
    `timing.rs`, `summary.rs`, `tools.rs`: artifact layout, rebuild
    decisions, package naming, error texts, colored output, durations and
    sizes, the operation summary, `doctor`.
  - The laws that span commands (dry runs change nothing, quiet mode prints
    only previews, verbose mode only adds log lines, what one command saves
    is what the next one reads) are proof functions next to the planners and
    in `laws.rs`.
- `app/main.rs` parses the command line, sets up logging, gathers what the
  planners need and carries out their plans.
- `tests/` exercises the library on concrete inputs.
