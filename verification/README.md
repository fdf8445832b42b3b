# v8_runner

A command-line runner for local 1C development workflows (build source sets
into an infobase, dump, convert between `DESIGNER` and `EDT`, materialize
release artifacts, launch tools), written in Verus with its behaviour stated
as `requires` / `ensures` contracts.

Layout:

- `src/` is the verified library: configuration validation, change detection
  and partial-load planning, the hash storage (what a read yields and what a
  commit writes), the per-step planners of the build, and the sequencing of
  the build, dump, convert, artifacts and EDT workspace runs as state
  machines (`*_next` functions from a state and the outcome of the last
  action to the next state and action), together with result assembly,
  envelope and text rendering, MCP telemetry bookkeeping, and the path and
  text helpers they rest on. Verus verifies every function there but six
  small wrappers around outside calls (`String::push`, `SystemTime` and
  `Duration` conversions, SHA-256), whose contracts are trusted.
- `app/` is the executable around it: argument parsing, reading the config
  file, probing the file system, reading and writing the redb store, the
  download loop, the build loop and log output. It performs the actions the
  library decides and hands back what happened. This program has no 1C
  platform or EDT driver and no change analyzer, so the steps that need one
  end with an error saying so; the test, dump, syntax and launch commands
  stop before running for the same reason.
- `tests/` runs the library on concrete inputs.

File-system facts (existence, kinds, contents) enter the library as values
gathered by `app/`, so each decision is verified for every possible answer.
