# cargo_wix (verified core)

Builds a Windows installer (msi) for a Cargo package with the WiX Toolset.

- `src/` is the library, verified with Verus:
  - `wix.rs`: the toolset's names, `Platform`, `Cultures`, `Tool`;
  - `path.rs`: `PathSpec`, a path kept as the pieces pushed onto it;
  - `error.rs`: `BuildError`, why a build stops;
  - `manifest.rs`: the package's name and version read from Cargo.toml (through `toml`);
  - `version.rs`: versions read through `semver`;
  - `create.rs`: `Builder`, `Execution` and each decision of a build;
  - `run.rs`: a build as a state machine that answers events with actions;
  - `message.rs`: the messages that tell a user why a build stopped;
  - `laws.rs`: properties of every build, proved over the state machine.
- `app/` performs what the state machine asks for: reading files and the
  environment, checking paths, running `cargo`, `candle` and `light`, and
  rendering errors as messages.
- `tests/` runs the library on concrete settings and events.
