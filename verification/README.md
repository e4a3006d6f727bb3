# koharu

The decisions behind Koharu's Model Context Protocol server and its Torch
runtime, as a library verified with Verus.

- `src/mcp`: what the server announces, the tools it offers, how a tool call is
  opened and answered, and the data URLs of images.
- `src/runtime`: the configuration, the target of a build, the Torch package with
  its libraries and downloads, the plan of an installation, and the choice of a
  build for a machine. `src/runtime/laws.rs` states what holds of the package as a
  whole.
- `src/json.rs`, `src/mcp/call_id.rs` and `src/text.rs` hold the trusted
  boundaries to `serde_json`, `uuid` and the string functions of the standard
  library.
- `app`: ordinary Rust that does the input and output.
- `tests`: tests on concrete values.
