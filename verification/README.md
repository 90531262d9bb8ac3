# cargo_wgsl

Checks WGSL shaders with [naga](https://crates.io/crates/naga) and reports the
outcome three ways: as a command-line report, as answers of a JSON-RPC server,
and as diagnostics of a language server.

- `src/` is the library, verified with Verus: checking a shader and building
  its outline (`naga.rs`, `validator.rs`), the errors (`wgsl_error.rs`), the
  report's messages, their order and the exit code (`cli.rs`,
  `cli/output_message.rs`), the server's answers (`server.rs` and its
  request/response types) and the language server's diagnostics (`lsp.rs`).
  `naga_support.rs` declares the naga types, names what naga's functions
  return (the parse, the validator's verdict, reports and spans) and holds the
  trusted wrappers of the naga functions that the library calls, each with
  its contract. The contracts of the library are stated over those names.
- `app/` is the program around it: argument handling, reading files and
  standard input, walking directories, the JSON-RPC and LSP transports, and
  the serde copies of the library's types that travel as JSON.
- `tests/` exercises the library on concrete shaders and values.
