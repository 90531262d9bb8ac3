//! Checks WGSL shaders with naga and turns the outcome into the messages,
//! responses and diagnostics that the command line, the JSON-RPC server and
//! the language server hand out.

pub mod naga_support;
pub mod wgsl_error;
pub mod naga;
pub mod validator;
pub mod server;
pub mod cli;
pub mod lsp;
