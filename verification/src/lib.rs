//! Resolves a named room against a known web backend, parses the session
//! descriptor the backend returns, and renders it as a source-code snippet
//! in one of several output dialects.

pub mod dialect;
pub mod environment;
pub mod errors;
pub mod json;
pub mod session;
pub mod template;
