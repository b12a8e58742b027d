//! A minimal command host: two front-end-callable commands (a greeting
//! formatter and a stub standing in for future GPU work) and the lifecycle
//! of the process that serves them.

pub mod commands;
pub mod host;
