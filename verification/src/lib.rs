//! Streaming translation controller: the rules that decide when a run may
//! start, what is sent to the worker process, and which notifications a run
//! produces.

pub mod controller;
pub mod notify;
pub mod prompt;
pub mod resolver;
pub mod sanitize;
pub mod session;
pub mod signal;
pub mod text;
