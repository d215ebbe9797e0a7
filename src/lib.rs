//! Supervision of one long-running child process on behalf of an OS service
//! manager: lifecycle events, termination requests, and the host status
//! protocol.
pub mod appstate;
pub mod channel;
pub mod config;
pub mod err;
pub mod lifecycle;
pub mod loglevel;
pub mod supervisor;
pub mod termsig;
pub mod text;
