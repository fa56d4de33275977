//! Startup orchestration for a desktop shell whose content is served by a
//! locally spawned HTTP server (a "sidecar" process).
//!
//! The library holds the decision logic of that startup path: choosing a
//! port, deciding whether to reuse a running server or spawn a fresh one,
//! tracking initialization progress, capturing child output in a bounded
//! buffer, and guaranteeing the spawned child is released for killing at
//! most once. All network, process and file effects live outside; callers
//! feed their outcomes in as plain values and act on the returned decisions.

pub mod init_step;
pub mod log_buffer;
pub mod orchestrator;
pub mod port;
pub mod ready;
pub mod resolver;
pub mod server_state;
pub mod storage;
