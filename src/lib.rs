//! A TCP relay core built on a completion-based I/O interface: buffers,
//! operations and their completions, the in-flight operation table with
//! its submission backlog, and the per-connection relay state machine.

pub mod buffer;
pub mod tcp;
pub mod task;
pub mod completion;
pub mod table;
pub mod runtime;
pub mod proxy;
