//! Client-side plumbing for driving a radare2 instance over one of several
//! transports: an inherited descriptor pair, a spawned child process, a TCP
//! socket, or an HTTP endpoint.
//!
//! This crate holds the verified core: the byte-level response framing shared
//! by the process-style transports, the structured-response parsing, the
//! session-discovery arithmetic, and the planning logic of the worker pool.
//! The I/O shell that feeds bytes in and out of these functions lives outside
//! the library.

pub mod codec;
pub mod errors;
pub mod http;
pub mod pool;
pub mod session;
pub mod structured;

pub use codec::frame_command;
pub use codec::process_result;
pub use errors::Error;
pub use http::R2PipeHttp;
pub use pool::R2PipeSpawnOptions;
pub use session::atoi;
