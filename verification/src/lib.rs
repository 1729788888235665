//! A small verified core for a static-file HTTP/1.1 server.
//!
//! The library holds the per-request logic: percent-decoding of URL
//! paths, request-line parsing, path-safety checks, response
//! formatting, the per-connection decision machine, and the
//! connection-admission gate. The surrounding process (sockets,
//! threads, filesystem access) drives these functions and performs
//! the I/O they decide on.

use vstd::prelude::*;

pub mod gate;
pub mod handler;
pub mod paths;
pub mod percent;
pub mod request;
pub mod response;
pub mod text;

verus! {

/// Upper bound on concurrently handled connections.
pub const MAX_CONNECTIONS: usize = 100;

/// Upper bound, in bytes, on the request header block.
pub const MAX_HEADER_SIZE: usize = 8 * 1024;

/// Upper bound, in bytes, on a served file.
pub const MAX_FILE_SIZE: u64 = 10 * 1024 * 1024;

/// Per-call network I/O deadline, in seconds.
pub const IO_TIMEOUT_SECS: u64 = 5;

} // verus!
