//! Limits and defaults shared by the client and the server.

use vstd::prelude::*;

verus! {

/// Sessions allowed at the same time when `--max-sessions` is not given.
pub const DEFAULT_MAX_SESSIONS: usize = 100;

/// Seconds of inactivity after which a session is closed when `--session-timeout` is not given.
pub const DEFAULT_SESSION_TIMEOUT: u32 = 900;

/// Random bytes in a session identifier.
pub const ID_SIZE_BINARY: usize = 16;

/// Hexadecimal digits in a session identifier.
pub const ID_SIZE_ASCII_HEX: usize = 32;

/// Most bytes that one request or response body carries: 1 MiB.
pub const BODY_SIZE_LIMIT: usize = 1048576;

/// Seconds between two looks at a session, and the longest local read.
pub const ONE_SECOND: u64 = 1;

/// Seconds that the client gives one HTTP request.
pub const HTTP_TIMEOUT: u64 = 60;

/// Seconds that `/recv` waits for bytes before it answers with an empty body.
pub const LONG_POLL_TIMEOUT: u64 = 10;

} // verus!
