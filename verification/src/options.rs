//! The options of the program.

use crate::constants::{DEFAULT_MAX_SESSIONS, DEFAULT_SESSION_TIMEOUT};
use crate::text::same_text;
use vstd::prelude::*;

verus! {

/// The options: most sessions, timeout in seconds, whether plaintext HTTP is allowed, whether the
/// proxy protocol is asked for, and the header that carries a client's address.
pub type Opts = (usize, u32, bool, bool, String);

/// Fills in the defaults of the options that were not given: 100 sessions, 900 seconds, and the
/// header `x-forwarded-for`.
pub fn resolve(
    max_sessions: Option<usize>,
    session_timeout: Option<u32>,
    allow_plaintext: bool,
    proxy_protocol: bool,
    client_ip_header: Option<String>,
) -> (opts: Opts)
    ensures
        opts.0 == match max_sessions {
            Some(count) => count,
            None => 100,
        },
        opts.1 == match session_timeout {
            Some(seconds) => seconds,
            None => 900,
        },
        opts.2 == allow_plaintext,
        opts.3 == proxy_protocol,
        opts.4@ == match client_ip_header {
            Some(name) => name@,
            None => "x-forwarded-for"@,
        },
{
    let max_sessions: usize = match max_sessions {
        Some(count) => count,
        None => DEFAULT_MAX_SESSIONS,
    };
    let session_timeout: u32 = match session_timeout {
        Some(seconds) => seconds,
        None => DEFAULT_SESSION_TIMEOUT,
    };
    let client_ip_header = match client_ip_header {
        Some(name) => name,
        None => String::from_str("x-forwarded-for"),
    };
    (max_sessions, session_timeout, allow_plaintext, proxy_protocol, client_ip_header)
}

/// Where the server writes its log.
pub enum LogDest {
    Stderr,
    Directory(String),
}

/// Decides where the server writes its log: standard error for `stderr`, else files in the
/// directory that is named.
pub fn log_destination(log_path: &str) -> (dest: LogDest)
    ensures
        match dest {
            LogDest::Stderr => log_path@ == "stderr"@,
            LogDest::Directory(path) => log_path@ != "stderr"@ && path@ == log_path@,
        },
{
    if same_text(log_path, "stderr") {
        LogDest::Stderr
    } else {
        LogDest::Directory(String::from_str(log_path))
    }
}

} // verus!
