//! The connector: the fixed greeting sent on a fresh connection, and the
//! taxonomy of fatal startup failures.
//!
//! Establishing the connection itself is the caller's work: it combines
//! host and port into an address spec, resolves it and takes the first
//! result, connects with a bounded timeout, and writes the greeting. A
//! single attempt, fail-fast: each way that can fail is one variant of
//! [`StartupError`], and every startup failure aborts the process with
//! the same documented nonzero status before the pump phase begins.

use vstd::prelude::*;

verus! {

/// The fixed message written to the connection immediately after it is
/// established, before the pump phase begins.
pub fn initial_greeting() -> (m: &'static str)
    ensures
        m@ == "GET HTTP/1.0 /\r\n"@,
{
    "GET HTTP/1.0 /\r\n"
}

/// A fatal failure while setting the session up. No retries: the
/// process aborts, and the pump phase is never entered.
#[derive(Clone, Copy, Debug, PartialEq, Eq, Structural)]
pub enum StartupError {
    /// Resolving the host and port yielded no address, or the lookup
    /// itself failed.
    Resolution,
    /// The connection was not established within the timeout.
    ConnectTimeout,
    /// The connection attempt failed for any other reason.
    Connect,
    /// Writing the initial greeting to the fresh connection failed.
    InitialWrite,
}

/// The message announcing a startup failure.
pub fn startup_message(e: StartupError) -> (m: &'static str)
    ensures
        e == StartupError::Resolution ==> m@ == "Could not resolve the given host and port"@,
        e == StartupError::ConnectTimeout ==> m@ == "Connection attempt timed out"@,
        e == StartupError::Connect ==> m@ == "Could not connect"@,
        e == StartupError::InitialWrite ==> m@ == "Could not send the initial message"@,
{
    match e {
        StartupError::Resolution => "Could not resolve the given host and port",
        StartupError::ConnectTimeout => "Connection attempt timed out",
        StartupError::Connect => "Could not connect",
        StartupError::InitialWrite => "Could not send the initial message",
    }
}

/// The process exit status for a startup failure: one and the same
/// nonzero status for every way startup can fail.
pub fn startup_exit_code(e: StartupError) -> (c: i32)
    ensures
        c == 1,
{
    match e {
        StartupError::Resolution => 1,
        StartupError::ConnectTimeout => 1,
        StartupError::Connect => 1,
        StartupError::InitialWrite => 1,
    }
}

} // verus!
