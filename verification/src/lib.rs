//! A minimal interactive TCP client library: the timeout-argument parser,
//! the connector's fixed greeting and failure taxonomy, and the duplex
//! byte-pump state machine that relays bytes in both directions over one
//! connection and coordinates shutdown when either direction ends.
//!
//! The library decides; a thin binary performs the I/O. Each loop of the
//! binary hands the library what it observed (bytes read, a line of input,
//! an error class) and carries out the action the library returns.

pub mod connect;
pub mod pump;
pub mod timeout;
