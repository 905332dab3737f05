//! A sans-I/O SSH client session manager.
//!
//! The crate holds the decisions of an SSH client session: whether a server's
//! host key is trusted, how a connection attempt proceeds from address
//! resolution to an authenticated session, how the messages of an exec channel
//! fold into a command result, and what a session may still do once it has
//! been closed. Sockets, the SSH transport and the key files stay with the
//! caller, who performs what the library asks for and hands the outcome back.

pub mod address;
pub mod client;
pub mod connect;
pub mod error;
pub mod exec;
pub mod host_key;
