//! The conditions under which a session operation fails.

use vstd::prelude::*;

verus! {

/// Why an operation on a session failed.
#[derive(Clone, Copy, Debug, PartialEq, Eq, Structural)]
pub enum Error {
    /// Address resolution returned no candidate.
    AddressResolutionEmpty,
    /// The transport failed below the session: I/O or protocol.
    TransportError,
    /// The server's host key was refused, or could not be checked.
    ServerCheckFailed,
    /// The server rejected the password.
    PasswordWrong,
    /// The authentication method is not one this client performs.
    UnsupportedAuthMethod,
    /// The session had been disconnected before the operation.
    ConnectionClosed,
    /// The exec channel ended without reporting an exit status.
    NoExitStatus,
    /// The captured output is not valid UTF-8.
    OutputNotText,
}

} // verus!
