//! Socket addresses as the session manager sees them.

use vstd::prelude::*;

verus! {

/// A concrete socket address: an IP address in its textual form, and a port.
/// Names are resolved by the caller; the session manager only ever sees what
/// resolution returned.
#[derive(Clone, Debug, PartialEq, Eq)]
pub struct SocketAddress {
    pub ip: String,
    pub port: u16,
}

/// The mathematical value of a [`SocketAddress`].
pub struct SocketAddressView {
    pub ip: Seq<char>,
    pub port: u16,
}

impl View for SocketAddress {
    type V = SocketAddressView;

    open spec fn view(&self) -> SocketAddressView {
        SocketAddressView { ip: self.ip@, port: self.port }
    }
}

impl SocketAddress {
    /// A copy of this address.
    pub fn duplicate(&self) -> (copy: SocketAddress)
        ensures
            copy@ == self@,
    {
        SocketAddress { ip: self.ip.clone(), port: self.port }
    }
}

/// The values of a list of addresses, in the order in which resolution
/// returned them.
pub open spec fn addresses(list: Seq<SocketAddress>) -> Seq<SocketAddressView> {
    Seq::new(list.len(), |i: int| list[i]@)
}

} // verus!
