//! The session: an authenticated connection and what may be done over it.
//!
//! A [`Client`] owns the handle of its transport, of whatever type the caller's
//! SSH engine provides. The handle can be reached only through the session's
//! operations, each of which refuses once the session has been disconnected,
//! and it leaves the session for good when the session is disconnected.

use vstd::prelude::*;
use crate::address::{addresses, SocketAddress, SocketAddressView};
use crate::connect::{AuthMethod, AuthMethodView, Handshake, HandshakeView};
use crate::error::Error;
use crate::exec::{Execution, ExecutionView};
use crate::host_key::{ClientHandler, ClientHandlerView, ServerCheckMethod, ServerCheckMethodView};

verus! {

/// The request to open a direct TCP/IP channel: the server is asked to connect
/// to `host_to_connect:port_to_connect` and is told that the connection
/// originates from `originator_address:originator_port`.
#[derive(Clone, Debug, PartialEq, Eq)]
pub struct DirectTcpip {
    pub host_to_connect: String,
    pub port_to_connect: u32,
    pub originator_address: String,
    pub originator_port: u32,
}

/// The mathematical value of a [`DirectTcpip`].
pub struct DirectTcpipView {
    pub host_to_connect: Seq<char>,
    pub port_to_connect: u32,
    pub originator_address: Seq<char>,
    pub originator_port: u32,
}

impl View for DirectTcpip {
    type V = DirectTcpipView;

    open spec fn view(&self) -> DirectTcpipView {
        DirectTcpipView {
            host_to_connect: self.host_to_connect@,
            port_to_connect: self.port_to_connect,
            originator_address: self.originator_address@,
            originator_port: self.originator_port,
        }
    }
}

impl DirectTcpip {
    /// What the caller gets once the transport has answered the request: the
    /// channel when one was opened, and `TransportError` without any channel
    /// when none was.
    pub fn opened<C>(self, channel: Option<C>) -> (r: Result<C, Error>)
        ensures
            r == match channel {
                Some(c) => Ok::<C, Error>(c),
                None => Err::<C, Error>(Error::TransportError),
            },
    {
        match channel {
            Some(c) => Ok(c),
            None => Err(Error::TransportError),
        }
    }
}

/// Why a session is being disconnected.
#[derive(Clone, Copy, Debug, PartialEq, Eq, Structural)]
pub enum DisconnectReason {
    /// The application asked for it.
    ByApplication,
}

/// The disconnect notice to send over the transport.
#[derive(Clone, Debug, PartialEq, Eq)]
pub struct Disconnect {
    pub reason: DisconnectReason,
    pub description: String,
    pub language_tag: String,
}

/// The mathematical value of a [`Disconnect`].
pub struct DisconnectView {
    pub reason: DisconnectReason,
    pub description: Seq<char>,
    pub language_tag: Seq<char>,
}

impl View for Disconnect {
    type V = DisconnectView;

    open spec fn view(&self) -> DisconnectView {
        DisconnectView {
            reason: self.reason,
            description: self.description@,
            language_tag: self.language_tag@,
        }
    }
}

/// The notice a session sends when it is disconnected: by application, with
/// no description and no language tag.
pub open spec fn by_application() -> DisconnectView {
    DisconnectView {
        reason: DisconnectReason::ByApplication,
        description: Seq::empty(),
        language_tag: Seq::empty(),
    }
}

/// An authenticated session over a transport handle of type `T`.
#[derive(Debug)]
pub struct Client<T> {
    transport: Option<T>,
    handler: ClientHandler,
}

/// The mathematical value of a [`Client`].
pub struct ClientView<T> {
    /// The transport handle while the session is open, `None` once it has
    /// been disconnected.
    pub transport: Option<T>,
    /// The verifier that trusted the server, with the peer as the caller
    /// named it.
    pub handler: ClientHandlerView,
}

impl<T> View for Client<T> {
    type V = ClientView<T>;

    closed spec fn view(&self) -> ClientView<T> {
        ClientView { transport: self.transport, handler: self.handler@ }
    }
}

/// How a connection attempt starts.
///
/// Without a resolved address there is nothing to dial:
/// `AddressResolutionEmpty`. Otherwise the first address is dialled and no
/// other is tried, and the verifier gets the host name as the caller gave it
/// together with the port of that address.
pub open spec fn handshake_for(
    hostname: Seq<char>,
    resolved: Seq<SocketAddressView>,
    username: Seq<char>,
    auth: AuthMethodView,
    server_check: ServerCheckMethodView,
) -> Result<HandshakeView, Error> {
    if resolved.len() == 0 {
        Err(Error::AddressResolutionEmpty)
    } else {
        Ok(
            HandshakeView {
                target: resolved[0],
                handler: ClientHandlerView { hostname, port: resolved[0].port, server_check },
                username,
                auth,
            },
        )
    }
}

impl<T> ClientView<T> {
    /// Whether the session still holds its transport.
    pub open spec fn is_open(self) -> bool {
        self.transport is Some
    }

    /// The session after it has been disconnected.
    pub open spec fn disconnected(self) -> ClientView<T> {
        ClientView { transport: None, handler: self.handler }
    }

    /// What a request to run `command` gets: a fresh execution on an open
    /// session, `ConnectionClosed` on a disconnected one.
    pub open spec fn execute(self, command: Seq<char>) -> Result<ExecutionView, Error> {
        if self.is_open() {
            Ok(ExecutionView::start(command))
        } else {
            Err(Error::ConnectionClosed)
        }
    }

    /// What a request for a direct TCP/IP channel gets.
    ///
    /// A disconnected session answers `ConnectionClosed`. An open one answers
    /// `AddressResolutionEmpty` when the target resolved to nothing, and else
    /// the request for the first resolved target address, with `src` as the
    /// origin.
    pub open spec fn open_direct_tcpip_channel(
        self,
        target: Seq<SocketAddressView>,
        src: SocketAddressView,
    ) -> Result<DirectTcpipView, Error> {
        if !self.is_open() {
            Err(Error::ConnectionClosed)
        } else if target.len() == 0 {
            Err(Error::AddressResolutionEmpty)
        } else {
            Ok(
                DirectTcpipView {
                    host_to_connect: target[0].ip,
                    port_to_connect: target[0].port as u32,
                    originator_address: src.ip,
                    originator_port: src.port as u32,
                },
            )
        }
    }
}

impl<T> Client<T> {
    /// The open session that owns `transport`.
    pub(crate) fn established(transport: T, handler: ClientHandler) -> (client: Client<T>)
        ensures
            client@ == (ClientView { transport: Some(transport), handler: handler@ }),
    {
        Client { transport: Some(transport), handler }
    }

    /// Starts a connection attempt to the host that the caller named
    /// `hostname` and that resolved to `resolved`, in that order.
    pub fn connect(
        hostname: String,
        resolved: &Vec<SocketAddress>,
        username: &str,
        auth: AuthMethod,
        server_check: ServerCheckMethod,
    ) -> (r: Result<Handshake, Error>)
        ensures
            match r {
                Ok(handshake) => handshake_for(
                    hostname@,
                    addresses(resolved@),
                    username@,
                    auth@,
                    server_check@,
                ) == Ok::<HandshakeView, Error>(handshake@),
                Err(e) => handshake_for(
                    hostname@,
                    addresses(resolved@),
                    username@,
                    auth@,
                    server_check@,
                ) == Err::<HandshakeView, Error>(e),
            },
    {
        if resolved.len() == 0 {
            return Err(Error::AddressResolutionEmpty);
        }
        let target = resolved[0].duplicate();
        let handler = ClientHandler { hostname, port: target.port, server_check };
        Ok(Handshake::new(target, handler, username.to_owned(), auth))
    }

    /// Whether the session has been disconnected.
    pub fn is_closed(&self) -> (closed: bool)
        ensures
            closed == !self@.is_open(),
    {
        self.transport.is_none()
    }

    /// The verifier that trusted the server when the session was made.
    pub fn handler(&self) -> (handler: &ClientHandler)
        ensures
            handler@ == self@.handler,
    {
        &self.handler
    }

    /// Asks to run `command` on the remote host. An open session hands out
    /// its transport and a fresh execution to feed the exec channel's
    /// messages to; a disconnected one refuses.
    pub fn execute(&self, command: &str) -> (r: Result<(&T, Execution), Error>)
        ensures
            match r {
                Ok((transport, execution)) => self@.transport == Some(*transport)
                    && self@.execute(command@) == Ok::<ExecutionView, Error>(execution@),
                Err(e) => self@.execute(command@) == Err::<ExecutionView, Error>(e),
            },
    {
        match &self.transport {
            Some(transport) => Ok((transport, Execution::new(command.to_owned()))),
            None => Err(Error::ConnectionClosed),
        }
    }

    /// Asks for a channel to `target`, which the caller resolved, that the
    /// server is to see as coming from `src`. An open session hands out its
    /// transport and the request to make over it; nothing is sent by this
    /// call.
    pub fn open_direct_tcpip_channel(&self, target: &Vec<SocketAddress>, src: &SocketAddress) -> (r:
        Result<(&T, DirectTcpip), Error>)
        ensures
            match r {
                Ok((transport, request)) => self@.transport == Some(*transport)
                    && self@.open_direct_tcpip_channel(addresses(target@), src@) == Ok::<
                    DirectTcpipView,
                    Error,
                >(request@),
                Err(e) => self@.open_direct_tcpip_channel(addresses(target@), src@) == Err::<
                    DirectTcpipView,
                    Error,
                >(e),
            },
    {
        match &self.transport {
            None => Err(Error::ConnectionClosed),
            Some(transport) => {
                if target.len() == 0 {
                    return Err(Error::AddressResolutionEmpty);
                }
                let first = &target[0];
                Ok(
                    (
                        transport,
                        DirectTcpip {
                            host_to_connect: first.ip.clone(),
                            port_to_connect: first.port as u32,
                            originator_address: src.ip.clone(),
                            originator_port: src.port as u32,
                        },
                    ),
                )
            },
        }
    }

    /// Disconnects the session. An open session gives up its transport for
    /// good, together with the notice to send over it before it is dropped; a
    /// session that was disconnected before refuses.
    pub fn disconnect(&mut self) -> (r: Result<(T, Disconnect), Error>)
        ensures
            final(self)@ == old(self)@.disconnected(),
            match r {
                Ok((transport, notice)) => old(self)@.transport == Some(transport) && notice@
                    == by_application(),
                Err(e) => !old(self)@.is_open() && e == Error::ConnectionClosed,
            },
    {
        match self.transport.take() {
            Some(transport) => Ok(
                (
                    transport,
                    Disconnect {
                        reason: DisconnectReason::ByApplication,
                        description: String::new(),
                        language_tag: String::new(),
                    },
                ),
            ),
            None => Err(Error::ConnectionClosed),
        }
    }
}

/// A disconnected session refuses every request to run a command with
/// `ConnectionClosed`, whatever the command and however often the request is
/// repeated: asking changes nothing about the session, and disconnecting it
/// again leaves it disconnected.
pub proof fn lemma_disconnected_session_refuses<T>(session: ClientView<T>, commands: Seq<Seq<char>>)
    ensures
        !session.disconnected().is_open(),
        session.disconnected().disconnected() == session.disconnected(),
        forall|i: int|
            0 <= i < commands.len() ==> session.disconnected().execute(#[trigger] commands[i])
                == Err::<ExecutionView, Error>(Error::ConnectionClosed),
{
}

/// A disconnected session refuses every request for a direct TCP/IP channel
/// with `ConnectionClosed`, whatever the target and the origin.
pub proof fn lemma_disconnected_session_opens_no_channel<T>(
    session: ClientView<T>,
    target: Seq<SocketAddressView>,
    src: SocketAddressView,
)
    ensures
        session.disconnected().open_direct_tcpip_channel(target, src) == Err::<
            DirectTcpipView,
            Error,
        >(Error::ConnectionClosed),
{
}

} // verus!
