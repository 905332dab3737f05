//! A connection attempt, from the resolved address to the authenticated
//! session.
//!
//! The attempt moves through two stages. A [`Handshake`] names the address to
//! dial and the verifier to consult while the transport negotiates; once the
//! transport reports how that went, it becomes a [`Login`], which names the
//! credentials to submit; once the server has answered those, it becomes a
//! [`Client`]. No stage can be skipped: a `Client` exists only after a trusted
//! host key and an accepted password.

use vstd::prelude::*;
use crate::address::{SocketAddress, SocketAddressView};
use crate::client::{handshake_for, Client, ClientView};
use crate::error::Error;
use crate::host_key::{ClientHandler, ClientHandlerView, ServerCheckMethodView};

verus! {

/// How the client proves who it is.
#[derive(Clone, Debug, PartialEq, Eq)]
pub enum AuthMethod {
    /// By the password of the account.
    Password(String),
    /// By a key pair. This client does not perform it.
    PublicKey,
    /// By answering the server's prompts. This client does not perform it.
    KeyboardInteractive,
}

/// The mathematical value of an [`AuthMethod`].
pub enum AuthMethodView {
    Password(Seq<char>),
    PublicKey,
    KeyboardInteractive,
}

impl View for AuthMethod {
    type V = AuthMethodView;

    open spec fn view(&self) -> AuthMethodView {
        match self {
            AuthMethod::Password(secret) => AuthMethodView::Password(secret@),
            AuthMethod::PublicKey => AuthMethodView::PublicKey,
            AuthMethod::KeyboardInteractive => AuthMethodView::KeyboardInteractive,
        }
    }
}

/// What the server answered to the submitted credentials.
#[derive(Clone, Copy, Debug, PartialEq, Eq, Structural)]
pub enum AuthReply {
    /// The server accepted them.
    Accepted,
    /// The server rejected them.
    Rejected,
    /// The transport failed before an answer came.
    Failed,
}

/// A connection attempt that has an address to dial and awaits the transport.
#[derive(Debug)]
pub struct Handshake {
    target: SocketAddress,
    handler: ClientHandler,
    username: String,
    auth: AuthMethod,
}

/// The mathematical value of a [`Handshake`].
pub struct HandshakeView {
    /// The address to dial: the first that resolution returned.
    pub target: SocketAddressView,
    /// The verifier to consult when the server presents its key.
    pub handler: ClientHandlerView,
    /// The account to log in to.
    pub username: Seq<char>,
    /// How to authenticate once the transport is up.
    pub auth: AuthMethodView,
}

impl View for Handshake {
    type V = HandshakeView;

    closed spec fn view(&self) -> HandshakeView {
        HandshakeView {
            target: self.target@,
            handler: self.handler@,
            username: self.username@,
            auth: self.auth@,
        }
    }
}

/// A connection attempt whose transport is up and whose server is trusted,
/// and which awaits the server's answer to the password.
#[derive(Debug)]
pub struct Login {
    handler: ClientHandler,
    username: String,
    password: String,
}

/// The mathematical value of a [`Login`].
pub struct LoginView {
    /// The verifier that trusted the server.
    pub handler: ClientHandlerView,
    /// The account to log in to.
    pub username: Seq<char>,
    /// The password to submit.
    pub password: Seq<char>,
}

impl View for Login {
    type V = LoginView;

    closed spec fn view(&self) -> LoginView {
        LoginView {
            handler: self.handler@,
            username: self.username@,
            password: self.password@,
        }
    }
}

impl HandshakeView {
    /// How the attempt goes on once the transport has reported.
    ///
    /// `verdict` is what the verifier answered when the transport consulted
    /// it, `None` if it never did; `established` says whether the transport
    /// came up.
    ///
    /// - A verdict other than `Ok(true)` is `ServerCheckFailed`, whatever the
    ///   transport says of itself.
    /// - A transport that came up without consulting the verifier is
    ///   `ServerCheckFailed` too: an unchecked server is not trusted.
    /// - A transport that did not come up is otherwise `TransportError`.
    /// - With a trusted server and the transport up, a password is submitted;
    ///   any other authentication method is `UnsupportedAuthMethod`.
    pub open spec fn completed(
        self,
        verdict: Option<Result<bool, Error>>,
        established: bool,
    ) -> Result<LoginView, Error> {
        match verdict {
            Some(Ok(true)) => if !established {
                Err(Error::TransportError)
            } else {
                match self.auth {
                    AuthMethodView::Password(secret) => Ok(
                        LoginView {
                            handler: self.handler,
                            username: self.username,
                            password: secret,
                        },
                    ),
                    _ => Err(Error::UnsupportedAuthMethod),
                }
            },
            Some(_) => Err(Error::ServerCheckFailed),
            None => if established {
                Err(Error::ServerCheckFailed)
            } else {
                Err(Error::TransportError)
            },
        }
    }
}

impl LoginView {
    /// How the attempt ends once the server has answered the password: an
    /// open session that owns `transport` when it was accepted,
    /// `PasswordWrong` when it was rejected, `TransportError` when no answer
    /// came.
    pub open spec fn answered<T>(self, reply: AuthReply, transport: T) -> Result<
        ClientView<T>,
        Error,
    > {
        match reply {
            AuthReply::Accepted => Ok(
                ClientView { transport: Some(transport), handler: self.handler },
            ),
            AuthReply::Rejected => Err(Error::PasswordWrong),
            AuthReply::Failed => Err(Error::TransportError),
        }
    }
}

impl Handshake {
    /// The attempt to reach `target` as `username`, with `handler` to verify
    /// the server.
    pub(crate) fn new(
        target: SocketAddress,
        handler: ClientHandler,
        username: String,
        auth: AuthMethod,
    ) -> (handshake: Handshake)
        ensures
            handshake@ == (HandshakeView {
                target: target@,
                handler: handler@,
                username: username@,
                auth: auth@,
            }),
    {
        Handshake { target, handler, username, auth }
    }

    /// The address to dial.
    pub fn target(&self) -> (target: &SocketAddress)
        ensures
            target@ == self@.target,
    {
        &self.target
    }

    /// The verifier to consult when the server presents its key.
    pub fn handler(&self) -> (handler: &ClientHandler)
        ensures
            handler@ == self@.handler,
    {
        &self.handler
    }

    /// Goes on from what the transport reported: `verdict` is the verifier's
    /// answer if the transport consulted it, `established` whether the
    /// transport came up.
    pub fn completed(self, verdict: Option<Result<bool, Error>>, established: bool) -> (r: Result<
        Login,
        Error,
    >)
        ensures
            match r {
                Ok(login) => self@.completed(verdict, established) == Ok::<LoginView, Error>(
                    login@,
                ),
                Err(e) => self@.completed(verdict, established) == Err::<LoginView, Error>(e),
            },
            r is Ok ==> verdict == Some(Ok::<bool, Error>(true)) && established,
    {
        match verdict {
            Some(Ok(true)) => {
                if !established {
                    return Err(Error::TransportError);
                }
                match self.auth {
                    AuthMethod::Password(password) => Ok(
                        Login { handler: self.handler, username: self.username, password },
                    ),
                    _ => Err(Error::UnsupportedAuthMethod),
                }
            },
            Some(_) => Err(Error::ServerCheckFailed),
            None => {
                if established {
                    Err(Error::ServerCheckFailed)
                } else {
                    Err(Error::TransportError)
                }
            },
        }
    }
}

impl Login {
    /// The account to log in to.
    pub fn username(&self) -> (username: &str)
        ensures
            username@ == self@.username,
    {
        self.username.as_str()
    }

    /// The password to submit.
    pub fn password(&self) -> (password: &str)
        ensures
            password@ == self@.password,
    {
        self.password.as_str()
    }

    /// Ends the attempt with the server's answer. The session takes
    /// ownership of `transport` when the password was accepted; otherwise the
    /// transport is dropped here and no session exists.
    pub fn answered<T>(self, reply: AuthReply, transport: T) -> (r: Result<Client<T>, Error>)
        ensures
            match r {
                Ok(client) => self@.answered(reply, transport) == Ok::<ClientView<T>, Error>(
                    client@,
                ),
                Err(e) => self@.answered(reply, transport) == Err::<ClientView<T>, Error>(e),
            },
            r is Ok <==> reply == AuthReply::Accepted,
    {
        match reply {
            AuthReply::Accepted => Ok(Client::established(transport, self.handler)),
            AuthReply::Rejected => Err(Error::PasswordWrong),
            AuthReply::Failed => Err(Error::TransportError),
        }
    }
}

/// With a password, a host that resolved to at least one address, a trusted
/// server and a transport that came up, the attempt reaches the login with
/// that password. If the server accepts it, the attempt ends in an open
/// session that owns the transport and takes commands; if the server rejects
/// it, the attempt ends in `PasswordWrong` and no session.
pub proof fn lemma_password_decides<T>(
    hostname: Seq<char>,
    resolved: Seq<SocketAddressView>,
    username: Seq<char>,
    secret: Seq<char>,
    server_check: ServerCheckMethodView,
    transport: T,
    command: Seq<char>,
)
    requires
        resolved.len() > 0,
    ensures
        ({
            let start = handshake_for(
                hostname,
                resolved,
                username,
                AuthMethodView::Password(secret),
                server_check,
            );
            &&& start matches Ok(handshake)
            &&& handshake.completed(Some(Ok(true)), true) matches Ok(login)
            &&& login.username == username
            &&& login.password == secret
            &&& login.answered(AuthReply::Accepted, transport) matches Ok(session)
            &&& session.transport == Some(transport)
            &&& session.execute(command) is Ok
            &&& login.answered(AuthReply::Rejected, transport) == Err::<ClientView<T>, Error>(
                Error::PasswordWrong,
            )
        }),
{
}

/// Nothing but a verdict of `Ok(true)` lets an attempt go on to the login:
/// whenever the verifier distrusted the key, failed, or was never consulted,
/// the attempt ends before any credential is submitted, and it ends in
/// `ServerCheckFailed` unless no verdict was given and the transport did not
/// come up either.
pub proof fn lemma_untrusted_server_ends_attempt(
    handshake: HandshakeView,
    verdict: Option<Result<bool, Error>>,
    established: bool,
)
    requires
        verdict != Some(Ok::<bool, Error>(true)),
    ensures
        handshake.completed(verdict, established) is Err,
        verdict is Some || established ==> handshake.completed(verdict, established) == Err::<
            LoginView,
            Error,
        >(Error::ServerCheckFailed),
{
}

} // verus!
