//! Host-key verification: whether the key a server presents is trusted.
//!
//! The verifier never touches a file. It says which lookup its policy needs
//! ([`ClientHandler::store_query`]), the caller performs the lookup against the
//! key store, and the verifier decides from the answer
//! ([`ClientHandler::check_server_key`]). Every answer that is not positive
//! evidence for the presented key is refused.

use vstd::prelude::*;
use crate::error::Error;

verus! {

/// A public host key in SSH wire encoding: the algorithm's name followed by
/// the key material. Two keys are the same key exactly when their encodings
/// are the same bytes.
#[derive(Clone, Debug, PartialEq, Eq)]
pub struct HostKey {
    pub bytes: Vec<u8>,
}

impl View for HostKey {
    type V = Seq<u8>;

    open spec fn view(&self) -> Seq<u8> {
        self.bytes@
    }
}

impl HostKey {
    /// The key with the given wire encoding.
    pub fn new(bytes: Vec<u8>) -> (key: HostKey)
        ensures
            key@ == bytes@,
    {
        HostKey { bytes }
    }

    /// Compares two keys byte for byte.
    pub fn same_key(&self, other: &HostKey) -> (same: bool)
        ensures
            same == (self@ == other@),
    {
        if self.bytes.len() != other.bytes.len() {
            return false;
        }
        let mut i: usize = 0;
        while i < self.bytes.len()
            invariant
                i <= self.bytes.len(),
                self.bytes.len() == other.bytes.len(),
                forall|j: int| 0 <= j < i ==> self.bytes@[j] == other.bytes@[j],
            decreases self.bytes.len() - i,
        {
            if self.bytes[i] != other.bytes[i] {
                return false;
            }
            i += 1;
        }
        assert(self.bytes@ =~= other.bytes@);
        true
    }
}

/// How the server's host key is checked. Set when the connection is
/// requested and never changed afterwards.
#[derive(Clone, Debug, PartialEq, Eq)]
pub enum ServerCheckMethod {
    /// Trust whatever key the server presents. This switches the protection
    /// against an impersonated server off; it is meant for test setups only.
    NoCheck,
    /// Trust exactly the one public key stored in the file at this path.
    PublicKeyFile(String),
    /// Trust the key that the platform's known-hosts store lists for the peer.
    DefaultKnownHostsFile,
}

/// The mathematical value of a [`ServerCheckMethod`].
pub enum ServerCheckMethodView {
    NoCheck,
    PublicKeyFile(Seq<char>),
    DefaultKnownHostsFile,
}

impl View for ServerCheckMethod {
    type V = ServerCheckMethodView;

    open spec fn view(&self) -> ServerCheckMethodView {
        match self {
            ServerCheckMethod::NoCheck => ServerCheckMethodView::NoCheck,
            ServerCheckMethod::PublicKeyFile(path) => ServerCheckMethodView::PublicKeyFile(path@),
            ServerCheckMethod::DefaultKnownHostsFile => ServerCheckMethodView::DefaultKnownHostsFile,
        }
    }
}

/// The lookup a policy needs from the key store before it can decide.
#[derive(Clone, Debug, PartialEq, Eq)]
pub enum StoreQuery {
    /// The policy decides without the store.
    Nothing,
    /// Read the one public key stored at `path`.
    PublicKeyFile { path: String },
    /// Look the peer up in the platform's known-hosts store and compare what
    /// is listed there with the presented key.
    KnownHosts { hostname: String, port: u16 },
}

/// The mathematical value of a [`StoreQuery`].
pub enum StoreQueryView {
    Nothing,
    PublicKeyFile { path: Seq<char> },
    KnownHosts { hostname: Seq<char>, port: u16 },
}

impl View for StoreQuery {
    type V = StoreQueryView;

    open spec fn view(&self) -> StoreQueryView {
        match self {
            StoreQuery::Nothing => StoreQueryView::Nothing,
            StoreQuery::PublicKeyFile { path } => StoreQueryView::PublicKeyFile { path: path@ },
            StoreQuery::KnownHosts { hostname, port } => StoreQueryView::KnownHosts {
                hostname: hostname@,
                port: *port,
            },
        }
    }
}

/// What the key store answered to a [`StoreQuery`].
#[derive(Clone, Debug, PartialEq, Eq)]
pub enum StoreAnswer {
    /// The key file held this key.
    Key(HostKey),
    /// The known-hosts store lists the presented key for the peer.
    Match,
    /// The known-hosts store has no entry for the peer.
    NotFound,
    /// The known-hosts store lists another key for the peer.
    Mismatch,
    /// The store could not be read, or what it holds is no key.
    Unreadable,
}

/// The mathematical value of a [`StoreAnswer`].
pub enum StoreAnswerView {
    Key(Seq<u8>),
    Match,
    NotFound,
    Mismatch,
    Unreadable,
}

impl View for StoreAnswer {
    type V = StoreAnswerView;

    open spec fn view(&self) -> StoreAnswerView {
        match self {
            StoreAnswer::Key(key) => StoreAnswerView::Key(key@),
            StoreAnswer::Match => StoreAnswerView::Match,
            StoreAnswer::NotFound => StoreAnswerView::NotFound,
            StoreAnswer::Mismatch => StoreAnswerView::Mismatch,
            StoreAnswer::Unreadable => StoreAnswerView::Unreadable,
        }
    }
}

/// The value of an answer that may be absent because the store was not asked.
pub open spec fn answer_view(answer: Option<&StoreAnswer>) -> Option<StoreAnswerView> {
    match answer {
        Some(a) => Some(a@),
        None => None,
    }
}

/// The lookup that a policy needs for the peer `hostname:port`.
pub open spec fn query_for(
    policy: ServerCheckMethodView,
    hostname: Seq<char>,
    port: u16,
) -> StoreQueryView {
    match policy {
        ServerCheckMethodView::NoCheck => StoreQueryView::Nothing,
        ServerCheckMethodView::PublicKeyFile(path) => StoreQueryView::PublicKeyFile { path },
        ServerCheckMethodView::DefaultKnownHostsFile => StoreQueryView::KnownHosts {
            hostname,
            port,
        },
    }
}

/// The trust decision: `Ok(true)` trusts the presented key, `Ok(false)`
/// distrusts it, and `Err(ServerCheckFailed)` says that the check itself
/// could not be made.
///
/// - `NoCheck` trusts every key, whatever the store said.
/// - `PublicKeyFile` trusts the presented key exactly when the file held a
///   key with the same bytes; without a key from the file the check fails.
/// - `DefaultKnownHostsFile` trusts the presented key when the store lists it
///   for the peer; an unlisted peer, another listed key and an unreadable
///   store all fail the check.
pub open spec fn verdict(
    policy: ServerCheckMethodView,
    presented: Seq<u8>,
    answer: Option<StoreAnswerView>,
) -> Result<bool, Error> {
    match policy {
        ServerCheckMethodView::NoCheck => Ok(true),
        ServerCheckMethodView::PublicKeyFile(_) => match answer {
            Some(StoreAnswerView::Key(loaded)) => Ok(loaded == presented),
            _ => Err(Error::ServerCheckFailed),
        },
        ServerCheckMethodView::DefaultKnownHostsFile => match answer {
            Some(StoreAnswerView::Match) => Ok(true),
            _ => Err(Error::ServerCheckFailed),
        },
    }
}

/// The verifier of one connection: the policy, and the peer as the caller
/// named it. `hostname` is the name the caller asked for, not one found by
/// resolving an address back, so that the known-hosts store is searched for
/// the host the user meant.
#[derive(Clone, Debug, PartialEq, Eq)]
pub struct ClientHandler {
    pub hostname: String,
    pub port: u16,
    pub server_check: ServerCheckMethod,
}

/// The mathematical value of a [`ClientHandler`].
pub struct ClientHandlerView {
    pub hostname: Seq<char>,
    pub port: u16,
    pub server_check: ServerCheckMethodView,
}

impl View for ClientHandler {
    type V = ClientHandlerView;

    open spec fn view(&self) -> ClientHandlerView {
        ClientHandlerView {
            hostname: self.hostname@,
            port: self.port,
            server_check: self.server_check@,
        }
    }
}

impl ClientHandler {
    /// The lookup to perform before [`ClientHandler::check_server_key`].
    pub fn store_query(&self) -> (query: StoreQuery)
        ensures
            query@ == query_for(self@.server_check, self@.hostname, self@.port),
    {
        match &self.server_check {
            ServerCheckMethod::NoCheck => StoreQuery::Nothing,
            ServerCheckMethod::PublicKeyFile(path) => StoreQuery::PublicKeyFile {
                path: path.clone(),
            },
            ServerCheckMethod::DefaultKnownHostsFile => StoreQuery::KnownHosts {
                hostname: self.hostname.clone(),
                port: self.port,
            },
        }
    }

    /// Decides whether the key that the server presented is trusted, given
    /// what the store answered to [`ClientHandler::store_query`] (`None` when
    /// it was not asked).
    pub fn check_server_key(&self, presented: &HostKey, answer: Option<&StoreAnswer>) -> (r: Result<
        bool,
        Error,
    >)
        ensures
            r == verdict(self@.server_check, presented@, answer_view(answer)),
            self@.server_check is NoCheck ==> r == Ok::<bool, Error>(true),
            self@.server_check is PublicKeyFile ==> (r == Ok::<bool, Error>(true) <==> answer_view(
                answer,
            ) == Some(StoreAnswerView::Key(presented@))),
            r is Err ==> r == Err::<bool, Error>(Error::ServerCheckFailed),
    {
        match &self.server_check {
            ServerCheckMethod::NoCheck => Ok(true),
            ServerCheckMethod::PublicKeyFile(_) => match answer {
                Some(StoreAnswer::Key(loaded)) => Ok(loaded.same_key(presented)),
                _ => Err(Error::ServerCheckFailed),
            },
            ServerCheckMethod::DefaultKnownHostsFile => match answer {
                Some(StoreAnswer::Match) => Ok(true),
                _ => Err(Error::ServerCheckFailed),
            },
        }
    }
}

/// A key that differs from the stored one in a single bit is not trusted
/// under `PublicKeyFile`: flipping bit `bit` of byte `index` of the stored
/// key gives a key that the verifier answers with `Ok(false)`.
pub proof fn lemma_single_bit_difference_is_distrusted(
    path: Seq<char>,
    stored: Seq<u8>,
    index: int,
    bit: u8,
)
    requires
        0 <= index < stored.len(),
        bit < 8,
    ensures
        verdict(
            ServerCheckMethodView::PublicKeyFile(path),
            stored.update(index, stored[index] ^ (1u8 << bit)),
            Some(StoreAnswerView::Key(stored)),
        ) == Ok::<bool, Error>(false),
{
    let byte = stored[index];
    assert(byte ^ (1u8 << bit) != byte) by (bit_vector)
        requires
            bit < 8,
    ;
    let flipped = stored.update(index, byte ^ (1u8 << bit));
    assert(flipped[index] != stored[index]);
}

/// Trust needs evidence. Under every policy but `NoCheck`, a key is trusted
/// only on the store's positive answer for that very key: the same bytes read
/// from the key file, or a match in the known-hosts store. A store that was
/// not asked, could not be read, does not list the peer or lists another key
/// never leads to trust.
pub proof fn lemma_trust_needs_evidence(
    policy: ServerCheckMethodView,
    presented: Seq<u8>,
    answer: Option<StoreAnswerView>,
)
    requires
        !(policy is NoCheck),
        verdict(policy, presented, answer) == Ok::<bool, Error>(true),
    ensures
        policy is PublicKeyFile ==> answer == Some(StoreAnswerView::Key(presented)),
        policy is DefaultKnownHostsFile ==> answer == Some(StoreAnswerView::Match),
{
}

} // verus!
