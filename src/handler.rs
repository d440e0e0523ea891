use crate::error::TunnelError;
use crate::known_hosts::{KnownHosts, StorageError, storage_layer_error, storage_message};
use crate::relay::TunnelRunner;
use russh::keys::PublicKey;
use vstd::prelude::*;

verus! {

#[verifier::external_type_specification]
#[verifier::external_body]
pub struct ExPublicKey(PublicKey);

/// The canonical text of the SHA-256 fingerprint of a server's public key.
pub uninterp spec fn key_fingerprint(key: PublicKey) -> Seq<char>;

/// Relies on `ssh_key::PublicKey::fingerprint` with the default hash (SHA-256)
/// and on the `Display` of `Fingerprint`: `SHA256:` then the digest in
/// unpadded base64. The text depends on the key alone.
#[verifier::external_body]
fn server_fingerprint(key: &PublicKey) -> (r: String)
    ensures
        r@ == key_fingerprint(*key),
{
    key.fingerprint(Default::default()).to_string()
}

/// What trust on first use decides for a presented fingerprint.
#[derive(Debug, Clone, Copy, PartialEq, Eq, Structural)]
pub enum TofuDecision {
    /// The stored fingerprint matches: accept without writing.
    Accept,
    /// Nothing is stored for the host: store the fingerprint, then accept.
    Learn,
    /// A different fingerprint is stored: refuse the server.
    Reject,
}

pub open spec fn tofu_decision(stored: Option<Seq<char>>, presented: Seq<char>) -> TofuDecision {
    match stored {
        None => TofuDecision::Learn,
        Some(s) => if s == presented {
            TofuDecision::Accept
        } else {
            TofuDecision::Reject
        },
    }
}

pub open spec fn stored_for(m: Map<Seq<char>, Seq<char>>, host: Seq<char>) -> Option<Seq<char>> {
    if m.contains_key(host) {
        Some(m[host])
    } else {
        None
    }
}

/// What a host key check asks its driver to do next.
#[derive(Debug, PartialEq, Eq)]
pub enum KeyCheckAction {
    /// Look up the fingerprint stored for this host.
    Lookup(String),
    /// Store this fingerprint for this host.
    Store(String, String),
    /// The check is over: `Ok(true)` accepts the server.
    Done(Result<bool, TunnelError>),
}

#[derive(Debug, Clone, Copy, PartialEq, Eq, Structural)]
pub enum KeyCheckPhase {
    Lookup,
    Store,
    Done,
}

/// One trust-on-first-use check of a server's fingerprint against a store
/// that its driver consults.
#[derive(Debug)]
pub struct HostKeyCheck {
    host: String,
    fingerprint: String,
    phase: KeyCheckPhase,
}

impl HostKeyCheck {
    pub closed spec fn host(&self) -> Seq<char> {
        self.host@
    }

    pub closed spec fn fingerprint(&self) -> Seq<char> {
        self.fingerprint@
    }

    pub closed spec fn phase(&self) -> KeyCheckPhase {
        self.phase
    }

    /// A check of `fingerprint` for `host`; the first action is the lookup.
    pub fn new(host: &str, fingerprint: &str) -> (r: (HostKeyCheck, KeyCheckAction))
        ensures
            r.0.host() == host@,
            r.0.fingerprint() == fingerprint@,
            r.0.phase() == KeyCheckPhase::Lookup,
            r.1 matches KeyCheckAction::Lookup(h) && h@ == host@,
    {
        (
            HostKeyCheck {
                host: host.to_owned(),
                fingerprint: fingerprint.to_owned(),
                phase: KeyCheckPhase::Lookup,
            },
            KeyCheckAction::Lookup(host.to_owned()),
        )
    }

    /// Takes the result of the lookup. A match accepts, a mismatch is a
    /// `NastyKey` error, no record asks to store the fingerprint, and a
    /// store failure is a `StorageLayer` error.
    pub fn on_lookup(&mut self, r: Result<Option<String>, StorageError>) -> (a: KeyCheckAction)
        requires
            old(self).phase() == KeyCheckPhase::Lookup,
        ensures
            final(self).host() == old(self).host(),
            final(self).fingerprint() == old(self).fingerprint(),
            match r {
                Ok(stored) => match tofu_decision(
                    crate::config::opt_view(stored),
                    old(self).fingerprint(),
                ) {
                    TofuDecision::Accept => a == KeyCheckAction::Done(Ok(true))
                        && final(self).phase() == KeyCheckPhase::Done,
                    TofuDecision::Reject => a == KeyCheckAction::Done(Err(TunnelError::NastyKey))
                        && final(self).phase() == KeyCheckPhase::Done,
                    TofuDecision::Learn => (a matches KeyCheckAction::Store(h, f) && h@ == old(
                        self,
                    ).host() && f@ == old(self).fingerprint()) && final(self).phase()
                        == KeyCheckPhase::Store,
                },
                Err(e) => (a matches KeyCheckAction::Done(Err(TunnelError::StorageLayer(m)))
                    && m@ == storage_message(e)) && final(self).phase() == KeyCheckPhase::Done,
            },
    {
        match r {
            Ok(Some(stored)) => {
                self.phase = KeyCheckPhase::Done;
                if stored == self.fingerprint {
                    KeyCheckAction::Done(Ok(true))
                } else {
                    KeyCheckAction::Done(Err(TunnelError::NastyKey))
                }
            },
            Ok(None) => {
                self.phase = KeyCheckPhase::Store;
                KeyCheckAction::Store(self.host.clone(), self.fingerprint.clone())
            },
            Err(e) => {
                self.phase = KeyCheckPhase::Done;
                KeyCheckAction::Done(Err(storage_layer_error(&e)))
            },
        }
    }

    /// Takes the result of storing the fingerprint: success accepts the
    /// server, a failure is a `StorageLayer` error.
    pub fn on_store(&mut self, r: Result<(), StorageError>) -> (a: KeyCheckAction)
        requires
            old(self).phase() == KeyCheckPhase::Store,
        ensures
            final(self).phase() == KeyCheckPhase::Done,
            match r {
                Ok(()) => a == KeyCheckAction::Done(Ok(true)),
                Err(e) => a matches KeyCheckAction::Done(Err(TunnelError::StorageLayer(m)))
                    && m@ == storage_message(e),
            },
    {
        self.phase = KeyCheckPhase::Done;
        match r {
            Ok(()) => KeyCheckAction::Done(Ok(true)),
            Err(e) => KeyCheckAction::Done(Err(storage_layer_error(&e))),
        }
    }
}

/// The outcome of a check against a store that answers every call: accept on
/// a match or a first contact, `NastyKey` on a mismatch.
pub open spec fn tofu_result(stored: Option<Seq<char>>, presented: Seq<char>) -> Result<bool, TunnelError> {
    match tofu_decision(stored, presented) {
        TofuDecision::Reject => Err(TunnelError::NastyKey),
        _ => Ok(true),
    }
}

/// Runs the trust-on-first-use check of `fingerprint` for `host` against an
/// in-memory store: the fingerprint is written, once, only when the host has
/// none; a match or a mismatch writes nothing.
pub fn verify_host_key(store: &mut KnownHosts, host: &str, fingerprint: &str) -> (r: Result<
    bool,
    TunnelError,
>)
    requires
        old(store).wf(),
    ensures
        final(store).wf(),
        r == tofu_result(stored_for(old(store)@, host@), fingerprint@),
        !old(store)@.contains_key(host@) ==> {
            &&& final(store)@ == old(store)@.insert(host@, fingerprint@)
            &&& final(store).write_count() == old(store).write_count() + 1
        },
        old(store)@.contains_key(host@) ==> {
            &&& final(store)@ == old(store)@
            &&& final(store).write_count() == old(store).write_count()
        },
{
    let (mut check, first) = HostKeyCheck::new(host, fingerprint);
    let lookup = match first {
        KeyCheckAction::Lookup(h) => store.get_server_fingerprint(h.as_str()),
        _ => {
            proof {
                assert(false);
            }
            Ok(None)
        },
    };
    match check.on_lookup(lookup) {
        KeyCheckAction::Done(res) => res,
        KeyCheckAction::Store(h, f) => {
            let stored = store.store_server_fingerprint(h.as_str(), f.as_str());
            match check.on_store(stored) {
                KeyCheckAction::Done(res) => res,
                _ => {
                    proof {
                        assert(false);
                    }
                    Ok(true)
                },
            }
        },
        KeyCheckAction::Lookup(_) => {
            proof {
                assert(false);
            }
            Ok(true)
        },
    }
}

/// First contact: with nothing stored for the host, the check accepts and
/// asks for exactly one write, of the presented fingerprint.
pub proof fn lemma_first_contact(m: Map<Seq<char>, Seq<char>>, host: Seq<char>, f: Seq<char>)
    requires
        !m.contains_key(host),
    ensures
        tofu_decision(stored_for(m, host), f) == TofuDecision::Learn,
        tofu_result(stored_for(m, host), f) == Ok::<bool, TunnelError>(true),
        stored_for(m.insert(host, f), host) == Some(f),
{
}

/// A stored fingerprint that matches is accepted without any write.
pub proof fn lemma_match_accepts(m: Map<Seq<char>, Seq<char>>, host: Seq<char>, f: Seq<char>)
    requires
        m.contains_key(host),
        m[host] == f,
    ensures
        tofu_decision(stored_for(m, host), f) == TofuDecision::Accept,
        tofu_result(stored_for(m, host), f) == Ok::<bool, TunnelError>(true),
{
}

/// A stored fingerprint that differs is refused with `NastyKey`, without any
/// write.
pub proof fn lemma_mismatch_rejects(
    m: Map<Seq<char>, Seq<char>>,
    host: Seq<char>,
    f1: Seq<char>,
    f2: Seq<char>,
)
    requires
        m.contains_key(host),
        m[host] == f1,
        f1 != f2,
    ensures
        tofu_decision(stored_for(m, host), f2) == TofuDecision::Reject,
        tofu_result(stored_for(m, host), f2) == Err::<bool, TunnelError>(TunnelError::NastyKey),
{
}

/// Two runs against an unknown host: the first learns the fingerprint, and
/// the second, presented the same fingerprint against the store the first
/// left, accepts without writing.
pub proof fn lemma_learn_then_accept(m: Map<Seq<char>, Seq<char>>, host: Seq<char>, f: Seq<char>)
    requires
        !m.contains_key(host),
    ensures
        tofu_decision(stored_for(m, host), f) == TofuDecision::Learn,
        tofu_decision(stored_for(m.insert(host, f), host), f) == TofuDecision::Accept,
        tofu_result(stored_for(m.insert(host, f), host), f) == Ok::<bool, TunnelError>(true),
{
}

/// The client side of one tunnel's SSH session: checks the server's key and
/// turns each forwarded connection into a relay job.
#[derive(Debug, Clone, PartialEq, Eq)]
pub struct ClientHandler {
    to_addr: String,
    to_port: u16,
    server_address: String,
    server_port: u16,
}

impl ClientHandler {
    pub closed spec fn spec_to(&self) -> (Seq<char>, u16) {
        (self.to_addr@, self.to_port)
    }

    pub closed spec fn spec_server(&self) -> (Seq<char>, u16) {
        (self.server_address@, self.server_port)
    }

    pub fn new(to_addr: &str, to_port: u16, server_address: &str, server_port: u16) -> (h:
        ClientHandler)
        ensures
            h.spec_to() == (to_addr@, to_port),
            h.spec_server() == (server_address@, server_port),
    {
        ClientHandler {
            to_addr: to_addr.to_owned(),
            to_port,
            server_address: server_address.to_owned(),
            server_port,
        }
    }

    pub fn server_address(&self) -> (r: &str)
        ensures
            r@ == self.spec_server().0,
    {
        self.server_address.as_str()
    }

    pub fn server_port(&self) -> (r: u16)
        ensures
            r == self.spec_server().1,
    {
        self.server_port
    }

    /// The check of a server key with this fingerprint, for an asynchronous
    /// store: the host looked up is the server's address.
    pub fn start_key_check(&self, fingerprint: &str) -> (r: (HostKeyCheck, KeyCheckAction))
        ensures
            r.0.host() == self.spec_server().0,
            r.0.fingerprint() == fingerprint@,
            r.0.phase() == KeyCheckPhase::Lookup,
            r.1 matches KeyCheckAction::Lookup(h) && h@ == self.spec_server().0,
    {
        HostKeyCheck::new(self.server_address.as_str(), fingerprint)
    }

    /// The check of a server key with this fingerprint, made against an
    /// in-memory store.
    pub fn check_fingerprint(&self, store: &mut KnownHosts, fingerprint: &str) -> (r: Result<
        bool,
        TunnelError,
    >)
        requires
            old(store).wf(),
        ensures
            final(store).wf(),
            r == tofu_result(stored_for(old(store)@, self.spec_server().0), fingerprint@),
            !old(store)@.contains_key(self.spec_server().0) ==> final(store)@ == old(store)@.insert(
                self.spec_server().0,
                fingerprint@,
            ) && final(store).write_count() == old(store).write_count() + 1,
            old(store)@.contains_key(self.spec_server().0) ==> final(store)@ == old(store)@
                && final(store).write_count() == old(store).write_count(),
    {
        verify_host_key(store, self.server_address.as_str(), fingerprint)
    }

    /// The check of the key the server presented during the handshake,
    /// against an in-memory store.
    pub fn check_server_key(&self, store: &mut KnownHosts, server_public_key: &PublicKey) -> (r:
        Result<bool, TunnelError>)
        requires
            old(store).wf(),
        ensures
            final(store).wf(),
            r == tofu_result(
                stored_for(old(store)@, self.spec_server().0),
                key_fingerprint(*server_public_key),
            ),
            !old(store)@.contains_key(self.spec_server().0) ==> final(store)@ == old(store)@.insert(
                self.spec_server().0,
                key_fingerprint(*server_public_key),
            ) && final(store).write_count() == old(store).write_count() + 1,
            old(store)@.contains_key(self.spec_server().0) ==> final(store)@ == old(store)@
                && final(store).write_count() == old(store).write_count(),
    {
        let fingerprint = server_fingerprint(server_public_key);
        self.check_fingerprint(store, fingerprint.as_str())
    }

    /// The fingerprint of the key a server presented.
    pub fn fingerprint_of(&self, server_public_key: &PublicKey) -> (r: String)
        ensures
            r@ == key_fingerprint(*server_public_key),
    {
        server_fingerprint(server_public_key)
    }

    /// A forwarded connection was opened by the server: the relay job that
    /// dials this tunnel's backend.
    pub fn server_channel_open_forwarded_tcpip(&self) -> (r: Result<TunnelRunner, TunnelError>)
        ensures
            r matches Ok(job) && job.spec_addr() == self.spec_to().0 && job.spec_port()
                == self.spec_to().1,
    {
        TunnelRunner::new(self.to_addr.as_str(), self.to_port)
    }
}

} // verus!
