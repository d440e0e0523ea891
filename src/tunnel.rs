use crate::config::{PrivateKeyPassphrase, StorageConfig, TunnelConfig, opt_view};
use crate::error::TunnelError;
use crate::handler::ClientHandler;
use vstd::prelude::*;

verus! {

/// Capacity of the queue between a tunnel's handler and its accept loop.
pub const ACCEPT_QUEUE_CAPACITY: usize = 32;

/// Where the passphrase of a private key comes from.
#[derive(Debug, Clone, PartialEq, Eq)]
pub enum PassphraseSource {
    /// The key is not encrypted.
    NoPassphrase,
    /// The passphrase is given in the configuration.
    Inline(String),
    /// The passphrase is read from the named environment variable.
    Env(String),
}

/// `src` is the source that the passphrase setting `p` calls for.
pub open spec fn source_of(p: Option<PrivateKeyPassphrase>, src: PassphraseSource) -> bool {
    match p {
        Some(PrivateKeyPassphrase { value: Some(v), from_env: None }) => src matches PassphraseSource::Inline(s) && s@ == v@,
        Some(PrivateKeyPassphrase { value: None, from_env: Some(name) }) => src matches PassphraseSource::Env(s) && s@ == name@,
        _ => src == PassphraseSource::NoPassphrase,
    }
}

/// Chooses the passphrase source. Only a setting with exactly one of its two
/// keys is used; any other form loads the key without a passphrase.
pub fn passphrase_source(p: &Option<PrivateKeyPassphrase>) -> (r: PassphraseSource)
    ensures
        source_of(*p, r),
{
    match p {
        Some(PrivateKeyPassphrase { value: Some(v), from_env: None }) => PassphraseSource::Inline(
            v.clone(),
        ),
        Some(PrivateKeyPassphrase { value: None, from_env: Some(name) }) => PassphraseSource::Env(
            name.clone(),
        ),
        _ => PassphraseSource::NoPassphrase,
    }
}

/// What reading an environment variable gave.
#[derive(Debug, Clone, PartialEq, Eq)]
pub enum EnvLookup {
    Present(String),
    NotPresent,
    NotUnicode,
}

pub open spec fn not_found_message(var: Seq<char>) -> Seq<char> {
    var + " not found in the environment!"@
}

pub open spec fn not_unicode_message(var: Seq<char>) -> Seq<char> {
    var + " is not unicode!"@
}

/// The passphrase held by the variable `var`, or the `Env` error that names
/// the variable and says why it could not be used.
pub fn passphrase_from_env(var: &str, lookup: EnvLookup) -> (r: Result<String, TunnelError>)
    ensures
        match lookup {
            EnvLookup::Present(v) => r matches Ok(s) && s@ == v@,
            EnvLookup::NotPresent => r matches Err(TunnelError::Env(m)) && m@ == not_found_message(var@),
            EnvLookup::NotUnicode => r matches Err(TunnelError::Env(m)) && m@ == not_unicode_message(var@),
        },
{
    match lookup {
        EnvLookup::Present(v) => Ok(v),
        EnvLookup::NotPresent => {
            let mut m = var.to_owned();
            m.append(" not found in the environment!");
            Err(TunnelError::Env(m))
        },
        EnvLookup::NotUnicode => {
            let mut m = var.to_owned();
            m.append(" is not unicode!");
            Err(TunnelError::Env(m))
        },
    }
}

/// The lifecycle of one tunnel. Every transition moves forward; a failure at
/// any step moves straight to `Terminated`.
#[derive(Debug, Clone, Copy, PartialEq, Eq, Structural)]
pub enum TunnelPhase {
    Uninitialized,
    KeyLoaded,
    Connected,
    Authenticated,
    Forwarding,
    Accepting,
    Terminated,
}

pub open spec fn phase_rank(p: TunnelPhase) -> nat {
    match p {
        TunnelPhase::Uninitialized => 0,
        TunnelPhase::KeyLoaded => 1,
        TunnelPhase::Connected => 2,
        TunnelPhase::Authenticated => 3,
        TunnelPhase::Forwarding => 4,
        TunnelPhase::Accepting => 5,
        TunnelPhase::Terminated => 6,
    }
}

/// The phase a successful step leads to.
pub open spec fn next_phase(p: TunnelPhase) -> TunnelPhase {
    match p {
        TunnelPhase::Uninitialized => TunnelPhase::KeyLoaded,
        TunnelPhase::KeyLoaded => TunnelPhase::Connected,
        TunnelPhase::Connected => TunnelPhase::Authenticated,
        TunnelPhase::Authenticated => TunnelPhase::Forwarding,
        TunnelPhase::Forwarding => TunnelPhase::Accepting,
        _ => TunnelPhase::Terminated,
    }
}

/// What the supervisor of a tunnel asks its driver to do next.
#[derive(Debug, Clone, PartialEq, Eq)]
pub enum SupervisorAction {
    /// Load the private key at this path with this passphrase source.
    LoadKey(String, PassphraseSource),
    /// Open the SSH session to this host and port; the server key check runs
    /// during the handshake.
    Connect(String, u16),
    /// Authenticate as this user with the loaded key.
    Authenticate(String),
    /// Ask the server to listen on this address and port.
    RequestForward(String, u16),
    /// Open the control session channel.
    OpenSession,
    /// Wait for the next forwarded connection.
    Accept,
    /// Nothing is left to do.
    Stop,
}

/// One tunnel: its settings and where its supervisor stands.
#[derive(Debug)]
pub struct Tunnel {
    name: String,
    remote_ssh_address: String,
    remote_ssh_port: u16,
    remote_ssh_user: String,
    private_key_path: String,
    private_key_passphrase: Option<PrivateKeyPassphrase>,
    remote_interface_address: String,
    remote_interface_port: u16,
    to_address: String,
    to_port: u16,
    storage_config: StorageConfig,
    phase: TunnelPhase,
    outcome: Option<Result<(), TunnelError>>,
}

impl Tunnel {
    pub closed spec fn phase(&self) -> TunnelPhase {
        self.phase
    }

    /// How the tunnel ended, once it has.
    pub closed spec fn outcome(&self) -> Option<Result<(), TunnelError>> {
        self.outcome
    }

    pub closed spec fn spec_name(&self) -> Seq<char> {
        self.name@
    }

    pub closed spec fn spec_to(&self) -> (Seq<char>, u16) {
        (self.to_address@, self.to_port)
    }

    pub closed spec fn spec_remote_ssh(&self) -> (Seq<char>, u16, Seq<char>) {
        (self.remote_ssh_address@, self.remote_ssh_port, self.remote_ssh_user@)
    }

    pub closed spec fn spec_remote_interface(&self) -> (Seq<char>, u16) {
        (self.remote_interface_address@, self.remote_interface_port)
    }

    pub closed spec fn spec_key_path(&self) -> Seq<char> {
        self.private_key_path@
    }

    pub closed spec fn spec_passphrase(&self) -> Option<PrivateKeyPassphrase> {
        self.private_key_passphrase
    }

    pub closed spec fn spec_storage_config(&self) -> StorageConfig {
        self.storage_config
    }

    pub closed spec fn wf(&self) -> bool {
        self.phase == TunnelPhase::Terminated <==> self.outcome is Some
    }

    /// A tunnel for these settings, before any step of its lifecycle.
    pub fn new(config: TunnelConfig, storage_config: StorageConfig) -> (t: Tunnel)
        ensures
            t.wf(),
            t.phase() == TunnelPhase::Uninitialized,
            t.spec_name() == config.name@,
            t.spec_remote_ssh() == (config.remote_ssh_address@, config.remote_ssh_port, config.remote_ssh_user@),
            t.spec_remote_interface() == (config.remote_interface_address@, config.remote_interface_port),
            t.spec_to() == (config.to_address@, config.to_port),
            t.spec_key_path() == config.private_key_path@,
            t.spec_passphrase() == config.private_key_passphrase,
            t.spec_storage_config() == storage_config,
    {
        Tunnel {
            name: config.name,
            remote_ssh_address: config.remote_ssh_address,
            remote_ssh_port: config.remote_ssh_port,
            remote_ssh_user: config.remote_ssh_user,
            private_key_path: config.private_key_path,
            private_key_passphrase: config.private_key_passphrase,
            remote_interface_address: config.remote_interface_address,
            remote_interface_port: config.remote_interface_port,
            to_address: config.to_address,
            to_port: config.to_port,
            storage_config,
            phase: TunnelPhase::Uninitialized,
            outcome: None,
        }
    }

    pub fn name(&self) -> (r: &str)
        ensures
            r@ == self.spec_name(),
    {
        self.name.as_str()
    }

    pub fn storage_config(&self) -> (r: &StorageConfig)
        ensures
            *r == self.spec_storage_config(),
    {
        &self.storage_config
    }

    pub fn current_phase(&self) -> (r: TunnelPhase)
        ensures
            r == self.phase(),
    {
        self.phase
    }

    /// The step the current phase calls for.
    pub fn next_action(&self) -> (a: SupervisorAction)
        ensures
            match self.phase() {
                TunnelPhase::Uninitialized => a matches SupervisorAction::LoadKey(path, src)
                    && path@ == self.spec_key_path() && source_of(self.spec_passphrase(), src),
                TunnelPhase::KeyLoaded => a matches SupervisorAction::Connect(host, port)
                    && host@ == self.spec_remote_ssh().0 && port == self.spec_remote_ssh().1,
                TunnelPhase::Connected => a matches SupervisorAction::Authenticate(user) && user@
                    == self.spec_remote_ssh().2,
                TunnelPhase::Authenticated => a matches SupervisorAction::RequestForward(
                    addr,
                    port,
                ) && addr@ == self.spec_remote_interface().0 && port
                    == self.spec_remote_interface().1,
                TunnelPhase::Forwarding => a == SupervisorAction::OpenSession,
                TunnelPhase::Accepting => a == SupervisorAction::Accept,
                TunnelPhase::Terminated => a == SupervisorAction::Stop,
            },
    {
        match self.phase {
            TunnelPhase::Uninitialized => SupervisorAction::LoadKey(
                self.private_key_path.clone(),
                passphrase_source(&self.private_key_passphrase),
            ),
            TunnelPhase::KeyLoaded => SupervisorAction::Connect(
                self.remote_ssh_address.clone(),
                self.remote_ssh_port,
            ),
            TunnelPhase::Connected => SupervisorAction::Authenticate(self.remote_ssh_user.clone()),
            TunnelPhase::Authenticated => SupervisorAction::RequestForward(
                self.remote_interface_address.clone(),
                self.remote_interface_port,
            ),
            TunnelPhase::Forwarding => SupervisorAction::OpenSession,
            TunnelPhase::Accepting => SupervisorAction::Accept,
            TunnelPhase::Terminated => SupervisorAction::Stop,
        }
    }

    /// Takes the result of the step asked for by `next_action` before the tunnel
    /// accepts connections (key load, connect, forward request, session open).
    /// Success moves one phase on; an error terminates the tunnel with it.
    pub fn on_step(&mut self, r: Result<(), TunnelError>)
        requires
            old(self).wf(),
            phase_rank(old(self).phase()) < 5,
            old(self).phase() != TunnelPhase::Connected,
        ensures
            final(self).wf(),
            phase_rank(final(self).phase()) > phase_rank(old(self).phase()),
            match r {
                Ok(()) => final(self).phase() == next_phase(old(self).phase()),
                Err(e) => final(self).phase() == TunnelPhase::Terminated && final(self).outcome()
                    == Some(Err::<(), TunnelError>(e)),
            },
            same_settings(*old(self), *final(self)),
    {
        match r {
            Ok(()) => {
                self.phase = match self.phase {
                    TunnelPhase::Uninitialized => TunnelPhase::KeyLoaded,
                    TunnelPhase::KeyLoaded => TunnelPhase::Connected,
                    TunnelPhase::Authenticated => TunnelPhase::Forwarding,
                    _ => TunnelPhase::Accepting,
                };
            },
            Err(e) => {
                self.phase = TunnelPhase::Terminated;
                self.outcome = Some(Err(e));
            },
        }
    }

    /// Takes the result of public key authentication. A server that refuses
    /// the key terminates the tunnel with an `Ssh` error.
    pub fn on_authenticated(&mut self, r: Result<bool, TunnelError>)
        requires
            old(self).wf(),
            old(self).phase() == TunnelPhase::Connected,
        ensures
            final(self).wf(),
            phase_rank(final(self).phase()) > phase_rank(old(self).phase()),
            same_settings(*old(self), *final(self)),
            match r {
                Ok(true) => final(self).phase() == TunnelPhase::Authenticated,
                Ok(false) => final(self).phase() == TunnelPhase::Terminated
                    && (final(self).outcome() matches Some(Err(TunnelError::Ssh(m)))
                    && m@ == "public key authentication was refused"@),
                Err(e) => final(self).phase() == TunnelPhase::Terminated && final(self).outcome()
                    == Some(Err::<(), TunnelError>(e)),
            },
    {
        match r {
            Ok(true) => {
                self.phase = TunnelPhase::Authenticated;
            },
            Ok(false) => {
                self.phase = TunnelPhase::Terminated;
                self.outcome = Some(
                    Err(TunnelError::Ssh("public key authentication was refused".to_owned())),
                );
            },
            Err(e) => {
                self.phase = TunnelPhase::Terminated;
                self.outcome = Some(Err(e));
            },
        }
    }

    /// The queue of forwarded connections closed: the tunnel ends cleanly.
    pub fn on_queue_closed(&mut self)
        requires
            old(self).wf(),
            old(self).phase() == TunnelPhase::Accepting,
        ensures
            final(self).wf(),
            phase_rank(final(self).phase()) > phase_rank(old(self).phase()),
            final(self).phase() == TunnelPhase::Terminated,
            final(self).outcome() == Some(Ok::<(), TunnelError>(())),
            same_settings(*old(self), *final(self)),
    {
        self.phase = TunnelPhase::Terminated;
        self.outcome = Some(Ok(()));
    }

    /// The handler of this tunnel's session: it checks the server's key under
    /// the server's address and relays forwarded connections to the backend.
    pub fn client_handler(&self) -> (h: ClientHandler)
        ensures
            h.spec_to() == self.spec_to(),
            h.spec_server() == (self.spec_remote_ssh().0, self.spec_remote_ssh().1),
    {
        ClientHandler::new(
            self.to_address.as_str(),
            self.to_port,
            self.remote_ssh_address.as_str(),
            self.remote_ssh_port,
        )
    }

    /// How the tunnel ended; `None` while it still runs.
    pub fn into_outcome(self) -> (r: Option<Result<(), TunnelError>>)
        ensures
            r == self.outcome(),
    {
        self.outcome
    }
}


/// The process exits with 0 when every tunnel ended cleanly, 1 otherwise.
pub open spec fn spec_exit_status(outcomes: Seq<Result<(), TunnelError>>) -> i32 {
    if forall|i: int| 0 <= i < outcomes.len() ==> (#[trigger] outcomes[i]) is Ok {
        0
    } else {
        1
    }
}

/// The exit status of the daemon from the outcomes of all its tunnels, each
/// collected on its own.
pub fn exit_status(outcomes: &Vec<Result<(), TunnelError>>) -> (r: i32)
    ensures
        r == spec_exit_status(outcomes@),
{
    let mut i: usize = 0;
    while i < outcomes.len()
        invariant
            i <= outcomes@.len(),
            forall|j: int| 0 <= j < i ==> (#[trigger] outcomes@[j]) is Ok,
        decreases outcomes@.len() - i,
    {
        if outcomes[i].is_err() {
            return 1;
        }
        i = i + 1;
    }
    0
}

pub open spec fn same_settings(a: Tunnel, b: Tunnel) -> bool {
    &&& a.spec_name() == b.spec_name()
    &&& a.spec_remote_ssh() == b.spec_remote_ssh()
    &&& a.spec_remote_interface() == b.spec_remote_interface()
    &&& a.spec_to() == b.spec_to()
    &&& a.spec_key_path() == b.spec_key_path()
    &&& a.spec_passphrase() == b.spec_passphrase()
    &&& a.spec_storage_config() == b.spec_storage_config()
}

} // verus!
