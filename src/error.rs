use vstd::prelude::*;

verus! {

/// Every failure a tunnel, its handler or one of its relays can report.
#[derive(Debug, Clone, PartialEq, Eq)]
pub enum TunnelError {
    /// An address that could not be parsed.
    InvalidAddress(String),
    /// A network failure, with a short context tag and the message.
    Io(String, String),
    /// The private key could not be read or decrypted.
    PrivateKey(String),
    /// The variable that holds the key's passphrase could not be read.
    Env(String),
    /// Handshake, authentication or forwarding was refused.
    Ssh(String),
    /// The remote store was selected but no host was configured for it.
    NoRqliteConfig,
    /// The server presented a key whose fingerprint differs from the stored one.
    NastyKey,
    /// The fingerprint store failed.
    StorageLayer(String),
}

pub open spec fn error_message(e: TunnelError) -> Seq<char> {
    match e {
        TunnelError::InvalidAddress(s) => "invalid address supplied: "@ + s@,
        TunnelError::Io(_, s) => "io error: "@ + s@,
        TunnelError::PrivateKey(s) => "private key error: "@ + s@,
        TunnelError::Env(s) => "env variable for private key error: "@ + s@,
        TunnelError::Ssh(s) => "ssh error: "@ + s@,
        TunnelError::NoRqliteConfig => "no rqlite host specified!"@,
        TunnelError::NastyKey => "the server's host key does not match the stored fingerprint!"@,
        TunnelError::StorageLayer(s) => "storage error: "@ + s@,
    }
}

fn prefixed(prefix: &str, s: &String) -> (r: String)
    ensures
        r@ == prefix@ + s@,
{
    let mut r = prefix.to_owned();
    r.append(s.as_str());
    r
}

impl TunnelError {
    /// The human-readable text of the error.
    pub fn message(&self) -> (m: String)
        ensures
            m@ == error_message(*self),
    {
        match self {
            TunnelError::InvalidAddress(s) => prefixed("invalid address supplied: ", s),
            TunnelError::Io(_, s) => prefixed("io error: ", s),
            TunnelError::PrivateKey(s) => prefixed("private key error: ", s),
            TunnelError::Env(s) => prefixed("env variable for private key error: ", s),
            TunnelError::Ssh(s) => prefixed("ssh error: ", s),
            TunnelError::NoRqliteConfig => "no rqlite host specified!".to_owned(),
            TunnelError::NastyKey => "the server's host key does not match the stored fingerprint!".to_owned(),
            TunnelError::StorageLayer(s) => prefixed("storage error: ", s),
        }
    }
}

} // verus!
