use crate::config::{EnvOrValue, StorageConfig, StorageType, opt_view};
use crate::error::TunnelError;
use vstd::prelude::*;

verus! {

/// What the environment holds for the variables the remote store's settings
/// name (`None` where a setting is inline, or its variable is unset or not
/// text).
#[derive(Debug, Clone, PartialEq, Eq)]
pub struct StorageEnv {
    pub host: Option<String>,
    pub user: Option<String>,
    pub password: Option<String>,
}

/// The fingerprint store a configuration selects.
#[derive(Debug, Clone, PartialEq, Eq)]
pub enum StoragePlan {
    /// The embedded SQL file at `LOCAL_DB_PATH`.
    Local,
    /// The remote SQL-over-HTTP cluster at `host`, with basic authentication
    /// when `auth` holds a user and a password.
    Remote { host: String, auth: Option<(String, String)> },
}

/// The fixed path of the embedded fingerprint database.
pub const LOCAL_DB_PATH: &'static str = "./data/known_hosts.db";

/// What an optional setting resolves to.
pub open spec fn resolved(e: Option<EnvOrValue>, env: Option<String>) -> Option<Seq<char>> {
    match e {
        None => None,
        Some(e) => match e.spec_value() {
            Some(v) => Some(v),
            None => opt_view(env),
        },
    }
}

/// Basic authentication is used only when both user and password resolve to
/// non-empty text.
pub open spec fn auth_of(user: Option<Seq<char>>, password: Option<Seq<char>>) -> Option<
    (Seq<char>, Seq<char>),
> {
    match (user, password) {
        (Some(u), Some(p)) => if u.len() > 0 && p.len() > 0 {
            Some((u, p))
        } else {
            None
        },
        _ => None,
    }
}

pub open spec fn auth_view(a: Option<(String, String)>) -> Option<(Seq<char>, Seq<char>)> {
    match a {
        Some((u, p)) => Some((u@, p@)),
        None => None,
    }
}

fn resolve_opt(e: &Option<EnvOrValue>, env: Option<String>) -> (r: Option<String>)
    ensures
        opt_view(r) == resolved(*e, env),
{
    match e {
        Some(e) => e.resolve(env),
        None => None,
    }
}

/// The credentials to authenticate with, from the resolved user and password.
pub fn remote_auth(user: Option<String>, password: Option<String>) -> (r: Option<(String, String)>)
    ensures
        auth_view(r) == auth_of(opt_view(user), opt_view(password)),
{
    match (user, password) {
        (Some(u), Some(p)) => {
            if !u.as_str().is_empty() && !p.as_str().is_empty() {
                Some((u, p))
            } else {
                None
            }
        },
        _ => None,
    }
}

/// Selects the fingerprint store. The remote store needs its settings and a
/// host that resolves; otherwise construction fails with `NoRqliteConfig`.
pub fn get_storage(storage_config: &StorageConfig, env: StorageEnv) -> (r: Result<
    StoragePlan,
    TunnelError,
>)
    ensures
        storage_config.storage_type == StorageType::Local ==> r == Ok::<
            StoragePlan,
            TunnelError,
        >(StoragePlan::Local),
        storage_config.storage_type == StorageType::Rqlite ==> match storage_config.rqlite {
            None => r == Err::<StoragePlan, TunnelError>(TunnelError::NoRqliteConfig),
            Some(c) => match resolved(Some(c.host), env.host) {
                None => r == Err::<StoragePlan, TunnelError>(TunnelError::NoRqliteConfig),
                Some(h) => r matches Ok(StoragePlan::Remote { host, auth }) && host@ == h
                    && auth_view(auth) == auth_of(
                    resolved(c.user, env.user),
                    resolved(c.password, env.password),
                ),
            },
        },
{
    match storage_config.storage_type {
        StorageType::Local => Ok(StoragePlan::Local),
        StorageType::Rqlite => match &storage_config.rqlite {
            None => Err(TunnelError::NoRqliteConfig),
            Some(c) => match c.host.resolve(env.host) {
                None => Err(TunnelError::NoRqliteConfig),
                Some(host) => {
                    let user = resolve_opt(&c.user, env.user);
                    let password = resolve_opt(&c.password, env.password);
                    Ok(StoragePlan::Remote { host, auth: remote_auth(user, password) })
                },
            },
        },
    }
}

} // verus!
