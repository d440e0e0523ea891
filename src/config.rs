use vstd::prelude::*;

verus! {

/// Where the configuration file is looked for when none is named.
pub const DEFAULT_PATH: &'static str = "~/.config/tunglo.toml";

/// Why a configuration could not be used.
#[derive(Debug, Clone, PartialEq, Eq)]
pub enum ConfigError {
    /// A setting names neither `value` nor `from_env`.
    NoSource,
    /// The text is not a well-formed document.
    Syntax(String),
    /// A required key is absent.
    MissingField(String),
    /// A key holds a value of the wrong kind or out of range.
    InvalidField(String),
}

/// A setting given inline (`value`) or by the name of an environment variable
/// (`from_env`). At least one is set; when both were given, `value` wins and
/// the variable is dropped.
#[derive(Debug, PartialEq, Eq)]
pub struct EnvOrValue {
    from_env: Option<String>,
    value: Option<String>,
}

pub open spec fn opt_view(o: Option<String>) -> Option<Seq<char>> {
    match o {
        Some(s) => Some(s@),
        None => None,
    }
}

impl EnvOrValue {
    #[verifier::type_invariant]
    closed spec fn inv(self) -> bool {
        &&& (self.from_env is Some || self.value is Some)
        &&& !(self.from_env is Some && self.value is Some)
    }

    /// The inline value, if the setting is given inline.
    pub closed spec fn spec_value(&self) -> Option<Seq<char>> {
        opt_view(self.value)
    }

    /// The variable's name, if the setting is read from the environment.
    pub closed spec fn spec_from_env(&self) -> Option<Seq<char>> {
        opt_view(self.from_env)
    }

    /// Builds a setting from the two keys a document may hold.
    pub fn from_parts(from_env: Option<String>, value: Option<String>) -> (r: Result<
        EnvOrValue,
        ConfigError,
    >)
        ensures
            (from_env is None && value is None) <==> r == Err::<EnvOrValue, ConfigError>(
                ConfigError::NoSource,
            ),
            r matches Ok(e) ==> (e.spec_value() is Some) != (e.spec_from_env() is Some),
            value is Some ==> (r matches Ok(e) && e.spec_value() == opt_view(value)
                && e.spec_from_env() is None),
            value is None && from_env is Some ==> (r matches Ok(e) && e.spec_value() is None
                && e.spec_from_env() == opt_view(from_env)),
    {
        match value {
            Some(v) => Ok(EnvOrValue { from_env: None, value: Some(v) }),
            None => match from_env {
                Some(name) => Ok(EnvOrValue { from_env: Some(name), value: None }),
                None => Err(ConfigError::NoSource),
            },
        }
    }

    /// A setting given inline.
    pub fn from_value(value: &str) -> (r: EnvOrValue)
        ensures
            r.spec_value() == Some(value@),
            r.spec_from_env() is None,
    {
        EnvOrValue { from_env: None, value: Some(value.to_owned()) }
    }

    /// A setting read from the named environment variable.
    pub fn from_env_var(name: &str) -> (r: EnvOrValue)
        ensures
            r.spec_value() is None,
            r.spec_from_env() == Some(name@),
    {
        EnvOrValue { from_env: Some(name.to_owned()), value: None }
    }

    /// The text the setting holds: the inline value, or else the variable's name.
    pub fn get(&self) -> (r: &str)
        ensures
            r@ == match self.spec_value() {
                Some(v) => v,
                None => self.spec_from_env()->0,
            },
    {
        proof {
            use_type_invariant(self);
        }
        match &self.value {
            Some(v) => v.as_str(),
            None => match &self.from_env {
                Some(name) => name.as_str(),
                None => {
                    proof {
                        assert(false);
                    }
                    ""
                },
            },
        }
    }

    pub fn value(&self) -> (r: Option<&str>)
        ensures
            match r {
                Some(v) => self.spec_value() == Some(v@),
                None => self.spec_value() is None,
            },
    {
        match &self.value {
            Some(v) => Some(v.as_str()),
            None => None,
        }
    }

    pub fn from_env(&self) -> (r: Option<&str>)
        ensures
            match r {
                Some(v) => self.spec_from_env() == Some(v@),
                None => self.spec_from_env() is None,
            },
    {
        match &self.from_env {
            Some(v) => Some(v.as_str()),
            None => None,
        }
    }

    /// What the setting resolves to, given what the environment holds for its
    /// variable (`None` where it is unset or not text): the inline value
    /// always wins.
    pub fn resolve(&self, env_value: Option<String>) -> (r: Option<String>)
        ensures
            opt_view(r) == match self.spec_value() {
                Some(v) => Some(v),
                None => opt_view(env_value),
            },
    {
        match &self.value {
            Some(v) => Some(v.clone()),
            None => env_value,
        }
    }
}

fn clone_opt(o: &Option<String>) -> (r: Option<String>)
    ensures
        r == *o,
{
    match o {
        Some(s) => Some(s.clone()),
        None => None,
    }
}

impl Clone for EnvOrValue {
    fn clone(&self) -> (r: EnvOrValue)
        ensures
            r == *self,
    {
        proof {
            use_type_invariant(self);
        }
        EnvOrValue { from_env: clone_opt(&self.from_env), value: clone_opt(&self.value) }
    }
}

/// The passphrase of a private key, given inline or by an environment
/// variable's name.
#[derive(Debug, Clone, PartialEq, Eq)]
pub struct PrivateKeyPassphrase {
    /// The passphrase in plain text.
    pub value: Option<String>,
    /// The name of the variable that holds the passphrase.
    pub from_env: Option<String>,
}

#[derive(Debug, Clone, Copy, PartialEq, Eq, Structural)]
pub enum StorageType {
    Local,
    Rqlite,
}

/// Advisory protocol tag of a tunnel; bytes are relayed the same way for all.
#[derive(Debug, Clone, Copy, PartialEq, Eq, Structural)]
pub enum TunnelType {
    Http,
    Http2,
    Generic,
}

#[derive(Debug, Clone, PartialEq, Eq)]
pub struct RqliteStorageConfig {
    pub host: EnvOrValue,
    pub user: Option<EnvOrValue>,
    pub password: Option<EnvOrValue>,
}

#[derive(Debug, Clone, PartialEq, Eq)]
pub struct StorageConfig {
    pub storage_type: StorageType,
    pub rqlite: Option<RqliteStorageConfig>,
}

#[derive(Debug, Clone, PartialEq, Eq)]
pub struct TunnelConfig {
    pub name: String,
    pub remote_ssh_address: String,
    pub remote_ssh_port: u16,
    pub remote_ssh_user: String,
    pub private_key_path: String,
    pub private_key_passphrase: Option<PrivateKeyPassphrase>,
    pub remote_interface_address: String,
    pub remote_interface_port: u16,
    pub to_address: String,
    pub to_port: u16,
    pub tun_type: TunnelType,
}

#[derive(Debug, Clone, PartialEq, Eq)]
pub struct TungloConfig {
    pub storage: StorageConfig,
    pub tunnels: Vec<TunnelConfig>,
}

} // verus!
