use crate::config::{
    ConfigError, EnvOrValue, PrivateKeyPassphrase, RqliteStorageConfig, StorageConfig,
    StorageType, TunnelConfig, TunnelType, TungloConfig, opt_view,
};
use vstd::prelude::*;

verus! {

broadcast use vstd::string::axiom_spec_iter;

/// A value of a configuration document: the tree a TOML text parses to.
#[derive(Debug, PartialEq, Eq)]
pub enum ConfigValue {
    Text(String),
    Integer(i64),
    Boolean(bool),
    List(Vec<ConfigValue>),
    /// The entries of a table, each key once.
    Table(Vec<ConfigEntry>),
    /// A float or a date, which no setting takes.
    Other,
}

/// One key of a table and its value.
#[derive(Debug, PartialEq, Eq)]
pub struct ConfigEntry {
    pub key: String,
    pub value: ConfigValue,
}

/// The value of the first entry named `key`.
pub open spec fn lookup(es: Seq<ConfigEntry>, key: Seq<char>) -> Option<ConfigValue>
    decreases es.len(),
{
    if es.len() == 0 {
        None
    } else if es[0].key@ == key {
        Some(es[0].value)
    } else {
        lookup(es.drop_first(), key)
    }
}

pub open spec fn text_of(v: Option<ConfigValue>) -> Option<Seq<char>> {
    match v {
        Some(ConfigValue::Text(s)) => Some(s@),
        _ => None,
    }
}

/// An integer that fits a port number.
pub open spec fn port_of(v: Option<ConfigValue>) -> Option<u16> {
    match v {
        Some(ConfigValue::Integer(i)) => if 0 <= i <= 65535 {
            Some(i as u16)
        } else {
            None
        },
        _ => None,
    }
}

/// An optional text setting: absent, or text.
pub open spec fn opt_text_ok(v: Option<ConfigValue>) -> bool {
    match v {
        None => true,
        Some(ConfigValue::Text(_)) => true,
        _ => false,
    }
}

/// `c` is `w` up to the case of ASCII letters (`w` in lower case).
pub open spec fn char_matches(c: char, w: char) -> bool {
    c == w || ('A' <= c <= 'Z' && c as u32 + 32 == w as u32)
}

/// `s` spells the lower-case word `w`, ignoring the case of ASCII letters.
pub open spec fn spells(s: Seq<char>, w: Seq<char>) -> bool {
    s.len() == w.len() && forall|i: int| 0 <= i < s.len() ==> char_matches(s[i], w[i])
}

pub fn chars_of(s: &str) -> (r: Vec<char>)
    ensures
        r@ == s@,
{
    let mut v: Vec<char> = Vec::new();
    for c in it: s.chars()
        invariant
            v@ == it.seq().take(it.index() as int),
    {
        v.push(c);
    }
    v
}

/// Whether `s` spells the lower-case word `w`, ignoring ASCII case.
pub fn spells_word(s: &str, w: &str) -> (r: bool)
    ensures
        r == spells(s@, w@),
{
    let a = chars_of(s);
    let b = chars_of(w);
    if a.len() != b.len() {
        return false;
    }
    let mut i: usize = 0;
    while i < a.len()
        invariant
            a@ == s@,
            b@ == w@,
            a@.len() == b@.len(),
            i <= a@.len(),
            forall|j: int| 0 <= j < i ==> char_matches(s@[j], w@[j]),
        decreases a@.len() - i,
    {
        let c = a[i];
        let d = b[i];
        if !(c == d || ('A' <= c && c <= 'Z' && c as u32 + 32 == d as u32)) {
            return false;
        }
        i = i + 1;
    }
    true
}

/// The value of the first entry named `key`.
pub fn lookup_entry<'a>(es: &'a Vec<ConfigEntry>, key: &str) -> (r: Option<
    &'a ConfigValue,
>)
    ensures
        match r {
            Some(v) => lookup(es@, key@) == Some(*v),
            None => lookup(es@, key@) is None,
        },
{
    let wanted = key.to_owned();
    let mut i: usize = 0;
    proof {
        assert(es@.subrange(0, es@.len() as int) =~= es@);
    }
    while i < es.len()
        invariant
            i <= es@.len(),
            wanted@ == key@,
            lookup(es@, key@) == lookup(es@.subrange(i as int, es@.len() as int), key@),
        decreases es@.len() - i,
    {
        proof {
            let rest = es@.subrange(i as int, es@.len() as int);
            assert(rest.drop_first() =~= es@.subrange(i + 1, es@.len() as int));
            assert(rest[0] == es@[i as int]);
        }
        if es[i].key == wanted {
            return Some(&es[i].value);
        }
        i = i + 1;
    }
    None
}

fn text_field(es: &Vec<ConfigEntry>, key: &str) -> (r: Result<String, ConfigError>)
    ensures
        match r {
            Ok(s) => text_of(lookup(es@, key@)) == Some(s@),
            Err(_) => text_of(lookup(es@, key@)) is None,
        },
{
    match lookup_entry(es, key) {
        Some(ConfigValue::Text(s)) => Ok(s.clone()),
        Some(_) => Err(ConfigError::InvalidField(key.to_owned())),
        None => Err(ConfigError::MissingField(key.to_owned())),
    }
}

fn opt_text_field(es: &Vec<ConfigEntry>, key: &str) -> (r: Result<
    Option<String>,
    ConfigError,
>)
    ensures
        match r {
            Ok(o) => opt_text_ok(lookup(es@, key@)) && opt_view(o) == text_of(lookup(es@, key@)),
            Err(_) => !opt_text_ok(lookup(es@, key@)),
        },
{
    match lookup_entry(es, key) {
        Some(ConfigValue::Text(s)) => Ok(Some(s.clone())),
        Some(_) => Err(ConfigError::InvalidField(key.to_owned())),
        None => Ok(None),
    }
}

fn port_field(es: &Vec<ConfigEntry>, key: &str) -> (r: Result<u16, ConfigError>)
    ensures
        match r {
            Ok(p) => port_of(lookup(es@, key@)) == Some(p),
            Err(_) => port_of(lookup(es@, key@)) is None,
        },
{
    match lookup_entry(es, key) {
        Some(ConfigValue::Integer(i)) => {
            if 0 <= *i && *i <= 65535 {
                Ok(*i as u16)
            } else {
                Err(ConfigError::InvalidField(key.to_owned()))
            }
        },
        Some(_) => Err(ConfigError::InvalidField(key.to_owned())),
        None => Err(ConfigError::MissingField(key.to_owned())),
    }
}

pub open spec fn tunnel_type_named(s: Seq<char>) -> Option<TunnelType> {
    if spells(s, "http"@) {
        Some(TunnelType::Http)
    } else if spells(s, "http2"@) {
        Some(TunnelType::Http2)
    } else if spells(s, "generic"@) {
        Some(TunnelType::Generic)
    } else {
        None
    }
}

pub open spec fn storage_type_named(s: Seq<char>) -> Option<StorageType> {
    if spells(s, "local"@) {
        Some(StorageType::Local)
    } else if spells(s, "rqlite"@) {
        Some(StorageType::Rqlite)
    } else {
        None
    }
}

impl TunnelType {
    /// The tag named `name`, in any ASCII case: `http`, `http2` or `generic`.
    pub fn from_name(name: &str) -> (r: Option<TunnelType>)
        ensures
            r == tunnel_type_named(name@),
    {
        if spells_word(name, "http") {
            Some(TunnelType::Http)
        } else if spells_word(name, "http2") {
            Some(TunnelType::Http2)
        } else if spells_word(name, "generic") {
            Some(TunnelType::Generic)
        } else {
            None
        }
    }
}

impl StorageType {
    /// The store named `name`, in any ASCII case: `local` or `rqlite`.
    pub fn from_name(name: &str) -> (r: Option<StorageType>)
        ensures
            r == storage_type_named(name@),
    {
        if spells_word(name, "local") {
            Some(StorageType::Local)
        } else if spells_word(name, "rqlite") {
            Some(StorageType::Rqlite)
        } else {
            None
        }
    }
}

pub open spec fn env_keys_known(es: Seq<ConfigEntry>) -> bool {
    forall|i: int|
        0 <= i < es.len() ==> (#[trigger] es[i]).key@ == "from_env"@ || es[i].key@ == "value"@
}

/// A table with only `from_env` and `value`, each text, at least one present.
pub open spec fn env_decodable(v: ConfigValue) -> bool {
    match v {
        ConfigValue::Table(es) => {
            &&& env_keys_known(es@)
            &&& opt_text_ok(lookup(es@, "from_env"@))
            &&& opt_text_ok(lookup(es@, "value"@))
            &&& (lookup(es@, "from_env"@) is Some || lookup(es@, "value"@) is Some)
        },
        _ => false,
    }
}

/// `e` holds the table's `value` if it has one, and its `from_env` otherwise.
pub open spec fn env_decodes(v: ConfigValue, e: EnvOrValue) -> bool {
    match v {
        ConfigValue::Table(es) => match text_of(lookup(es@, "value"@)) {
            Some(val) => e.spec_value() == Some(val) && e.spec_from_env() is None,
            None => e.spec_value() is None && e.spec_from_env() == text_of(
                lookup(es@, "from_env"@),
            ),
        },
        _ => false,
    }
}

pub open spec fn opt_env_decodable(v: Option<ConfigValue>) -> bool {
    match v {
        None => true,
        Some(v) => env_decodable(v),
    }
}

pub open spec fn opt_env_decodes(v: Option<ConfigValue>, e: Option<EnvOrValue>) -> bool {
    match (v, e) {
        (None, None) => true,
        (Some(v), Some(e)) => env_decodes(v, e),
        _ => false,
    }
}

pub open spec fn passphrase_decodable(v: Option<ConfigValue>) -> bool {
    match v {
        None => true,
        Some(ConfigValue::Table(es)) => opt_text_ok(lookup(es@, "value"@)) && opt_text_ok(
            lookup(es@, "from_env"@),
        ),
        _ => false,
    }
}

pub open spec fn passphrase_decodes(v: Option<ConfigValue>, p: Option<PrivateKeyPassphrase>) -> bool {
    match (v, p) {
        (None, None) => true,
        (Some(ConfigValue::Table(es)), Some(pp)) => opt_view(pp.value) == text_of(
            lookup(es@, "value"@),
        ) && opt_view(pp.from_env) == text_of(lookup(es@, "from_env"@)),
        _ => false,
    }
}

pub open spec fn tunnel_type_of(v: Option<ConfigValue>) -> Option<TunnelType> {
    match text_of(v) {
        Some(s) => tunnel_type_named(s),
        None => None,
    }
}

pub open spec fn storage_type_of(v: Option<ConfigValue>) -> Option<StorageType> {
    match text_of(v) {
        Some(s) => storage_type_named(s),
        None => None,
    }
}

pub open spec fn tunnel_decodable(es: Seq<ConfigEntry>) -> bool {
    &&& text_of(lookup(es, "name"@)) is Some
    &&& text_of(lookup(es, "remote_ssh_address"@)) is Some
    &&& port_of(lookup(es, "remote_ssh_port"@)) is Some
    &&& text_of(lookup(es, "remote_ssh_user"@)) is Some
    &&& text_of(lookup(es, "private_key_path"@)) is Some
    &&& passphrase_decodable(lookup(es, "private_key_passphrase"@))
    &&& text_of(lookup(es, "remote_interface_address"@)) is Some
    &&& port_of(lookup(es, "remote_interface_port"@)) is Some
    &&& text_of(lookup(es, "to_address"@)) is Some
    &&& port_of(lookup(es, "to_port"@)) is Some
    &&& tunnel_type_of(lookup(es, "type"@)) is Some
}

pub open spec fn tunnel_decodes(es: Seq<ConfigEntry>, t: TunnelConfig) -> bool {
    &&& text_of(lookup(es, "name"@)) == Some(t.name@)
    &&& text_of(lookup(es, "remote_ssh_address"@)) == Some(t.remote_ssh_address@)
    &&& port_of(lookup(es, "remote_ssh_port"@)) == Some(t.remote_ssh_port)
    &&& text_of(lookup(es, "remote_ssh_user"@)) == Some(t.remote_ssh_user@)
    &&& text_of(lookup(es, "private_key_path"@)) == Some(t.private_key_path@)
    &&& passphrase_decodes(lookup(es, "private_key_passphrase"@), t.private_key_passphrase)
    &&& text_of(lookup(es, "remote_interface_address"@)) == Some(t.remote_interface_address@)
    &&& port_of(lookup(es, "remote_interface_port"@)) == Some(t.remote_interface_port)
    &&& text_of(lookup(es, "to_address"@)) == Some(t.to_address@)
    &&& port_of(lookup(es, "to_port"@)) == Some(t.to_port)
    &&& tunnel_type_of(lookup(es, "type"@)) == Some(t.tun_type)
}

/// Reads a setting given as `{ value = .. }` and/or `{ from_env = .. }`. A
/// table with neither, with another key, or with a value that is not text is
/// refused; with both, `value` wins.
pub fn env_or_value_from(v: &ConfigValue) -> (r: Result<EnvOrValue, ConfigError>)
    ensures
        r is Ok <==> env_decodable(*v),
        r matches Ok(e) ==> (e.spec_value() is Some) != (e.spec_from_env() is Some),
        match r {
            Ok(e) => env_decodes(*v, e),
            Err(_) => !env_decodable(*v),
        },
{
    match v {
        ConfigValue::Table(es) => {
            let from_env_key = "from_env".to_owned();
            let value_key = "value".to_owned();
            let mut i: usize = 0;
            while i < es.len()
                invariant
                    i <= es@.len(),
                    *v == ConfigValue::Table(*es),
                    from_env_key@ == "from_env"@,
                    value_key@ == "value"@,
                    forall|j: int|
                        0 <= j < i ==> (#[trigger] es@[j]).key@ == "from_env"@ || es@[j].key@
                            == "value"@,
                decreases es@.len() - i,
            {
                if !(es[i].key == from_env_key || es[i].key == value_key) {
                    proof {
                        let k = es@[i as int].key@;
                        assert(!(k == "from_env"@ || k == "value"@));
                        assert(!env_keys_known(es@));
                        assert(!env_decodable(*v));
                    }
                    return Err(ConfigError::InvalidField(es[i].key.clone()));
                }
                i = i + 1;
            }
            let from_env = match opt_text_field(es, "from_env") {
                Ok(o) => o,
                Err(e) => return Err(e),
            };
            let value = match opt_text_field(es, "value") {
                Ok(o) => o,
                Err(e) => return Err(e),
            };
            EnvOrValue::from_parts(from_env, value)
        },
        _ => Err(ConfigError::InvalidField("from_env or value".to_owned())),
    }
}

fn opt_env_or_value_from(es: &Vec<ConfigEntry>, key: &str) -> (r: Result<
    Option<EnvOrValue>,
    ConfigError,
>)
    ensures
        r is Ok <==> opt_env_decodable(lookup(es@, key@)),
        match r {
            Ok(e) => opt_env_decodes(lookup(es@, key@), e),
            Err(_) => !opt_env_decodable(lookup(es@, key@)),
        },
{
    match lookup_entry(es, key) {
        None => Ok(None),
        Some(v) => match env_or_value_from(v) {
            Ok(e) => Ok(Some(e)),
            Err(e) => Err(e),
        },
    }
}

fn passphrase_from(es: &Vec<ConfigEntry>) -> (r: Result<Option<PrivateKeyPassphrase>, ConfigError>)
    ensures
        r is Ok <==> passphrase_decodable(lookup(es@, "private_key_passphrase"@)),
        match r {
            Ok(p) => passphrase_decodes(lookup(es@, "private_key_passphrase"@), p),
            Err(_) => !passphrase_decodable(lookup(es@, "private_key_passphrase"@)),
        },
{
    match lookup_entry(es, "private_key_passphrase") {
        None => Ok(None),
        Some(ConfigValue::Table(ps)) => {
            let value = match opt_text_field(ps, "value") {
                Ok(o) => o,
                Err(e) => return Err(e),
            };
            let from_env = match opt_text_field(ps, "from_env") {
                Ok(o) => o,
                Err(e) => return Err(e),
            };
            Ok(Some(PrivateKeyPassphrase { value, from_env }))
        },
        Some(_) => Err(ConfigError::InvalidField("private_key_passphrase".to_owned())),
    }
}

fn tunnel_type_field(es: &Vec<ConfigEntry>) -> (r: Result<TunnelType, ConfigError>)
    ensures
        match r {
            Ok(t) => tunnel_type_of(lookup(es@, "type"@)) == Some(t),
            Err(_) => tunnel_type_of(lookup(es@, "type"@)) is None,
        },
{
    match lookup_entry(es, "type") {
        Some(ConfigValue::Text(s)) => match TunnelType::from_name(s.as_str()) {
            Some(t) => Ok(t),
            None => Err(ConfigError::InvalidField("type".to_owned())),
        },
        Some(_) => Err(ConfigError::InvalidField("type".to_owned())),
        None => Err(ConfigError::MissingField("type".to_owned())),
    }
}

fn storage_type_field(es: &Vec<ConfigEntry>) -> (r: Result<StorageType, ConfigError>)
    ensures
        match r {
            Ok(t) => storage_type_of(lookup(es@, "type"@)) == Some(t),
            Err(_) => storage_type_of(lookup(es@, "type"@)) is None,
        },
{
    match lookup_entry(es, "type") {
        Some(ConfigValue::Text(s)) => match StorageType::from_name(s.as_str()) {
            Some(t) => Ok(t),
            None => Err(ConfigError::InvalidField("type".to_owned())),
        },
        Some(_) => Err(ConfigError::InvalidField("type".to_owned())),
        None => Err(ConfigError::MissingField("type".to_owned())),
    }
}

/// Reads one `[[tunnels]]` table.
pub fn tunnel_from(es: &Vec<ConfigEntry>) -> (r: Result<TunnelConfig, ConfigError>)
    ensures
        r is Ok <==> tunnel_decodable(es@),
        match r {
            Ok(t) => tunnel_decodes(es@, t),
            Err(_) => !tunnel_decodable(es@),
        },
{
    let name = match text_field(es, "name") {
        Ok(x) => x,
        Err(e) => return Err(e),
    };
    let remote_ssh_address = match text_field(es, "remote_ssh_address") {
        Ok(x) => x,
        Err(e) => return Err(e),
    };
    let remote_ssh_port = match port_field(es, "remote_ssh_port") {
        Ok(x) => x,
        Err(e) => return Err(e),
    };
    let remote_ssh_user = match text_field(es, "remote_ssh_user") {
        Ok(x) => x,
        Err(e) => return Err(e),
    };
    let private_key_path = match text_field(es, "private_key_path") {
        Ok(x) => x,
        Err(e) => return Err(e),
    };
    let private_key_passphrase = match passphrase_from(es) {
        Ok(x) => x,
        Err(e) => return Err(e),
    };
    let remote_interface_address = match text_field(es, "remote_interface_address") {
        Ok(x) => x,
        Err(e) => return Err(e),
    };
    let remote_interface_port = match port_field(es, "remote_interface_port") {
        Ok(x) => x,
        Err(e) => return Err(e),
    };
    let to_address = match text_field(es, "to_address") {
        Ok(x) => x,
        Err(e) => return Err(e),
    };
    let to_port = match port_field(es, "to_port") {
        Ok(x) => x,
        Err(e) => return Err(e),
    };
    let tun_type = match tunnel_type_field(es) {
        Ok(x) => x,
        Err(e) => return Err(e),
    };
    Ok(
        TunnelConfig {
            name,
            remote_ssh_address,
            remote_ssh_port,
            remote_ssh_user,
            private_key_path,
            private_key_passphrase,
            remote_interface_address,
            remote_interface_port,
            to_address,
            to_port,
            tun_type,
        },
    )
}

pub open spec fn rqlite_decodable(v: ConfigValue) -> bool {
    match v {
        ConfigValue::Table(es) => match lookup(es@, "host"@) {
            Some(h) => env_decodable(h) && opt_env_decodable(lookup(es@, "user"@))
                && opt_env_decodable(lookup(es@, "password"@)),
            None => false,
        },
        _ => false,
    }
}

pub open spec fn rqlite_decodes(v: ConfigValue, c: RqliteStorageConfig) -> bool {
    match v {
        ConfigValue::Table(es) => match lookup(es@, "host"@) {
            Some(h) => env_decodes(h, c.host) && opt_env_decodes(lookup(es@, "user"@), c.user)
                && opt_env_decodes(lookup(es@, "password"@), c.password),
            None => false,
        },
        _ => false,
    }
}

pub open spec fn storage_decodable(v: ConfigValue) -> bool {
    match v {
        ConfigValue::Table(es) => storage_type_of(lookup(es@, "type"@)) is Some && match lookup(
            es@,
            "rqlite"@,
        ) {
            None => true,
            Some(r) => rqlite_decodable(r),
        },
        _ => false,
    }
}

pub open spec fn storage_decodes(v: ConfigValue, c: StorageConfig) -> bool {
    match v {
        ConfigValue::Table(es) => storage_type_of(lookup(es@, "type"@)) == Some(c.storage_type)
            && match (lookup(es@, "rqlite"@), c.rqlite) {
            (None, None) => true,
            (Some(r), Some(rc)) => rqlite_decodes(r, rc),
            _ => false,
        },
        _ => false,
    }
}

pub open spec fn tunnel_item_decodable(v: ConfigValue) -> bool {
    match v {
        ConfigValue::Table(es) => tunnel_decodable(es@),
        _ => false,
    }
}

pub open spec fn tunnel_item_decodes(v: ConfigValue, t: TunnelConfig) -> bool {
    match v {
        ConfigValue::Table(es) => tunnel_decodes(es@, t),
        _ => false,
    }
}

pub open spec fn tunnels_decodable(v: Option<ConfigValue>) -> bool {
    match v {
        Some(ConfigValue::List(items)) => forall|i: int|
            0 <= i < items@.len() ==> tunnel_item_decodable(#[trigger] items@[i]),
        _ => false,
    }
}

pub open spec fn tunnels_decode(v: Option<ConfigValue>, ts: Seq<TunnelConfig>) -> bool {
    match v {
        Some(ConfigValue::List(items)) => {
            &&& ts.len() == items@.len()
            &&& forall|i: int|
                0 <= i < items@.len() ==> tunnel_item_decodes(#[trigger] items@[i], ts[i])
        },
        _ => false,
    }
}

/// A document with a well-formed `storage` table and a `tunnels` list of
/// well-formed tunnel tables.
pub open spec fn config_decodable(d: ConfigValue) -> bool {
    match d {
        ConfigValue::Table(es) => match lookup(es@, "storage"@) {
            Some(s) => storage_decodable(s) && tunnels_decodable(lookup(es@, "tunnels"@)),
            None => false,
        },
        _ => false,
    }
}

/// `c` holds what the document says, its tunnels in the document's order.
pub open spec fn config_decodes(d: ConfigValue, c: TungloConfig) -> bool {
    match d {
        ConfigValue::Table(es) => match lookup(es@, "storage"@) {
            Some(s) => storage_decodes(s, c.storage) && tunnels_decode(
                lookup(es@, "tunnels"@),
                c.tunnels@,
            ),
            None => false,
        },
        _ => false,
    }
}

proof fn lemma_refused_item(items: Vec<ConfigValue>, i: int)
    requires
        0 <= i < items@.len(),
        !tunnel_item_decodable(items@[i]),
    ensures
        !tunnels_decodable(Some(ConfigValue::List(items))),
{
    let v = Some(ConfigValue::List(items));
    assert(v matches Some(ConfigValue::List(x)) && x == items);
    assert(tunnels_decodable(v) ==> tunnel_item_decodable(items@[i]));
}

proof fn lemma_accepted_items(items: Vec<ConfigValue>)
    requires
        forall|j: int| 0 <= j < items@.len() ==> tunnel_item_decodable(#[trigger] items@[j]),
    ensures
        tunnels_decodable(Some(ConfigValue::List(items))),
{
    let v = Some(ConfigValue::List(items));
    assert(v matches Some(ConfigValue::List(x)) && x == items);
}

/// Reads the `[storage.rqlite]` table.
pub fn rqlite_from(v: &ConfigValue) -> (r: Result<RqliteStorageConfig, ConfigError>)
    ensures
        r is Ok <==> rqlite_decodable(*v),
        match r {
            Ok(c) => rqlite_decodes(*v, c),
            Err(_) => !rqlite_decodable(*v),
        },
{
    match v {
        ConfigValue::Table(es) => {
            let host = match lookup_entry(es, "host") {
                Some(h) => match env_or_value_from(h) {
                    Ok(x) => x,
                    Err(e) => return Err(e),
                },
                None => return Err(ConfigError::MissingField("host".to_owned())),
            };
            let user = match opt_env_or_value_from(es, "user") {
                Ok(x) => x,
                Err(e) => return Err(e),
            };
            let password = match opt_env_or_value_from(es, "password") {
                Ok(x) => x,
                Err(e) => return Err(e),
            };
            Ok(RqliteStorageConfig { host, user, password })
        },
        _ => Err(ConfigError::InvalidField("rqlite".to_owned())),
    }
}

/// Reads the `[storage]` table.
pub fn storage_from(v: &ConfigValue) -> (r: Result<StorageConfig, ConfigError>)
    ensures
        r is Ok <==> storage_decodable(*v),
        match r {
            Ok(c) => storage_decodes(*v, c),
            Err(_) => !storage_decodable(*v),
        },
{
    match v {
        ConfigValue::Table(es) => {
            let storage_type = match storage_type_field(es) {
                Ok(x) => x,
                Err(e) => return Err(e),
            };
            let rqlite = match lookup_entry(es, "rqlite") {
                None => None,
                Some(r) => match rqlite_from(r) {
                    Ok(x) => Some(x),
                    Err(e) => return Err(e),
                },
            };
            Ok(StorageConfig { storage_type, rqlite })
        },
        _ => Err(ConfigError::InvalidField("storage".to_owned())),
    }
}

impl TungloConfig {
    /// Reads a whole configuration document.
    pub fn from_document(d: &ConfigValue) -> (r: Result<TungloConfig, ConfigError>)
        ensures
            r is Ok <==> config_decodable(*d),
            match r {
                Ok(c) => config_decodes(*d, c),
                Err(_) => !config_decodable(*d),
            },
    {
        let es = match d {
            ConfigValue::Table(es) => es,
            _ => return Err(ConfigError::InvalidField("document".to_owned())),
        };
        let storage = match lookup_entry(es, "storage") {
            Some(s) => match storage_from(s) {
                Ok(x) => x,
                Err(e) => return Err(e),
            },
            None => return Err(ConfigError::MissingField("storage".to_owned())),
        };
        let items = match lookup_entry(es, "tunnels") {
            Some(ConfigValue::List(items)) => items,
            Some(_) => return Err(ConfigError::InvalidField("tunnels".to_owned())),
            None => return Err(ConfigError::MissingField("tunnels".to_owned())),
        };
        let mut tunnels: Vec<TunnelConfig> = Vec::new();
        let mut i: usize = 0;
        while i < items.len()
            invariant
                i <= items@.len(),
                *d == ConfigValue::Table(*es),
                lookup(es@, "tunnels"@) == Some(ConfigValue::List(*items)),
                lookup(es@, "storage"@) matches Some(s) && storage_decodes(s, storage)
                    && storage_decodable(s),
                forall|j: int| 0 <= j < i ==> tunnel_item_decodable(#[trigger] items@[j]),
                tunnels@.len() == i,
                forall|j: int|
                    0 <= j < i ==> tunnel_item_decodes(#[trigger] items@[j], tunnels@[j]),
            decreases items@.len() - i,
        {
            match &items[i] {
                ConfigValue::Table(tes) => match tunnel_from(tes) {
                    Ok(t) => tunnels.push(t),
                    Err(e) => {
                        proof {
                            assert(!tunnel_item_decodable(items@[i as int]));
                            lemma_refused_item(*items, i as int);
                        }
                        return Err(e);
                    },
                },
                _ => {
                    proof {
                        assert(!tunnel_item_decodable(items@[i as int]));
                        lemma_refused_item(*items, i as int);
                    }
                    return Err(ConfigError::InvalidField("tunnels".to_owned()));
                },
            }
            i = i + 1;
        }
        proof {
            lemma_accepted_items(*items);
        }
        Ok(TungloConfig { storage, tunnels })
    }
}

#[verifier::external_type_specification]
#[verifier::external_body]
pub struct ExTomlValue(toml::Value);

/// The tree a TOML text parses to, if the text is well-formed TOML.
pub uninterp spec fn toml_tree(text: Seq<char>) -> Option<ConfigValue>;

/// Relies on `toml::Value`'s variants: strings, integers and booleans are
/// kept, arrays and tables are taken over entry by entry (a table's entries
/// in key order, as its map is ordered), floats and dates have no counterpart.
#[verifier::external_body]
fn from_toml(v: toml::Value) -> ConfigValue {
    match v {
        toml::Value::String(s) => ConfigValue::Text(s),
        toml::Value::Integer(i) => ConfigValue::Integer(i),
        toml::Value::Boolean(b) => ConfigValue::Boolean(b),
        toml::Value::Array(a) => ConfigValue::List(a.into_iter().map(from_toml).collect()),
        toml::Value::Table(t) => ConfigValue::Table(
            t.into_iter().map(|(key, value)| ConfigEntry { key, value: from_toml(value) }).collect(),
        ),
        toml::Value::Float(_) | toml::Value::Datetime(_) => ConfigValue::Other,
    }
}

/// Relies on `toml::Table`'s `FromStr` (the TOML parser): a well-formed text
/// gives its top-level table, anything else an error with a message. The
/// tree depends on the text alone.
#[verifier::external_body]
fn parse_toml(text: &str) -> (r: Result<ConfigValue, String>)
    ensures
        match toml_tree(text@) {
            Some(d) => r == Ok::<ConfigValue, String>(d),
            None => r is Err,
        },
{
    match text.parse::<toml::Table>() {
        Ok(t) => Ok(from_toml(toml::Value::Table(t))),
        Err(e) => Err(e.to_string()),
    }
}

/// Reads a configuration from its TOML text.
pub fn parse_config(text: &str) -> (r: Result<TungloConfig, ConfigError>)
    ensures
        match toml_tree(text@) {
            None => r matches Err(ConfigError::Syntax(_)),
            Some(d) => (r is Ok <==> config_decodable(d)) && match r {
                Ok(c) => config_decodes(d, c),
                Err(_) => !config_decodable(d),
            },
        },
{
    match parse_toml(text) {
        Ok(d) => TungloConfig::from_document(&d),
        Err(msg) => Err(ConfigError::Syntax(msg)),
    }
}

} // verus!
