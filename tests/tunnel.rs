use tunglo::config::{
    EnvOrValue, PrivateKeyPassphrase, RqliteStorageConfig, StorageConfig, StorageType,
    TunnelConfig, TunnelType,
};
use tunglo::error::TunnelError;
use tunglo::known_hosts::StorageError;
use tunglo::storage::{get_storage, remote_auth, StorageEnv, StoragePlan};
use tunglo::tunnel::{
    exit_status, passphrase_from_env, passphrase_source, EnvLookup, PassphraseSource,
    SupervisorAction, Tunnel, TunnelPhase,
};

fn config() -> TunnelConfig {
    TunnelConfig {
        name: String::from("web"),
        remote_ssh_address: String::from("1.1.1.1"),
        remote_ssh_port: 123,
        remote_ssh_user: String::from("macca"),
        private_key_path: String::from("path/ed25519"),
        private_key_passphrase: None,
        remote_interface_address: String::from("1.0.0.0"),
        remote_interface_port: 9002,
        to_address: String::from("localhost"),
        to_port: 8082,
        tun_type: TunnelType::Http,
    }
}

fn local() -> StorageConfig {
    StorageConfig { storage_type: StorageType::Local, rqlite: None }
}

fn no_env() -> StorageEnv {
    StorageEnv { host: None, user: None, password: None }
}

#[test]
fn tunnel_reaches_accepting() {
    let mut t = Tunnel::new(config(), local());
    assert_eq!(t.name(), "web");
    assert_eq!(t.current_phase(), TunnelPhase::Uninitialized);
    assert_eq!(
        t.next_action(),
        SupervisorAction::LoadKey(String::from("path/ed25519"), PassphraseSource::NoPassphrase)
    );
    t.on_step(Ok(()));
    assert_eq!(t.next_action(), SupervisorAction::Connect(String::from("1.1.1.1"), 123));
    t.on_step(Ok(()));
    assert_eq!(t.next_action(), SupervisorAction::Authenticate(String::from("macca")));
    t.on_authenticated(Ok(true));
    assert_eq!(t.next_action(), SupervisorAction::RequestForward(String::from("1.0.0.0"), 9002));
    t.on_step(Ok(()));
    assert_eq!(t.current_phase(), TunnelPhase::Forwarding);
    assert_eq!(t.next_action(), SupervisorAction::OpenSession);
    t.on_step(Ok(()));
    assert_eq!(t.current_phase(), TunnelPhase::Accepting);
    assert_eq!(t.next_action(), SupervisorAction::Accept);
    let handler = t.client_handler();
    let job = handler.server_channel_open_forwarded_tcpip().unwrap();
    assert_eq!(job.addr(), "localhost");
    assert_eq!(job.port(), 8082);
    assert_eq!(handler.server_address(), "1.1.1.1");
    assert_eq!(handler.server_port(), 123);
    t.on_queue_closed();
    assert_eq!(t.next_action(), SupervisorAction::Stop);
    assert_eq!(t.into_outcome(), Some(Ok(())));
}

#[test]
fn nasty_key_during_connect_terminates_the_tunnel() {
    let mut t = Tunnel::new(config(), local());
    t.on_step(Ok(()));
    t.on_step(Err(TunnelError::NastyKey));
    assert_eq!(t.current_phase(), TunnelPhase::Terminated);
    assert_eq!(t.next_action(), SupervisorAction::Stop);
    assert_eq!(t.into_outcome(), Some(Err(TunnelError::NastyKey)));
}

#[test]
fn refused_authentication_terminates_the_tunnel() {
    let mut t = Tunnel::new(config(), local());
    t.on_step(Ok(()));
    t.on_step(Ok(()));
    t.on_authenticated(Ok(false));
    assert_eq!(t.current_phase(), TunnelPhase::Terminated);
    assert_eq!(
        t.into_outcome(),
        Some(Err(TunnelError::Ssh(String::from("public key authentication was refused"))))
    );
}

#[test]
fn key_load_failure_terminates_the_tunnel() {
    let mut t = Tunnel::new(config(), local());
    t.on_step(Err(TunnelError::PrivateKey(String::from("no such file"))));
    assert_eq!(t.current_phase(), TunnelPhase::Terminated);
    assert_eq!(t.storage_config(), &local());
}

#[test]
fn passphrase_sources() {
    assert_eq!(passphrase_source(&None), PassphraseSource::NoPassphrase);
    let inline = PrivateKeyPassphrase { value: Some(String::from("pw")), from_env: None };
    assert_eq!(passphrase_source(&Some(inline)), PassphraseSource::Inline(String::from("pw")));
    let env = PrivateKeyPassphrase { value: None, from_env: Some(String::from("MY_KEY_PASS")) };
    assert_eq!(passphrase_source(&Some(env)), PassphraseSource::Env(String::from("MY_KEY_PASS")));
    let both = PrivateKeyPassphrase {
        value: Some(String::from("pw")),
        from_env: Some(String::from("MY_KEY_PASS")),
    };
    assert_eq!(passphrase_source(&Some(both)), PassphraseSource::NoPassphrase);
    let neither = PrivateKeyPassphrase { value: None, from_env: None };
    assert_eq!(passphrase_source(&Some(neither)), PassphraseSource::NoPassphrase);
}

#[test]
fn passphrase_from_missing_or_non_unicode_variable() {
    assert_eq!(
        passphrase_from_env("MY_KEY_PASS", EnvLookup::NotPresent),
        Err(TunnelError::Env(String::from("MY_KEY_PASS not found in the environment!")))
    );
    assert_eq!(
        passphrase_from_env("MY_KEY_PASS", EnvLookup::NotUnicode),
        Err(TunnelError::Env(String::from("MY_KEY_PASS is not unicode!")))
    );
    assert_eq!(
        passphrase_from_env("MY_KEY_PASS", EnvLookup::Present(String::from("s3cret"))),
        Ok(String::from("s3cret"))
    );
}

#[test]
fn rqlite_storage_with_basic_auth() {
    let cfg = StorageConfig {
        storage_type: StorageType::Rqlite,
        rqlite: Some(RqliteStorageConfig {
            host: EnvOrValue::from_value("https://config-store:4001"),
            user: Some(EnvOrValue::from_value("macca")),
            password: Some(EnvOrValue::from_value("pongle")),
        }),
    };
    assert_eq!(
        get_storage(&cfg, no_env()),
        Ok(StoragePlan::Remote {
            host: String::from("https://config-store:4001"),
            auth: Some((String::from("macca"), String::from("pongle"))),
        })
    );
}

#[test]
fn rqlite_storage_resolves_from_env() {
    let cfg = StorageConfig {
        storage_type: StorageType::Rqlite,
        rqlite: Some(RqliteStorageConfig {
            host: EnvOrValue::from_env_var("HOST"),
            user: Some(EnvOrValue::from_env_var("USER")),
            password: Some(EnvOrValue::from_value("")),
        }),
    };
    let env = StorageEnv {
        host: Some(String::from("http://h:4001")),
        user: Some(String::from("u")),
        password: None,
    };
    assert_eq!(
        get_storage(&cfg, env),
        Ok(StoragePlan::Remote { host: String::from("http://h:4001"), auth: None })
    );
    assert_eq!(get_storage(&cfg, no_env()), Err(TunnelError::NoRqliteConfig));
}

#[test]
fn rqlite_without_settings_is_refused() {
    let cfg = StorageConfig { storage_type: StorageType::Rqlite, rqlite: None };
    assert_eq!(get_storage(&cfg, no_env()), Err(TunnelError::NoRqliteConfig));
    assert_eq!(get_storage(&local(), no_env()), Ok(StoragePlan::Local));
}

#[test]
fn auth_needs_both_non_empty() {
    assert_eq!(
        remote_auth(Some(String::from("u")), Some(String::from("p"))),
        Some((String::from("u"), String::from("p")))
    );
    assert_eq!(remote_auth(Some(String::from("u")), None), None);
    assert_eq!(remote_auth(Some(String::from("")), Some(String::from("p"))), None);
}

#[test]
fn exit_status_is_zero_only_when_all_tunnels_end_cleanly() {
    assert_eq!(exit_status(&vec![]), 0);
    assert_eq!(exit_status(&vec![Ok(()), Ok(())]), 0);
    assert_eq!(exit_status(&vec![Ok(()), Err(TunnelError::NastyKey), Ok(())]), 1);
}

#[test]
fn error_messages() {
    assert_eq!(TunnelError::NoRqliteConfig.message(), "no rqlite host specified!");
    assert_eq!(
        TunnelError::Io(String::from("bad_read"), String::from("reset")).message(),
        "io error: reset"
    );
    assert_eq!(
        TunnelError::Env(String::from("X not found in the environment!")).message(),
        "env variable for private key error: X not found in the environment!"
    );
    assert_eq!(
        StorageError::DuplicateHost(String::from("h")).message(),
        "a fingerprint is already stored for h"
    );
}
