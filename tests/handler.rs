use russh::keys::PublicKey;
use tunglo::error::TunnelError;
use tunglo::handler::{ClientHandler, HostKeyCheck, KeyCheckAction, verify_host_key};
use tunglo::known_hosts::{KnownHosts, StorageError};

fn create_public_key() -> PublicKey {
    PublicKey::from_openssh(
        "ssh-ed25519 AAAAC3NzaC1lZDI1NTE5AAAAILM+rvN+ot98qgEN796jTiQfZfG1KaT0PtFDJ/XFSqti foo@bar.com",
    )
    .unwrap()
}

fn nasty_public_key() -> PublicKey {
    PublicKey::from_openssh(
        "ssh-ed25519 AAAAC3NzaC1lZDI1NTE5AAAAIG9U2GJCV93/x/3BgfIsBGniZxit1ue9PrSU6cYmqcbo pangle@dongle.com",
    )
    .unwrap()
}

fn handler() -> ClientHandler {
    ClientHandler::new("1.2.3.4", 8080, "0.0.0.0", 5050)
}

#[test]
fn no_fingerprint_test() {
    let public_key = create_public_key();
    let fingerprint = public_key.fingerprint(Default::default());
    let mut store = KnownHosts::new();
    let client_handler = handler();

    let result = client_handler.check_server_key(&mut store, &public_key);
    assert!(result.is_ok());
    assert!(result.unwrap());
    assert_eq!(
        store.get_server_fingerprint("0.0.0.0"),
        Ok(Some(fingerprint.to_string()))
    );
}

#[test]
fn nasty_key_test() {
    let mut store = KnownHosts::new();
    let stored = create_public_key().fingerprint(Default::default()).to_string();
    store.store_server_fingerprint("0.0.0.0", &stored).unwrap();
    let nasty_key = nasty_public_key();
    let client_handler = handler();

    let result = client_handler.check_server_key(&mut store, &nasty_key);
    assert!(result.is_err());
    assert!(matches!(result.err().unwrap(), TunnelError::NastyKey));
    assert_eq!(store.get_server_fingerprint("0.0.0.0"), Ok(Some(stored)));
}

#[test]
fn ok_key_test() {
    let mut store = KnownHosts::new();
    let stored = create_public_key().fingerprint(Default::default()).to_string();
    store.store_server_fingerprint("0.0.0.0", &stored).unwrap();
    let key = create_public_key();
    let client_handler = handler();

    let result = client_handler.check_server_key(&mut store, &key);
    assert!(result.is_ok());
    assert!(result.ok().unwrap());
}

#[test]
fn fingerprint_is_sha256_text_of_the_key() {
    let h = handler();
    let a = h.fingerprint_of(&create_public_key());
    let b = h.fingerprint_of(&nasty_public_key());
    assert!(a.starts_with("SHA256:"));
    assert_eq!(a, create_public_key().fingerprint(Default::default()).to_string());
    assert_ne!(a, b);
}

#[test]
fn first_run_learns_second_run_accepts() {
    let mut store = KnownHosts::new();
    assert_eq!(verify_host_key(&mut store, "H", "SHA256:f"), Ok(true));
    assert_eq!(store.get_server_fingerprint("H"), Ok(Some(String::from("SHA256:f"))));
    assert_eq!(verify_host_key(&mut store, "H", "SHA256:f"), Ok(true));
    assert_eq!(verify_host_key(&mut store, "H", "SHA256:g"), Err(TunnelError::NastyKey));
    assert_eq!(store.get_server_fingerprint("H"), Ok(Some(String::from("SHA256:f"))));
    assert_eq!(store.get_server_fingerprint("other"), Ok(None));
}

#[test]
fn duplicate_store_is_refused() {
    let mut store = KnownHosts::new();
    assert_eq!(store.ensure(), Ok(()));
    assert_eq!(store.store_server_fingerprint("H", "a"), Ok(()));
    assert_eq!(
        store.store_server_fingerprint("H", "b"),
        Err(StorageError::DuplicateHost(String::from("H")))
    );
    assert_eq!(store.get_server_fingerprint("H"), Ok(Some(String::from("a"))));
}

#[test]
fn key_check_machine_first_contact() {
    let h = handler();
    let (mut check, first) = h.start_key_check("SHA256:f");
    assert_eq!(first, KeyCheckAction::Lookup(String::from("0.0.0.0")));
    let next = check.on_lookup(Ok(None));
    assert_eq!(
        next,
        KeyCheckAction::Store(String::from("0.0.0.0"), String::from("SHA256:f"))
    );
    assert_eq!(check.on_store(Ok(())), KeyCheckAction::Done(Ok(true)));
}

#[test]
fn key_check_machine_match_and_mismatch() {
    let (mut check, _) = HostKeyCheck::new("h", "SHA256:f");
    assert_eq!(
        check.on_lookup(Ok(Some(String::from("SHA256:f")))),
        KeyCheckAction::Done(Ok(true))
    );
    let (mut check, _) = HostKeyCheck::new("h", "SHA256:f");
    assert_eq!(
        check.on_lookup(Ok(Some(String::from("SHA256:x")))),
        KeyCheckAction::Done(Err(TunnelError::NastyKey))
    );
}

#[test]
fn key_check_machine_storage_errors() {
    let (mut check, _) = HostKeyCheck::new("h", "f");
    assert_eq!(
        check.on_lookup(Err(StorageError::LocalSqlite(String::from("disk I/O error")))),
        KeyCheckAction::Done(Err(TunnelError::StorageLayer(String::from(
            "sqlite returned an error: disk I/O error"
        ))))
    );
    let (mut check, _) = HostKeyCheck::new("h", "f");
    check.on_lookup(Ok(None));
    assert_eq!(
        check.on_store(Err(StorageError::Remote(String::from("timeout")))),
        KeyCheckAction::Done(Err(TunnelError::StorageLayer(String::from(
            "rqlite returned an error: timeout"
        ))))
    );
}

#[test]
fn forwarded_connection_becomes_relay_job() {
    let job = handler().server_channel_open_forwarded_tcpip().unwrap();
    assert_eq!(job.addr(), "1.2.3.4");
    assert_eq!(job.port(), 8080);
    assert_eq!(handler().server_address(), "0.0.0.0");
    assert_eq!(handler().server_port(), 5050);
}
