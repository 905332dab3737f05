use ssh_session::address::SocketAddress;
use ssh_session::client::Client;
use ssh_session::connect::{AuthMethod, AuthReply, Handshake, Login};
use ssh_session::error::Error;
use ssh_session::host_key::{ServerCheckMethod, StoreQuery};

fn address(ip: &str, port: u16) -> SocketAddress {
    SocketAddress { ip: ip.to_string(), port }
}

fn handshake(auth: AuthMethod) -> Handshake {
    Client::<u8>::connect(
        "git.example.org".to_string(),
        &vec![address("192.0.2.10", 22)],
        "deploy",
        auth,
        ServerCheckMethod::DefaultKnownHostsFile,
    )
    .unwrap()
}

fn login(secret: &str) -> Login {
    handshake(AuthMethod::Password(secret.to_string())).completed(Some(Ok(true)), true).unwrap()
}

#[test]
fn connect_without_a_resolved_address_fails() {
    let r = Client::<u8>::connect(
        "nowhere.invalid".to_string(),
        &vec![],
        "root",
        AuthMethod::Password("pw".to_string()),
        ServerCheckMethod::NoCheck,
    );
    assert_eq!(r.unwrap_err(), Error::AddressResolutionEmpty);
}

#[test]
fn connect_dials_the_first_resolved_address_only() {
    let resolved = vec![address("2001:db8::7", 2200), address("192.0.2.10", 22)];
    let hs = Client::<u8>::connect(
        "git.example.org".to_string(),
        &resolved,
        "deploy",
        AuthMethod::Password("pw".to_string()),
        ServerCheckMethod::NoCheck,
    )
    .unwrap();
    assert_eq!(hs.target(), &address("2001:db8::7", 2200));
}

#[test]
fn the_verifier_gets_the_name_as_given_and_the_resolved_port() {
    let resolved = vec![address("192.0.2.10", 2200), address("192.0.2.11", 22)];
    let hs = Client::<u8>::connect(
        "git.example.org".to_string(),
        &resolved,
        "deploy",
        AuthMethod::Password("pw".to_string()),
        ServerCheckMethod::DefaultKnownHostsFile,
    )
    .unwrap();
    assert_eq!(hs.handler().hostname, "git.example.org");
    assert_eq!(hs.handler().port, 2200);
    assert_eq!(hs.handler().server_check, ServerCheckMethod::DefaultKnownHostsFile);
    assert_eq!(
        hs.handler().store_query(),
        StoreQuery::KnownHosts { hostname: "git.example.org".to_string(), port: 2200 }
    );
}

#[test]
fn a_correct_password_gives_a_usable_session() {
    let login = login("s3cret");
    assert_eq!(login.username(), "deploy");
    assert_eq!(login.password(), "s3cret");
    let session = login.answered(AuthReply::Accepted, 9u8).unwrap();
    assert!(!session.is_closed());
    assert_eq!(session.handler().hostname, "git.example.org");
    let (transport, run) = session.execute("uptime").unwrap();
    assert_eq!(*transport, 9);
    assert_eq!(run.command(), "uptime");
}

#[test]
fn a_wrong_password_gives_no_session() {
    let r = login("guess").answered(AuthReply::Rejected, 9u8);
    assert_eq!(r.unwrap_err(), Error::PasswordWrong);
}

#[test]
fn a_transport_failure_during_authentication_gives_no_session() {
    let r = login("s3cret").answered(AuthReply::Failed, 9u8);
    assert_eq!(r.unwrap_err(), Error::TransportError);
}

#[test]
fn a_distrusted_key_ends_the_attempt() {
    let hs = handshake(AuthMethod::Password("pw".to_string()));
    assert_eq!(hs.completed(Some(Ok(false)), false).unwrap_err(), Error::ServerCheckFailed);
    let hs = handshake(AuthMethod::Password("pw".to_string()));
    assert_eq!(hs.completed(Some(Ok(false)), true).unwrap_err(), Error::ServerCheckFailed);
}

#[test]
fn a_failed_check_ends_the_attempt() {
    let hs = handshake(AuthMethod::Password("pw".to_string()));
    let r = hs.completed(Some(Err(Error::ServerCheckFailed)), false);
    assert_eq!(r.unwrap_err(), Error::ServerCheckFailed);
}

#[test]
fn an_unchecked_server_is_not_trusted() {
    let hs = handshake(AuthMethod::Password("pw".to_string()));
    assert_eq!(hs.completed(None, true).unwrap_err(), Error::ServerCheckFailed);
}

#[test]
fn a_transport_that_does_not_come_up_is_a_transport_error() {
    let hs = handshake(AuthMethod::Password("pw".to_string()));
    assert_eq!(hs.completed(None, false).unwrap_err(), Error::TransportError);
    let hs = handshake(AuthMethod::Password("pw".to_string()));
    assert_eq!(hs.completed(Some(Ok(true)), false).unwrap_err(), Error::TransportError);
}

#[test]
fn other_authentication_methods_are_unsupported() {
    let r = handshake(AuthMethod::PublicKey).completed(Some(Ok(true)), true);
    assert_eq!(r.unwrap_err(), Error::UnsupportedAuthMethod);
    let r = handshake(AuthMethod::KeyboardInteractive).completed(Some(Ok(true)), true);
    assert_eq!(r.unwrap_err(), Error::UnsupportedAuthMethod);
}

#[test]
fn the_server_check_comes_before_the_authentication_method() {
    let r = handshake(AuthMethod::PublicKey).completed(Some(Ok(false)), true);
    assert_eq!(r.unwrap_err(), Error::ServerCheckFailed);
    let r = handshake(AuthMethod::KeyboardInteractive).completed(None, false);
    assert_eq!(r.unwrap_err(), Error::TransportError);
}
