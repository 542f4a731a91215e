use rio_transport::{
    connect_phoenix, connect_ssh, ConnectionState, ErrorKind, PhoenixProbe, SshConnectOutcome,
};

#[test]
fn initial_state_is_disconnected() {
    let st = ConnectionState::new();
    assert!(matches!(st, ConnectionState::Disconnected));
}

#[test]
fn phoenix_connect_success_installs_session() {
    let mut st = ConnectionState::new();
    let r = connect_phoenix(&mut st, "10.0.0.2", PhoenixProbe::Reachable);
    let msg = r.expect("reachable probe must connect");
    assert!(msg.contains("10.0.0.2"));
    assert_eq!(msg, "Connected to Phoenix Tuner X on 10.0.0.2");
    match st {
        ConnectionState::PhoenixActive { host, port } => {
            assert_eq!(host, "10.0.0.2");
            assert_eq!(port, 5800);
        }
        _ => panic!("expected an active Phoenix session"),
    }
}

#[test]
fn phoenix_connect_bad_status_leaves_state() {
    let mut st = ConnectionState::new();
    let r = connect_phoenix(&mut st, "10.0.0.2", PhoenixProbe::BadStatus);
    let e = r.err().expect("a non-success status must fail");
    assert_eq!(e.kind, ErrorKind::ConnectionError);
    assert_eq!(e.message(), "Failed to connect to Phoenix diagnostic server");
    assert!(matches!(st, ConnectionState::Disconnected));
}

#[test]
fn phoenix_connect_unreachable_names_cause() {
    let mut st = ConnectionState::new();
    let probe = PhoenixProbe::Unreachable { detail: "connection refused".to_string() };
    let e = connect_phoenix(&mut st, "10.0.0.2", probe).err().expect("must fail");
    assert_eq!(e.kind, ErrorKind::ConnectionError);
    assert_eq!(
        e.message(),
        "Connection error: connection refused. Make sure Phoenix Tuner X is running on port 5800."
    );
    assert!(matches!(st, ConnectionState::Disconnected));
}

#[test]
fn ssh_connect_success_installs_session() {
    let mut st = ConnectionState::new();
    let r = connect_ssh(&mut st, "10.0.0.2", "admin", SshConnectOutcome::Established);
    assert_eq!(r.expect("established session must connect"), "Connected via SSH to 10.0.0.2 as admin");
    match st {
        ConnectionState::SshActive { host, username } => {
            assert_eq!(host, "10.0.0.2");
            assert_eq!(username, "admin");
        }
        _ => panic!("expected an active SSH session"),
    }
}

#[test]
fn ssh_wrong_password_is_auth_error_and_keeps_prior_session() {
    let mut st = ConnectionState::new();
    connect_phoenix(&mut st, "10.0.0.9", PhoenixProbe::Reachable).expect("connect");
    let outcome = SshConnectOutcome::AuthFailed { detail: "access denied".to_string() };
    let e = connect_ssh(&mut st, "10.0.0.2", "admin", outcome).err().expect("must fail");
    assert_eq!(e.kind, ErrorKind::AuthError);
    assert_eq!(e.message(), "Authentication failed: access denied");
    match st {
        ConnectionState::PhoenixActive { host, port } => {
            assert_eq!(host, "10.0.0.9");
            assert_eq!(port, 5800);
        }
        _ => panic!("prior session must be untouched"),
    }
}

#[test]
fn ssh_handshake_failure_is_protocol_error() {
    let mut st = ConnectionState::new();
    let outcome = SshConnectOutcome::HandshakeFailed { detail: "banner exchange".to_string() };
    let e = connect_ssh(&mut st, "10.0.0.2", "admin", outcome).err().expect("must fail");
    assert_eq!(e.kind, ErrorKind::ProtocolError);
    assert_eq!(e.message(), "Handshake failed: banner exchange");
}

#[test]
fn ssh_tcp_failure_is_connection_error() {
    let mut st = ConnectionState::new();
    let outcome = SshConnectOutcome::TcpFailed { detail: "no route to host".to_string() };
    let e = connect_ssh(&mut st, "10.0.0.2", "admin", outcome).err().expect("must fail");
    assert_eq!(e.kind, ErrorKind::ConnectionError);
    assert_eq!(e.message(), "Failed to connect to SSH: no route to host");
}

#[test]
fn last_successful_connect_wins() {
    let mut st = ConnectionState::new();
    connect_phoenix(&mut st, "10.0.0.2", PhoenixProbe::Reachable).expect("connect");
    connect_ssh(&mut st, "10.0.0.3", "admin", SshConnectOutcome::Established).expect("connect");
    match &st {
        ConnectionState::SshActive { host, .. } => assert_eq!(host, "10.0.0.3"),
        _ => panic!("SSH connect must replace the Phoenix session"),
    }
    connect_phoenix(&mut st, "10.0.0.4", PhoenixProbe::Reachable).expect("connect");
    match &st {
        ConnectionState::PhoenixActive { host, .. } => assert_eq!(host, "10.0.0.4"),
        _ => panic!("Phoenix connect must replace the SSH session"),
    }
}
