use rio_transport::{
    delete_file, delete_file_phoenix, download_file, download_success_message, list_files,
    list_files_phoenix, upload_file, upload_file_phoenix, ConnectionState, Dispatch, Envelope,
    ErrorKind, FileEntry,
};

fn phoenix_state() -> ConnectionState {
    ConnectionState::PhoenixActive { host: "10.0.0.2".to_string(), port: 5800 }
}

fn ssh_state() -> ConnectionState {
    ConnectionState::SshActive { host: "10.0.0.2".to_string(), username: "admin".to_string() }
}

#[test]
fn disconnected_list_is_not_connected() {
    let st = ConnectionState::new();
    let e = list_files(&st, "/").err().expect("must fail while disconnected");
    assert_eq!(e.kind, ErrorKind::NotConnected);
    assert_eq!(e.message(), "Not connected. Please connect to a RoboRIO first.");
}

#[test]
fn disconnected_download_upload_delete_are_not_connected() {
    let st = ConnectionState::new();
    for r in [
        download_file(&st, "/a"),
        upload_file(&st, "/a"),
        delete_file(&st, "/a"),
    ] {
        let e = r.err().expect("must fail while disconnected");
        assert_eq!(e.kind, ErrorKind::NotConnected);
        assert_eq!(e.message(), "Not connected");
    }
}

#[test]
fn phoenix_list_url_encodes_path() {
    let st = phoenix_state();
    match list_files(&st, "/").expect("active session must route") {
        Dispatch::Phoenix { url } => {
            assert_eq!(url, "http://10.0.0.2:5800/api/v1/files?path=Lw==");
        }
        Dispatch::Ssh => panic!("expected a Phoenix dispatch"),
    }
}

#[test]
fn phoenix_op_urls_name_their_endpoints() {
    let st = phoenix_state();
    let cases = [
        (download_file(&st, "/a"), "http://10.0.0.2:5800/api/v1/download?path=L2E="),
        (upload_file(&st, "/a"), "http://10.0.0.2:5800/api/v1/upload?path=L2E="),
        (delete_file(&st, "/a"), "http://10.0.0.2:5800/api/v1/delete?path=L2E="),
    ];
    for (r, expected) in cases {
        match r.expect("active session must route") {
            Dispatch::Phoenix { url } => assert_eq!(url, expected),
            Dispatch::Ssh => panic!("expected a Phoenix dispatch"),
        }
    }
}

#[test]
fn ssh_session_routes_to_sftp() {
    let st = ssh_state();
    assert!(matches!(list_files(&st, "/").unwrap(), Dispatch::Ssh));
    assert!(matches!(download_file(&st, "/a").unwrap(), Dispatch::Ssh));
    assert!(matches!(upload_file(&st, "/a").unwrap(), Dispatch::Ssh));
    assert!(matches!(delete_file(&st, "/a").unwrap(), Dispatch::Ssh));
}

#[test]
fn listing_scenario_returns_entries() {
    // after a reachability probe on 10.0.0.2 and a successful envelope,
    // one entry comes back normalized
    let env = Envelope {
        success: true,
        files: vec![FileEntry {
            name: "a.txt".to_string(),
            path: "/a.txt".to_string(),
            is_dir: false,
            size: 10,
            modified: 0,
        }],
        message: String::new(),
    };
    let files = list_files_phoenix(env).expect("successful envelope lists");
    assert_eq!(files.len(), 1);
    assert_eq!(files[0].name, "a.txt");
    assert_eq!(files[0].path, "/a.txt");
    assert!(!files[0].is_dir);
    assert_eq!(files[0].size, 10);
    assert_eq!(files[0].modified, 0);
}

fn failed_envelope() -> Envelope {
    Envelope { success: false, files: Vec::new(), message: "x".to_string() }
}

#[test]
fn failed_envelope_surfaces_message_verbatim_on_list() {
    let e = list_files_phoenix(failed_envelope()).err().expect("must fail");
    assert_eq!(e.kind, ErrorKind::ProtocolError);
    assert_eq!(e.message(), "x");
}

#[test]
fn failed_envelope_surfaces_message_verbatim_on_upload() {
    let e = upload_file_phoenix(failed_envelope(), "/a").err().expect("must fail");
    assert_eq!(e.kind, ErrorKind::ProtocolError);
    assert_eq!(e.message(), "x");
}

#[test]
fn failed_envelope_surfaces_message_verbatim_on_delete() {
    let e = delete_file_phoenix(failed_envelope()).err().expect("must fail");
    assert_eq!(e.kind, ErrorKind::ProtocolError);
    assert_eq!(e.message(), "x");
}

#[test]
fn repeated_failed_delete_same_category_and_state() {
    let st = phoenix_state();
    let first = delete_file(&st, "/absent");
    assert!(first.is_ok(), "routing itself succeeds");
    let e1 = delete_file_phoenix(Envelope {
        success: false,
        files: Vec::new(),
        message: "No such file".to_string(),
    })
    .err()
    .expect("must fail");
    let e2 = delete_file_phoenix(Envelope {
        success: false,
        files: Vec::new(),
        message: "No such file".to_string(),
    })
    .err()
    .expect("must fail");
    assert_eq!(e1.kind, e2.kind);
    assert_eq!(e1.message(), e2.message());
    // the state the router read is untouched
    match st {
        ConnectionState::PhoenixActive { host, port } => {
            assert_eq!(host, "10.0.0.2");
            assert_eq!(port, 5800);
        }
        _ => panic!("state must be unchanged"),
    }
}

#[test]
fn successful_upload_and_delete_messages() {
    let ok = Envelope { success: true, files: Vec::new(), message: String::new() };
    assert_eq!(upload_file_phoenix(ok, "/home/x").unwrap(), "Uploaded to /home/x");
    let ok = Envelope { success: true, files: Vec::new(), message: String::new() };
    assert_eq!(delete_file_phoenix(ok).unwrap(), "Deleted successfully");
    assert_eq!(download_success_message("/tmp/x"), "Downloaded to /tmp/x");
}
