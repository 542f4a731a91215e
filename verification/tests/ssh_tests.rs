use rio_transport::ssh::{
    local_read_failure, readdir_failure, sftp_channel_failure, unlink_failure, write_failure,
};
use rio_transport::{file_name, list_files_ssh, status_url, ErrorKind, RawDirEntry};

#[test]
fn file_name_takes_last_component() {
    assert_eq!(file_name("/home/lvuser/test.txt"), "test.txt");
    assert_eq!(file_name("/a.txt"), "a.txt");
    assert_eq!(file_name("relative/b"), "b");
}

#[test]
fn file_name_handles_non_ascii_components() {
    assert_eq!(file_name("/home/датчик.txt"), "датчик.txt");
}

#[test]
fn file_name_without_slash_is_whole_path() {
    assert_eq!(file_name("noslash"), "noslash");
    assert_eq!(file_name(""), "");
}

#[test]
fn file_name_of_trailing_slash_is_empty() {
    assert_eq!(file_name("/home/"), "");
    assert_eq!(file_name("/"), "");
}

#[test]
fn listing_normalizes_entries() {
    let raws = vec![
        RawDirEntry {
            path: "/home/lvuser/robot.jar".to_string(),
            is_dir: false,
            size: Some(4096),
            modified: Some(1700000000),
        },
        RawDirEntry {
            path: "/home/lvuser/logs".to_string(),
            is_dir: true,
            size: None,
            modified: None,
        },
    ];
    let files = list_files_ssh(&raws);
    assert_eq!(files.len(), 2);
    assert_eq!(files[0].name, "robot.jar");
    assert_eq!(files[0].path, "/home/lvuser/robot.jar");
    assert!(!files[0].is_dir);
    assert_eq!(files[0].size, 4096);
    assert_eq!(files[0].modified, 1700000000);
    // absent stat fields default to zero
    assert_eq!(files[1].name, "logs");
    assert!(files[1].is_dir);
    assert_eq!(files[1].size, 0);
    assert_eq!(files[1].modified, 0);
}

#[test]
fn status_url_names_host_and_port() {
    assert_eq!(status_url("10.0.0.2", 5800), "http://10.0.0.2:5800/api/v1/status");
    assert_eq!(status_url("roborio", 80), "http://roborio:80/api/v1/status");
    assert_eq!(status_url("h", 0), "http://h:0/api/v1/status");
    assert_eq!(status_url("h", 65535), "http://h:65535/api/v1/status");
}

#[test]
fn sftp_failures_are_io_errors_with_operation_prefix() {
    let e = sftp_channel_failure("no channel".to_string());
    assert_eq!(e.kind, ErrorKind::IoError);
    assert_eq!(e.message(), "SFTP error: no channel");
    let e = readdir_failure("permission denied".to_string());
    assert_eq!(e.kind, ErrorKind::IoError);
    assert_eq!(e.message(), "Failed to read directory: permission denied");
    let e = unlink_failure("is a directory".to_string());
    assert_eq!(e.kind, ErrorKind::IoError);
    assert_eq!(e.message(), "Failed to delete: is a directory");
    let e = write_failure("disk full".to_string());
    assert_eq!(e.kind, ErrorKind::IoError);
    assert_eq!(e.message(), "Failed to write file: disk full");
    let e = local_read_failure("not found".to_string());
    assert_eq!(e.kind, ErrorKind::IoError);
    assert_eq!(e.message(), "Failed to read local file: not found");
}

#[test]
fn parse_failure_is_decode_error() {
    let e = rio_transport::phoenix::envelope_parse_failure("expected value".to_string());
    assert_eq!(e.kind, ErrorKind::DecodeError);
    assert_eq!(e.message(), "Failed to parse response: expected value");
}
