//! The Phoenix transport: an HTTP/JSON diagnostic service on a fixed port.
//!
//! Every operation after the reachability probe is one HTTP call followed by
//! one decode of the same success/failure envelope. This module holds
//! everything about those calls that is not the network itself: the exact
//! URL of each endpoint (with the path carried base64-encoded in the query),
//! the envelope rules — `success = false` fails the operation with the
//! server's message surfaced verbatim — and the mapping of each failure site
//! to its error category.

use vstd::prelude::*;
use vstd::string::StringExecFns;

use crate::codec::{encode_path, encoded_path};
use crate::entry::FileEntry;
use crate::error::{ErrorKind, TransportError};

verus! {

/// The decimal digit character for `d`.
pub open spec fn digit_char(d: int) -> char {
    if d == 0 {
        '0'
    } else if d == 1 {
        '1'
    } else if d == 2 {
        '2'
    } else if d == 3 {
        '3'
    } else if d == 4 {
        '4'
    } else if d == 5 {
        '5'
    } else if d == 6 {
        '6'
    } else if d == 7 {
        '7'
    } else if d == 8 {
        '8'
    } else {
        '9'
    }
}

/// The decimal digits of `n`, most significant first, no leading zeroes.
pub open spec fn dec_digits(n: int) -> Seq<char>
    recommends
        n >= 0,
    decreases n,
{
    if n < 10 {
        seq![digit_char(n)]
    } else {
        dec_digits(n / 10) + seq![digit_char(n % 10)]
    }
}

fn digit_str(d: u16) -> (r: &'static str)
    requires
        d < 10,
    ensures
        r@ == seq![digit_char(d as int)],
{
    if d == 0 {
        proof {
            reveal_strlit("0");
            assert("0"@ =~= seq![digit_char(0)]);
        }
        "0"
    } else if d == 1 {
        proof {
            reveal_strlit("1");
            assert("1"@ =~= seq![digit_char(1)]);
        }
        "1"
    } else if d == 2 {
        proof {
            reveal_strlit("2");
            assert("2"@ =~= seq![digit_char(2)]);
        }
        "2"
    } else if d == 3 {
        proof {
            reveal_strlit("3");
            assert("3"@ =~= seq![digit_char(3)]);
        }
        "3"
    } else if d == 4 {
        proof {
            reveal_strlit("4");
            assert("4"@ =~= seq![digit_char(4)]);
        }
        "4"
    } else if d == 5 {
        proof {
            reveal_strlit("5");
            assert("5"@ =~= seq![digit_char(5)]);
        }
        "5"
    } else if d == 6 {
        proof {
            reveal_strlit("6");
            assert("6"@ =~= seq![digit_char(6)]);
        }
        "6"
    } else if d == 7 {
        proof {
            reveal_strlit("7");
            assert("7"@ =~= seq![digit_char(7)]);
        }
        "7"
    } else if d == 8 {
        proof {
            reveal_strlit("8");
            assert("8"@ =~= seq![digit_char(8)]);
        }
        "8"
    } else {
        proof {
            reveal_strlit("9");
            assert("9"@ =~= seq![digit_char(9)]);
        }
        "9"
    }
}

/// Renders a port number in decimal.
pub fn u16_decimal(n: u16) -> (r: String)
    ensures
        r@ == dec_digits(n as int),
    decreases n,
{
    if n < 10 {
        digit_str(n).to_owned()
    } else {
        let mut s = u16_decimal(n / 10);
        s.append(digit_str(n % 10));
        s
    }
}

/// `http://{host}:{port}` — the prefix of every Phoenix URL.
pub open spec fn base_url_spec(host: Seq<char>, port: u16) -> Seq<char> {
    "http://"@ + host + ":"@ + dec_digits(port as int)
}

/// The URL of the reachability probe.
pub open spec fn status_url_spec(host: Seq<char>, port: u16) -> Seq<char> {
    base_url_spec(host, port) + "/api/v1/status"@
}

/// The URL of a file operation endpoint, with the remote path carried
/// base64-encoded as the `path` query parameter.
pub open spec fn op_url_spec(host: Seq<char>, port: u16, endpoint: Seq<char>, path: Seq<char>) -> Seq<char> {
    base_url_spec(host, port) + "/api/v1/"@ + endpoint + "?path="@ + encoded_path(path)
}

/// Builds the reachability-probe URL.
pub fn status_url(host: &str, port: u16) -> (r: String)
    ensures
        r@ == status_url_spec(host@, port),
{
    let mut s = "http://".to_owned();
    s.append(host);
    s.append(":");
    let p = u16_decimal(port);
    s.append(p.as_str());
    s.append("/api/v1/status");
    s
}

/// Builds a file-operation URL, encoding the remote path for the query.
pub fn op_url(host: &str, port: u16, endpoint: &str, path: &str) -> (r: String)
    ensures
        r@ == op_url_spec(host@, port, endpoint@, path@),
{
    let mut s = "http://".to_owned();
    s.append(host);
    s.append(":");
    let p = u16_decimal(port);
    s.append(p.as_str());
    s.append("/api/v1/");
    s.append(endpoint);
    s.append("?path=");
    let enc = encode_path(path);
    s.append(enc.as_str());
    s
}

/// The generic Phoenix response shape: `{success, files, message}`, with
/// `files` and `message` defaulting to empty. Fields not relevant to an
/// operation are ignored by that operation.
pub struct Envelope {
    pub success: bool,
    pub files: Vec<FileEntry>,
    pub message: String,
}

/// Completes a Phoenix listing from its decoded envelope: the files on
/// success, otherwise a protocol error carrying the server's message
/// verbatim.
pub fn list_files_phoenix(env: Envelope) -> (r: Result<Vec<FileEntry>, TransportError>)
    ensures
        env.success ==> (r matches Ok(files) && files@ == env.files@),
        !env.success ==> (r matches Err(e) && e.kind == ErrorKind::ProtocolError && e.detail@
            == env.message@),
{
    if env.success {
        Ok(env.files)
    } else {
        Err(TransportError::new(ErrorKind::ProtocolError, env.message))
    }
}

/// Completes a Phoenix upload from its decoded envelope: a success message
/// naming the remote path, or a protocol error carrying the server's message
/// verbatim.
pub fn upload_file_phoenix(env: Envelope, remote_path: &str) -> (r: Result<String, TransportError>)
    ensures
        env.success ==> (r matches Ok(m) && m@ == "Uploaded to "@ + remote_path@),
        !env.success ==> (r matches Err(e) && e.kind == ErrorKind::ProtocolError && e.detail@
            == env.message@),
{
    if env.success {
        Ok(crate::router::upload_success_message(remote_path))
    } else {
        Err(TransportError::new(ErrorKind::ProtocolError, env.message))
    }
}

/// Completes a Phoenix delete from its decoded envelope.
pub fn delete_file_phoenix(env: Envelope) -> (r: Result<String, TransportError>)
    ensures
        env.success ==> (r matches Ok(m) && m@ == "Deleted successfully"@),
        !env.success ==> (r matches Err(e) && e.kind == ErrorKind::ProtocolError && e.detail@
            == env.message@),
{
    if env.success {
        Ok(crate::router::delete_success_message())
    } else {
        Err(TransportError::new(ErrorKind::ProtocolError, env.message))
    }
}

/// The category and message of a failed delete, as a function of the
/// envelope alone.
pub open spec fn envelope_failure(env: Envelope) -> (ErrorKind, Seq<char>)
    recommends
        !env.success,
{
    (ErrorKind::ProtocolError, env.message@)
}

/// A failed Phoenix operation is a pure function of the server's envelope:
/// repeating an operation that failed (a delete of an absent file, say) and
/// receiving the same envelope again fails with the same category and the
/// same message — and no file operation ever touches the connection state,
/// which only the connect operations may replace.
pub proof fn lemma_failure_deterministic(env1: Envelope, env2: Envelope)
    requires
        !env1.success,
        !env2.success,
        env1.message@ == env2.message@,
    ensures
        envelope_failure(env1) == envelope_failure(env2),
{
}

/// A response body that would not parse as the envelope shape.
pub fn envelope_parse_failure(detail: String) -> (e: TransportError)
    ensures
        e.kind == ErrorKind::DecodeError,
        e.detail@ == "Failed to parse response: "@ + detail@,
{
    let mut m = "Failed to parse response: ".to_owned();
    m.append(detail.as_str());
    TransportError::new(ErrorKind::DecodeError, m)
}

/// A listing request that failed on the wire.
pub fn request_failure(detail: String) -> (e: TransportError)
    ensures
        e.kind == ErrorKind::ConnectionError,
        e.detail@ == "Request failed: "@ + detail@,
{
    let mut m = "Request failed: ".to_owned();
    m.append(detail.as_str());
    TransportError::new(ErrorKind::ConnectionError, m)
}

/// A download request that failed on the wire.
pub fn download_request_failure(detail: String) -> (e: TransportError)
    ensures
        e.kind == ErrorKind::ConnectionError,
        e.detail@ == "Download failed: "@ + detail@,
{
    let mut m = "Download failed: ".to_owned();
    m.append(detail.as_str());
    TransportError::new(ErrorKind::ConnectionError, m)
}

/// A download whose response body could not be read to completion.
pub fn body_read_failure(detail: String) -> (e: TransportError)
    ensures
        e.kind == ErrorKind::ConnectionError,
        e.detail@ == "Failed to download: "@ + detail@,
{
    let mut m = "Failed to download: ".to_owned();
    m.append(detail.as_str());
    TransportError::new(ErrorKind::ConnectionError, m)
}

/// An upload request that failed on the wire.
pub fn upload_request_failure(detail: String) -> (e: TransportError)
    ensures
        e.kind == ErrorKind::ConnectionError,
        e.detail@ == "Upload failed: "@ + detail@,
{
    let mut m = "Upload failed: ".to_owned();
    m.append(detail.as_str());
    TransportError::new(ErrorKind::ConnectionError, m)
}

/// A delete request that failed on the wire.
pub fn delete_request_failure(detail: String) -> (e: TransportError)
    ensures
        e.kind == ErrorKind::ConnectionError,
        e.detail@ == "Delete failed: "@ + detail@,
{
    let mut m = "Delete failed: ".to_owned();
    m.append(detail.as_str());
    TransportError::new(ErrorKind::ConnectionError, m)
}

} // verus!
