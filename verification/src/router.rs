//! The command dispatcher: each of the four file operations is routed to
//! whichever transport is active, or fails with a "not connected" error when
//! none is. There is no fallback or retry across transports, and no file
//! operation ever changes the connection state — the dispatcher reads it
//! immutably; only the connect operations replace it.

use vstd::prelude::*;
use vstd::string::StringExecFns;

use crate::error::{ErrorKind, TransportError};
use crate::phoenix::{op_url, op_url_spec};
use crate::state::{ConnectionState, SessionView};

verus! {

/// Where the dispatcher sends one file operation.
pub enum Dispatch {
    /// Issue the operation's HTTP request at this URL (the remote path is
    /// already encoded into the query).
    Phoenix { url: String },
    /// Perform the operation over SFTP on the live SSH session.
    Ssh,
}

fn route(state: &ConnectionState, endpoint: &str, path: &str, missing: &str) -> (r: Result<
    Dispatch,
    TransportError,
>)
    ensures
        state@ is Disconnected ==> (r matches Err(e) && e.kind == ErrorKind::NotConnected
            && e.detail@ == missing@),
        state@ matches SessionView::Phoenix { host, port } ==> (r matches Ok(d) && d matches
            Dispatch::Phoenix { url } && url@ == op_url_spec(host, port, endpoint@, path@)),
        state@ is Ssh ==> (r matches Ok(d) && d is Ssh),
{
    match state {
        ConnectionState::Disconnected => Err(
            TransportError::new(ErrorKind::NotConnected, missing.to_owned()),
        ),
        ConnectionState::PhoenixActive { host, port } => Ok(
            Dispatch::Phoenix { url: op_url(host.as_str(), *port, endpoint, path) },
        ),
        ConnectionState::SshActive { .. } => Ok(Dispatch::Ssh),
    }
}

/// Routes a listing of `path`: never a transport call while disconnected, a
/// `GET /api/v1/files?path=…` on an active Phoenix session, an SFTP readdir
/// on an active SSH session.
pub fn list_files(state: &ConnectionState, path: &str) -> (r: Result<Dispatch, TransportError>)
    ensures
        state@ is Disconnected ==> (r matches Err(e) && e.kind == ErrorKind::NotConnected
            && e.detail@ == "Not connected. Please connect to a RoboRIO first."@),
        state@ matches SessionView::Phoenix { host, port } ==> (r matches Ok(d) && d matches
            Dispatch::Phoenix { url } && url@ == op_url_spec(host, port, "files"@, path@)),
        state@ is Ssh ==> (r matches Ok(d) && d is Ssh),
{
    route(state, "files", path, "Not connected. Please connect to a RoboRIO first.")
}

/// Routes a download of `remote_path`: never a transport call while
/// disconnected, a `GET /api/v1/download?path=…` on an active Phoenix
/// session, an SFTP open-and-read on an active SSH session.
pub fn download_file(state: &ConnectionState, remote_path: &str) -> (r: Result<
    Dispatch,
    TransportError,
>)
    ensures
        state@ is Disconnected ==> (r matches Err(e) && e.kind == ErrorKind::NotConnected
            && e.detail@ == "Not connected"@),
        state@ matches SessionView::Phoenix { host, port } ==> (r matches Ok(d) && d matches
            Dispatch::Phoenix { url } && url@ == op_url_spec(host, port, "download"@, remote_path@)),
        state@ is Ssh ==> (r matches Ok(d) && d is Ssh),
{
    route(state, "download", remote_path, "Not connected")
}

/// Routes an upload to `remote_path`: never a transport call while
/// disconnected, a `POST /api/v1/upload?path=…` (body: the local file's
/// bytes) on an active Phoenix session, an SFTP create-and-write on an
/// active SSH session.
pub fn upload_file(state: &ConnectionState, remote_path: &str) -> (r: Result<
    Dispatch,
    TransportError,
>)
    ensures
        state@ is Disconnected ==> (r matches Err(e) && e.kind == ErrorKind::NotConnected
            && e.detail@ == "Not connected"@),
        state@ matches SessionView::Phoenix { host, port } ==> (r matches Ok(d) && d matches
            Dispatch::Phoenix { url } && url@ == op_url_spec(host, port, "upload"@, remote_path@)),
        state@ is Ssh ==> (r matches Ok(d) && d is Ssh),
{
    route(state, "upload", remote_path, "Not connected")
}

/// Routes a delete of `path`: never a transport call while disconnected, a
/// `DELETE /api/v1/delete?path=…` on an active Phoenix session, an SFTP
/// unlink on an active SSH session.
pub fn delete_file(state: &ConnectionState, path: &str) -> (r: Result<Dispatch, TransportError>)
    ensures
        state@ is Disconnected ==> (r matches Err(e) && e.kind == ErrorKind::NotConnected
            && e.detail@ == "Not connected"@),
        state@ matches SessionView::Phoenix { host, port } ==> (r matches Ok(d) && d matches
            Dispatch::Phoenix { url } && url@ == op_url_spec(host, port, "delete"@, path@)),
        state@ is Ssh ==> (r matches Ok(d) && d is Ssh),
{
    route(state, "delete", path, "Not connected")
}

/// The message reported when a download, over either transport, has written
/// the fetched bytes to the local path.
pub fn download_success_message(local_path: &str) -> (r: String)
    ensures
        r@ == "Downloaded to "@ + local_path@,
{
    let mut m = "Downloaded to ".to_owned();
    m.append(local_path);
    m
}

/// The message reported when an upload, over either transport, has written
/// all bytes to the remote path.
pub fn upload_success_message(remote_path: &str) -> (r: String)
    ensures
        r@ == "Uploaded to "@ + remote_path@,
{
    let mut m = "Uploaded to ".to_owned();
    m.append(remote_path);
    m
}

/// The message reported when a delete, over either transport, has removed
/// the remote file.
pub fn delete_success_message() -> (r: String)
    ensures
        r@ == "Deleted successfully"@,
{
    "Deleted successfully".to_owned()
}

} // verus!
