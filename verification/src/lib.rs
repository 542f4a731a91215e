//! Transport abstraction and connection-lifecycle core for managing files on
//! a remote embedded controller.
//!
//! One uniform command surface (connect, list, download, upload, delete)
//! dispatches to whichever of two mutually exclusive transports is active:
//! a vendor HTTP/JSON diagnostic service ("Phoenix") on port 5800, or
//! SSH/SFTP on port 22. The library holds the connection state machine,
//! the Phoenix path encoding and URL construction, the response-envelope
//! rules, the SFTP listing normalization, and the error taxonomy; the
//! network and filesystem calls themselves are performed by the embedding
//! application, which feeds their outcomes back in as plain values.

pub mod codec;
pub mod entry;
pub mod error;
pub mod phoenix;
pub mod router;
pub mod ssh;
pub mod state;
pub mod transfer;

pub use codec::{decode_bytes, decode_path, encode_path};
pub use entry::{FileEntry, FileEntryView};
pub use error::{ErrorKind, TransportError};
pub use phoenix::{
    delete_file_phoenix, list_files_phoenix, op_url, status_url, upload_file_phoenix, Envelope,
};
pub use router::{
    delete_file, delete_success_message, download_file, download_success_message, list_files,
    upload_file, upload_success_message, Dispatch,
};
pub use ssh::{file_name, list_files_ssh, RawDirEntry};
pub use state::{
    connect_phoenix, connect_ssh, ConnectionState, PhoenixProbe, SessionView, SshConnectOutcome,
    PHOENIX_PORT,
};
