//! The SSH transport: POSIX-style file operations over an SFTP channel.
//!
//! SFTP already gives byte-exact file semantics, so no envelope is needed;
//! failures are whatever the SSH/SFTP layer reports, wrapped with a
//! human-readable prefix per operation and categorized as I/O errors. What
//! this module verifies is the normalization of raw directory listings into
//! [`FileEntry`] values: the entry name is the component after the last `/`
//! of the remote path, and size and modification time default to zero when
//! the remote stat omits them (SFTP stat fields are optional per protocol).

use vstd::prelude::*;
use vstd::string::{StrSliceExecFns, StringExecFns};

use crate::entry::FileEntry;
use crate::error::{ErrorKind, TransportError};

verus! {

/// One directory entry as the SFTP layer reports it: the full remote path,
/// the file-type bit, and the optional stat fields.
pub struct RawDirEntry {
    pub path: String,
    pub is_dir: bool,
    pub size: Option<u64>,
    pub modified: Option<i64>,
}

/// The component after the last `/` of a path; the whole path when it has no
/// `/`; empty when it ends in one.
pub open spec fn file_name_spec(s: Seq<char>) -> Seq<char>
    decreases s.len(),
{
    if s.len() == 0 {
        s
    } else if s[s.len() - 1] == '/' {
        Seq::empty()
    } else {
        file_name_spec(s.drop_last()) + seq![s[s.len() - 1]]
    }
}

proof fn lemma_file_name_suffix(s: Seq<char>, j: int)
    requires
        0 <= j <= s.len(),
        forall|k: int| j <= k < s.len() ==> s[k] != '/',
        j == 0 || s[j - 1] == '/',
    ensures
        file_name_spec(s) == s.subrange(j, s.len() as int),
    decreases s.len(),
{
    if s.len() == 0 {
        assert(file_name_spec(s) =~= s.subrange(j, s.len() as int));
    } else if j == s.len() {
        assert(s[s.len() - 1] == '/');
        assert(file_name_spec(s) =~= s.subrange(j, s.len() as int));
    } else {
        assert(s[s.len() - 1] != '/');
        lemma_file_name_suffix(s.drop_last(), j);
        assert(s.drop_last().subrange(j, s.len() - 1) + seq![s[s.len() - 1]] =~= s.subrange(
            j,
            s.len() as int,
        ));
    }
}

/// Extracts the file name from a remote path, verified against
/// [`file_name_spec`].
pub fn file_name(path: &str) -> (r: String)
    ensures
        r@ == file_name_spec(path@),
{
    let n = path.unicode_len();
    let mut j = n;
    while j > 0 && path.get_char(j - 1) != '/'
        invariant
            j <= n,
            n == path@.len(),
            forall|k: int| j <= k < n ==> path@[k] != '/',
        decreases j,
    {
        j = j - 1;
    }
    proof {
        lemma_file_name_suffix(path@, j as int);
    }
    path.substring_char(j, n).to_owned()
}

/// What a normalized entry holds of a raw one.
pub open spec fn normalizes(e: FileEntry, raw: RawDirEntry) -> bool {
    &&& e@.name == file_name_spec(raw.path@)
    &&& e@.path == raw.path@
    &&& e@.is_dir == raw.is_dir
    &&& e@.size == (match raw.size {
        Some(s) => s,
        None => 0u64,
    })
    &&& e@.modified == (match raw.modified {
        Some(m) => m,
        None => 0i64,
    })
}

/// Normalizes an SFTP directory listing: one [`FileEntry`] per raw entry, in
/// order, with the name taken from the remote path and absent stat fields
/// defaulted to zero.
pub fn list_files_ssh(entries: &Vec<RawDirEntry>) -> (r: Vec<FileEntry>)
    ensures
        r@.len() == entries@.len(),
        forall|i: int| 0 <= i < r@.len() ==> #[trigger] normalizes(r@[i], entries@[i]),
{
    let mut r: Vec<FileEntry> = Vec::new();
    let mut k: usize = 0;
    while k < entries.len()
        invariant
            k <= entries@.len(),
            r@.len() == k,
            forall|i: int| 0 <= i < k ==> #[trigger] normalizes(r@[i], entries@[i]),
        decreases entries@.len() - k,
    {
        let raw = &entries[k];
        let name = file_name(raw.path.as_str());
        let size = match raw.size {
            Some(s) => s,
            None => 0u64,
        };
        let modified = match raw.modified {
            Some(m) => m,
            None => 0i64,
        };
        let e = FileEntry { name, path: raw.path.clone(), is_dir: raw.is_dir, size, modified };
        r.push(e);
        k = k + 1;
    }
    r
}

/// The SFTP channel itself could not be opened on the live session.
pub fn sftp_channel_failure(detail: String) -> (e: TransportError)
    ensures
        e.kind == ErrorKind::IoError,
        e.detail@ == "SFTP error: "@ + detail@,
{
    prefixed_io_error("SFTP error: ", detail)
}

/// The remote directory could not be read.
pub fn readdir_failure(detail: String) -> (e: TransportError)
    ensures
        e.kind == ErrorKind::IoError,
        e.detail@ == "Failed to read directory: "@ + detail@,
{
    prefixed_io_error("Failed to read directory: ", detail)
}

/// The remote file could not be opened for reading.
pub fn remote_open_failure(detail: String) -> (e: TransportError)
    ensures
        e.kind == ErrorKind::IoError,
        e.detail@ == "Failed to open file: "@ + detail@,
{
    prefixed_io_error("Failed to open file: ", detail)
}

/// The remote file could not be read to completion.
pub fn remote_read_failure(detail: String) -> (e: TransportError)
    ensures
        e.kind == ErrorKind::IoError,
        e.detail@ == "Failed to read file: "@ + detail@,
{
    prefixed_io_error("Failed to read file: ", detail)
}

/// The remote file could not be created or truncated for writing.
pub fn remote_create_failure(detail: String) -> (e: TransportError)
    ensures
        e.kind == ErrorKind::IoError,
        e.detail@ == "Failed to create remote file: "@ + detail@,
{
    prefixed_io_error("Failed to create remote file: ", detail)
}

/// The file's bytes could not be written out in full, remotely or locally.
pub fn write_failure(detail: String) -> (e: TransportError)
    ensures
        e.kind == ErrorKind::IoError,
        e.detail@ == "Failed to write file: "@ + detail@,
{
    prefixed_io_error("Failed to write file: ", detail)
}

/// The local file to upload could not be read.
pub fn local_read_failure(detail: String) -> (e: TransportError)
    ensures
        e.kind == ErrorKind::IoError,
        e.detail@ == "Failed to read local file: "@ + detail@,
{
    prefixed_io_error("Failed to read local file: ", detail)
}

/// The remote file could not be unlinked.
pub fn unlink_failure(detail: String) -> (e: TransportError)
    ensures
        e.kind == ErrorKind::IoError,
        e.detail@ == "Failed to delete: "@ + detail@,
{
    prefixed_io_error("Failed to delete: ", detail)
}

fn prefixed_io_error(prefix: &str, detail: String) -> (e: TransportError)
    ensures
        e.kind == ErrorKind::IoError,
        e.detail@ == prefix@ + detail@,
{
    let mut m = prefix.to_owned();
    m.append(detail.as_str());
    TransportError::new(ErrorKind::IoError, m)
}

} // verus!
