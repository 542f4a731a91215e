//! The normalized description of a remote file or directory, produced by the
//! listing operation of both transports.

use vstd::prelude::*;

verus! {

/// One remote file or directory, immutable once constructed. Within one
/// listing snapshot it has no identity beyond its `path`; nothing is cached
/// across calls.
pub struct FileEntry {
    pub name: String,
    pub path: String,
    pub is_dir: bool,
    pub size: u64,
    pub modified: i64,
}

/// The abstract value of a [`FileEntry`].
pub struct FileEntryView {
    pub name: Seq<char>,
    pub path: Seq<char>,
    pub is_dir: bool,
    pub size: u64,
    pub modified: i64,
}

impl View for FileEntry {
    type V = FileEntryView;

    open spec fn view(&self) -> FileEntryView {
        FileEntryView {
            name: self.name@,
            path: self.path@,
            is_dir: self.is_dir,
            size: self.size,
            modified: self.modified,
        }
    }
}

} // verus!
