//! An abstract model of the remote file store, shared by both transports.
//!
//! Neither transport transforms a file's bytes: upload sends the local
//! file's bytes verbatim as the remote file's new whole contents, and
//! download hands the remote file's bytes back verbatim. This module states
//! that semantics over a map from remote path to contents, and proves the
//! round trip it implies.

use vstd::prelude::*;

verus! {

/// The store after uploading `bytes` to `remote`: a whole-file replace.
pub open spec fn store_after_upload(
    store: Map<Seq<char>, Seq<u8>>,
    remote: Seq<char>,
    bytes: Seq<u8>,
) -> Map<Seq<char>, Seq<u8>> {
    store.insert(remote, bytes)
}

/// The store after deleting `remote`.
pub open spec fn store_after_delete(store: Map<Seq<char>, Seq<u8>>, remote: Seq<char>) -> Map<
    Seq<char>,
    Seq<u8>,
> {
    store.remove(remote)
}

/// What downloading `remote` yields: the stored bytes, or nothing when no
/// file is there.
pub open spec fn download_view(store: Map<Seq<char>, Seq<u8>>, remote: Seq<char>) -> Option<
    Seq<u8>,
> {
    if store.dom().contains(remote) {
        Some(store[remote])
    } else {
        None
    }
}

/// Upload/download round trip: against any remote store that honours
/// whole-file writes — as both the Phoenix upload endpoint and SFTP
/// create-and-write do — downloading a path right after uploading bytes to
/// it yields exactly those bytes, whatever the store held before.
pub proof fn lemma_upload_download_roundtrip(
    store: Map<Seq<char>, Seq<u8>>,
    remote: Seq<char>,
    bytes: Seq<u8>,
)
    ensures
        download_view(store_after_upload(store, remote, bytes), remote) == Some(bytes),
{
}

} // verus!
