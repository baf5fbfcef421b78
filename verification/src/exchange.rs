//! Client and server taken together: what a whole exchange for one file
//! leaves behind.

use vstd::prelude::*;
use crate::client::client_signature;
use crate::delta::{delta_of, patched};
use crate::digest::{base64_text, content_hash_of};
use crate::error::SyncError;
use crate::paths::{has_parent_segment, is_safe_relative};
use crate::protocol::{carried_signature, EntryView, RequestView};
use crate::server::patch_for;
use crate::sync::{local_bytes, run, synced, SyncState};

verus! {

/// What a server that holds the files `remote` answers to a request for a
/// patch: the path is judged first, then the file is looked up, and then
/// the patch is made.
pub open spec fn server_answer(remote: Map<Seq<char>, Seq<u8>>) -> spec_fn(RequestView) -> Result<
    Seq<u8>,
    SyncError,
> {
    |request: RequestView|
        if !is_safe_relative(request.file) {
            Err(SyncError::UnsafePath)
        } else if remote.contains_key(request.file) {
            patch_for(request, remote[request.file])
        } else {
            Err(SyncError::Filesystem)
        }
}

/// A request whose path holds a `..` segment gets the same refusal from
/// every server, whatever files it holds: none of them is looked at.
pub proof fn lemma_parent_segment_reads_nothing(
    request: RequestView,
    remote: Map<Seq<char>, Seq<u8>>,
    other: Map<Seq<char>, Seq<u8>>,
)
    requires
        has_parent_segment(request.file),
    ensures
        server_answer(remote)(request) == Err::<Seq<u8>, SyncError>(SyncError::UnsafePath),
        server_answer(remote)(request) == server_answer(other)(request),
{
}

/// Client and server fit together: where the file differs from the
/// server's, the signature comes through its base64 text unchanged, and the
/// patch that the encoder makes rebuilds the server's bytes from the local
/// ones, the synchronisation ends applied, with the sizes of this exchange,
/// and the working directory holds the server's bytes for the file and is
/// otherwise as it was.
pub proof fn lemma_exchange_delivers(
    store: Map<Seq<char>, Seq<u8>>,
    remote: Map<Seq<char>, Seq<u8>>,
    entry: EntryView,
    delta: Seq<u8>,
)
    requires
        is_safe_relative(entry.path),
        remote.contains_key(entry.path),
        content_hash_of(local_bytes(store, entry.path)) != entry.hash,
        carried_signature(base64_text(client_signature(local_bytes(store, entry.path)))) == Some(
            client_signature(local_bytes(store, entry.path)),
        ),
        delta_of(client_signature(local_bytes(store, entry.path)), remote[entry.path]) == Ok::<
            Seq<u8>,
            SyncError,
        >(delta),
        patched(local_bytes(store, entry.path), delta) == Ok::<Seq<u8>, SyncError>(
            remote[entry.path],
        ),
    ensures
        run(entry, local_bytes(store, entry.path), server_answer(remote)).state
            == SyncState::Applied,
        run(entry, local_bytes(store, entry.path), server_answer(remote)).patch_size
            == delta.len(),
        run(entry, local_bytes(store, entry.path), server_answer(remote)).new_size
            == remote[entry.path].len(),
        synced(store, entry, server_answer(remote)) == store.insert(
            entry.path,
            remote[entry.path],
        ),
{
}

/// A failure on the way fails the file and leaves the working directory as
/// it was: where the server has no such file, cannot read the signature or
/// refuses it, or where its patch does not apply, nothing is written.
pub proof fn lemma_failed_exchange_writes_nothing(
    store: Map<Seq<char>, Seq<u8>>,
    remote: Map<Seq<char>, Seq<u8>>,
    entry: EntryView,
)
    requires
        run(entry, local_bytes(store, entry.path), server_answer(remote)).state
            == SyncState::Failed,
    ensures
        run(entry, local_bytes(store, entry.path), server_answer(remote)).error is Some,
        synced(store, entry, server_answer(remote)) == store,
{
}

} // verus!
