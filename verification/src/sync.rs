//! The synchronisation of one file as a state machine, and what holds of
//! every run of it.

use vstd::prelude::*;
use crate::client::client_signature;
use crate::delta::{apply_patch, patched};
use crate::digest::{base64_text, content_hash, content_hash_of};
use crate::error::SyncError;
use crate::paths::{has_parent_segment, is_safe, is_safe_relative};
use crate::protocol::{EntryView, ListingEntry, PatchRequest, RequestView};
use crate::signature::{lemma_default_signature_fits, Signature, DEFAULT_BLOCK_SIZE, DEFAULT_STRONG_LEN};

verus! {

/// How far the synchronisation of one file has come.
#[derive(Clone, Copy, Debug, PartialEq, Eq, Structural)]
pub enum SyncState {
    /// Nothing is known of the local file yet.
    Unchecked,
    /// The local bytes were read and their fingerprint compared with the
    /// listing's.
    HashCompared,
    /// The local file is what the server has. Nothing more happens.
    UpToDate,
    /// The signature of the local bytes was made and the request for a
    /// patch handed out.
    SignatureBuilt,
    /// The patch came and was applied in memory; the new bytes wait to be
    /// written.
    PatchFetched,
    /// The new bytes were written. Nothing more happens.
    Applied,
    /// A step failed. Nothing more happens.
    Failed,
}

/// Whether nothing more happens to a file in state `state`.
pub open spec fn is_terminal(state: SyncState) -> bool {
    state == SyncState::UpToDate || state == SyncState::Applied || state == SyncState::Failed
}

/// The sizes that one update moved.
#[derive(Clone, Debug, PartialEq, Eq)]
pub struct FilePatchStats {
    /// The path of the file below the root.
    pub file: String,
    /// The length of the local bytes before the update.
    pub original_size: usize,
    /// The length of the patch that came from the server.
    pub patch_size: usize,
    /// The length of the bytes after the update.
    pub new_size: usize,
}

/// What is known of the synchronisation of one file.
pub struct SyncView {
    /// The path of the file below the root.
    pub file: Seq<char>,
    /// The fingerprint that the listing gives for the file.
    pub remote_hash: Seq<char>,
    /// How far the synchronisation has come.
    pub state: SyncState,
    /// Why the synchronisation failed, if it did.
    pub error: Option<SyncError>,
    /// The local bytes, empty until they are read.
    pub local: Seq<u8>,
    /// Whether the local fingerprint is the listing's.
    pub same: bool,
    /// The length of the patch, 0 until it has come.
    pub patch_size: nat,
    /// The length of the patched bytes, 0 until the patch is applied.
    pub new_size: nat,
}

impl SyncView {
    /// Whether what is known fits together: the synchronisation has failed
    /// exactly where an error is recorded; a file whose path would leave
    /// the working directory is in no other state than the failed one; and
    /// once the fingerprints are compared, the file is up to date only where
    /// they are equal and a patch is asked for only where they differ.
    pub open spec fn wf(self) -> bool {
        &&& self.state == SyncState::Failed <==> self.error is Some
        &&& self.state != SyncState::Failed ==> is_safe_relative(self.file)
        &&& self.state != SyncState::Unchecked && self.state != SyncState::Failed ==> self.same
            == (content_hash_of(self.local) == self.remote_hash)
        &&& self.state == SyncState::UpToDate ==> self.same
        &&& self.state == SyncState::SignatureBuilt || self.state == SyncState::PatchFetched
            || self.state == SyncState::Applied ==> !self.same
    }
}

/// The synchronisation of one file, step by step. The caller reads and
/// writes files and talks to the server; each method takes what one of
/// these brought and says what comes next.
#[derive(Debug)]
pub struct FileSync {
    file: String,
    remote_hash: String,
    state: SyncState,
    error: Option<SyncError>,
    local: Vec<u8>,
    same: bool,
    patch_size: usize,
    new_size: usize,
}

impl View for FileSync {
    type V = SyncView;

    closed spec fn view(&self) -> SyncView {
        SyncView {
            file: self.file@,
            remote_hash: self.remote_hash@,
            state: self.state,
            error: self.error,
            local: self.local@,
            same: self.same,
            patch_size: self.patch_size as nat,
            new_size: self.new_size as nat,
        }
    }
}

/// Where the synchronisation of `entry` starts. A path that would leave
/// the working directory fails at once, before any file is touched.
pub open spec fn begun(entry: EntryView) -> SyncView {
    SyncView {
        file: entry.path,
        remote_hash: entry.hash,
        state: if is_safe_relative(entry.path) {
            SyncState::Unchecked
        } else {
            SyncState::Failed
        },
        error: if is_safe_relative(entry.path) {
            None
        } else {
            Some(SyncError::UnsafePath)
        },
        local: Seq::empty(),
        same: false,
        patch_size: 0,
        new_size: 0,
    }
}

/// The state after the local bytes `local` were read and compared.
pub open spec fn compared(before: SyncView, local: Seq<u8>) -> SyncView {
    SyncView {
        state: SyncState::HashCompared,
        local,
        same: content_hash_of(local) == before.remote_hash,
        ..before
    }
}

/// The state after the comparison was acted on: equal fingerprints end the
/// synchronisation, different ones lead to a request.
pub open spec fn planned(before: SyncView) -> SyncView {
    SyncView {
        state: if before.same {
            SyncState::UpToDate
        } else {
            SyncState::SignatureBuilt
        },
        ..before
    }
}

/// The request that goes to the server after the comparison: none where
/// the fingerprints are equal, else one for the file with the signature of
/// the local bytes.
pub open spec fn planned_request(before: SyncView) -> Option<RequestView> {
    if before.same {
        None
    } else {
        Some(RequestView { file: before.file, sig: base64_text(client_signature(before.local)) })
    }
}

/// The state after `patch` came from the server and was applied to the
/// local bytes.
pub open spec fn received(before: SyncView, patch: Seq<u8>) -> SyncView {
    match patched(before.local, patch) {
        Ok(bytes) => SyncView {
            state: SyncState::PatchFetched,
            patch_size: patch.len(),
            new_size: bytes.len(),
            ..before
        },
        Err(e) => SyncView { state: SyncState::Failed, error: Some(e), ..before },
    }
}

/// The state after the new bytes were written.
pub open spec fn persisted(before: SyncView) -> SyncView {
    SyncView { state: SyncState::Applied, ..before }
}

/// The state after a step failed with `error`.
pub open spec fn failed(before: SyncView, error: SyncError) -> SyncView {
    SyncView { state: SyncState::Failed, error: Some(error), ..before }
}

impl FileSync {
    /// Starts the synchronisation of the file that `entry` names. Where the
    /// path of the entry would leave the working directory the
    /// synchronisation has failed already, and no file is to be touched.
    pub fn begin(entry: &ListingEntry) -> (job: FileSync)
        ensures
            job@ == begun(entry@),
            job@.wf(),
    {
        let safe = is_safe(entry.path.as_str());
        FileSync {
            file: entry.path.clone(),
            remote_hash: entry.hash.clone(),
            state: if safe {
                SyncState::Unchecked
            } else {
                SyncState::Failed
            },
            error: if safe {
                None
            } else {
                Some(SyncError::UnsafePath)
            },
            local: Vec::new(),
            same: false,
            patch_size: 0,
            new_size: 0,
        }
    }

    /// Takes the bytes of the local file, empty where there is none, and
    /// compares their fingerprint with the listing's.
    pub fn compare(&mut self, local: Vec<u8>)
        requires
            old(self)@.state == SyncState::Unchecked,
        ensures
            final(self)@ == compared(old(self)@, local@),
    {
        let hash = content_hash(local.as_slice());
        self.same = hash == self.remote_hash;
        self.local = local;
        self.state = SyncState::HashCompared;
    }

    /// Acts on the comparison. Where the fingerprints are equal the file is
    /// up to date and no request is made; else the request to send to the
    /// server is returned.
    pub fn plan(&mut self) -> (request: Option<PatchRequest>)
        requires
            old(self)@.state == SyncState::HashCompared,
        ensures
            final(self)@ == planned(old(self)@),
            match request {
                Some(r) => planned_request(old(self)@) == Some(r@),
                None => planned_request(old(self)@) is None,
            },
    {
        if self.same {
            self.state = SyncState::UpToDate;
            return None;
        }
        let len = self.local.len();
        proof {
            lemma_default_signature_fits(len as nat);
        }
        let signature = Signature::build(
            self.local.as_slice(),
            DEFAULT_BLOCK_SIZE,
            DEFAULT_STRONG_LEN,
        );
        self.state = SyncState::SignatureBuilt;
        Some(PatchRequest::new(self.file.clone(), &signature))
    }

    /// Takes the patch that the server sent and applies it to the local
    /// bytes. The new bytes are returned to be written; a patch that does
    /// not apply fails the synchronisation and nothing is to be written.
    pub fn receive(&mut self, patch: &[u8]) -> (output: Result<Vec<u8>, SyncError>)
        requires
            old(self)@.state == SyncState::SignatureBuilt,
        ensures
            final(self)@ == received(old(self)@, patch@),
            match patched(old(self)@.local, patch@) {
                Ok(bytes) => output is Ok && output->Ok_0@ == bytes,
                Err(e) => output == Err::<Vec<u8>, SyncError>(e),
            },
    {
        match apply_patch(self.local.as_slice(), patch) {
            Ok(bytes) => {
                self.patch_size = patch.len();
                self.new_size = bytes.len();
                self.state = SyncState::PatchFetched;
                Ok(bytes)
            },
            Err(e) => {
                self.error = Some(e);
                self.state = SyncState::Failed;
                Err(e)
            },
        }
    }

    /// Records that the new bytes were written.
    pub fn persisted(&mut self)
        requires
            old(self)@.state == SyncState::PatchFetched,
        ensures
            final(self)@ == persisted(old(self)@),
    {
        self.state = SyncState::Applied;
    }

    /// Records that a step failed outside: a file could not be read or
    /// written, or the server did not answer.
    pub fn fail(&mut self, error: SyncError)
        requires
            !is_terminal(old(self)@.state),
        ensures
            final(self)@ == failed(old(self)@, error),
    {
        self.error = Some(error);
        self.state = SyncState::Failed;
    }

    /// Returns how far the synchronisation has come.
    pub fn state(&self) -> (state: SyncState)
        ensures
            state == self@.state,
    {
        self.state
    }

    /// Returns why the synchronisation failed, if it did.
    pub fn error(&self) -> (error: Option<SyncError>)
        ensures
            error == self@.error,
    {
        self.error
    }

    /// Returns the path of the file below the root.
    pub fn file(&self) -> (file: &str)
        ensures
            file@ == self@.file,
    {
        self.file.as_str()
    }

    /// Returns the sizes that the update moved, once the patch is applied.
    pub fn stats(&self) -> (stats: Option<FilePatchStats>)
        ensures
            match stats {
                Some(s) => {
                    &&& self@.state == SyncState::PatchFetched || self@.state == SyncState::Applied
                    &&& s.file@ == self@.file
                    &&& s.original_size == self@.local.len()
                    &&& s.patch_size == self@.patch_size
                    &&& s.new_size == self@.new_size
                },
                None => self@.state != SyncState::PatchFetched && self@.state
                    != SyncState::Applied,
            },
    {
        match self.state {
            SyncState::PatchFetched | SyncState::Applied => Some(
                FilePatchStats {
                    file: self.file.clone(),
                    original_size: self.local.len(),
                    patch_size: self.patch_size,
                    new_size: self.new_size,
                },
            ),
            _ => None,
        }
    }
}

/// A synchronisation starts well formed, and every step keeps it so.
pub proof fn lemma_steps_keep_well_formed(
    entry: EntryView,
    before: SyncView,
    local: Seq<u8>,
    patch: Seq<u8>,
    error: SyncError,
)
    requires
        before.wf(),
    ensures
        begun(entry).wf(),
        before.state == SyncState::Unchecked ==> compared(before, local).wf(),
        before.state == SyncState::HashCompared ==> planned(before).wf(),
        before.state == SyncState::SignatureBuilt ==> received(before, patch).wf(),
        before.state == SyncState::PatchFetched ==> persisted(before).wf(),
        !is_terminal(before.state) ==> failed(before, error).wf(),
{
}

/// The bytes that a working directory holds of the file at `path`; a file
/// that is not there reads as empty.
pub open spec fn local_bytes(store: Map<Seq<char>, Seq<u8>>, path: Seq<char>) -> Seq<u8> {
    if store.contains_key(path) {
        store[path]
    } else {
        Seq::empty()
    }
}

/// Where the synchronisation of `entry` ends when the local bytes are
/// `local`, the server answers a request as `answer` says and the new bytes
/// can be written.
pub open spec fn run(
    entry: EntryView,
    local: Seq<u8>,
    answer: spec_fn(RequestView) -> Result<Seq<u8>, SyncError>,
) -> SyncView {
    let start = begun(entry);
    if start.state == SyncState::Failed {
        start
    } else {
        let checked = compared(start, local);
        match planned_request(checked) {
            None => planned(checked),
            Some(request) => match answer(request) {
                Ok(patch) => {
                    let applied = received(planned(checked), patch);
                    if applied.state == SyncState::PatchFetched {
                        persisted(applied)
                    } else {
                        applied
                    }
                },
                Err(e) => failed(planned(checked), e),
            },
        }
    }
}

/// The bytes that the synchronisation of `entry` writes, if it writes any.
pub open spec fn written(
    entry: EntryView,
    local: Seq<u8>,
    answer: spec_fn(RequestView) -> Result<Seq<u8>, SyncError>,
) -> Option<Seq<u8>> {
    if run(entry, local, answer).state == SyncState::Applied {
        match answer(planned_request(compared(begun(entry), local))->Some_0) {
            Ok(patch) => match patched(local, patch) {
                Ok(bytes) => Some(bytes),
                Err(_) => None,
            },
            Err(_) => None,
        }
    } else {
        None
    }
}

/// The working directory after the synchronisation of `entry`.
pub open spec fn synced(
    store: Map<Seq<char>, Seq<u8>>,
    entry: EntryView,
    answer: spec_fn(RequestView) -> Result<Seq<u8>, SyncError>,
) -> Map<Seq<char>, Seq<u8>> {
    match written(entry, local_bytes(store, entry.path), answer) {
        Some(bytes) => store.insert(entry.path, bytes),
        None => store,
    }
}

/// Every synchronisation ends, up to date, applied or failed, and it ends
/// well formed.
pub proof fn lemma_run_ends(
    entry: EntryView,
    local: Seq<u8>,
    answer: spec_fn(RequestView) -> Result<Seq<u8>, SyncError>,
)
    ensures
        is_terminal(run(entry, local, answer).state),
        run(entry, local, answer).wf(),
{
}

/// A file whose local fingerprint is the listing's is left as it is: the
/// synchronisation ends up to date, no request is made, so that the end does
/// not depend on what the server would answer, and nothing is written.
pub proof fn lemma_equal_hash_changes_nothing(
    store: Map<Seq<char>, Seq<u8>>,
    entry: EntryView,
    answer: spec_fn(RequestView) -> Result<Seq<u8>, SyncError>,
    other: spec_fn(RequestView) -> Result<Seq<u8>, SyncError>,
)
    requires
        is_safe_relative(entry.path),
        content_hash_of(local_bytes(store, entry.path)) == entry.hash,
    ensures
        planned_request(compared(begun(entry), local_bytes(store, entry.path))) is None,
        run(entry, local_bytes(store, entry.path), answer).state == SyncState::UpToDate,
        run(entry, local_bytes(store, entry.path), answer) == run(
            entry,
            local_bytes(store, entry.path),
            other,
        ),
        synced(store, entry, answer) == store,
{
}

/// An entry whose path holds a `..` segment fails before anything is read:
/// its synchronisation starts in the failed state, whatever the local bytes
/// and the server's answers, and nothing is written.
pub proof fn lemma_parent_segment_fails_entry(
    store: Map<Seq<char>, Seq<u8>>,
    entry: EntryView,
    local: Seq<u8>,
    answer: spec_fn(RequestView) -> Result<Seq<u8>, SyncError>,
)
    requires
        has_parent_segment(entry.path),
    ensures
        begun(entry).state == SyncState::Failed,
        begun(entry).error == Some(SyncError::UnsafePath),
        run(entry, local, answer) == begun(entry),
        synced(store, entry, answer) == store,
{
}

/// Two files are synchronised independently of each other: what the
/// synchronisation of one reads and writes is the same whether the other
/// ran before it or not, and both orders leave the same working directory.
pub proof fn lemma_files_sync_independently(
    store: Map<Seq<char>, Seq<u8>>,
    first: EntryView,
    second: EntryView,
    answer: spec_fn(RequestView) -> Result<Seq<u8>, SyncError>,
)
    requires
        first.path != second.path,
    ensures
        local_bytes(synced(store, first, answer), second.path) == local_bytes(store, second.path),
        local_bytes(synced(store, second, answer), first.path) == local_bytes(store, first.path),
        written(second, local_bytes(synced(store, first, answer), second.path), answer) == written(
            second,
            local_bytes(store, second.path),
            answer,
        ),
        synced(synced(store, first, answer), second, answer) == synced(
            synced(store, second, answer),
            first,
            answer,
        ),
{
    let one = synced(store, first, answer);
    let two = synced(store, second, answer);
    assert(local_bytes(one, second.path) == local_bytes(store, second.path));
    assert(local_bytes(two, first.path) == local_bytes(store, first.path));
    assert(synced(one, second, answer) =~= synced(two, first, answer));
}

} // verus!
