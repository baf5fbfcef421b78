//! The messages that client and server exchange.

use vstd::prelude::*;
use crate::digest::{base64_bytes, base64_encode, base64_fits, base64_text, decodable, decode};
use crate::error::SyncError;
use crate::signature::{is_frame, Signature};
use crate::text::same_text;

verus! {

/// What one entry of a listing says: the path of a file below the root, and
/// the fingerprint of its content.
pub struct EntryView {
    /// The path of the file below the root.
    pub path: Seq<char>,
    /// The fingerprint of the content of the file.
    pub hash: Seq<char>,
}

/// One file of the directory that is served.
#[derive(Clone, Debug, PartialEq, Eq)]
pub struct ListingEntry {
    /// The path of the file below the root, its segments joined by `/`.
    pub path: String,
    /// The fingerprint of the content of the file.
    pub hash: String,
}

impl View for ListingEntry {
    type V = EntryView;

    open spec fn view(&self) -> EntryView {
        EntryView { path: self.path@, hash: self.hash@ }
    }
}

/// The files of the directory that is served.
#[derive(Clone, Debug, PartialEq, Eq)]
pub struct Listing {
    /// One entry for each file.
    pub files: Vec<ListingEntry>,
}

impl View for Listing {
    type V = Seq<EntryView>;

    open spec fn view(&self) -> Seq<EntryView> {
        self.files@.map_values(|entry: ListingEntry| entry@)
    }
}

/// Whether some entry of `entries` is for `path`.
pub open spec fn has_path(entries: Seq<EntryView>, path: Seq<char>) -> bool {
    exists|i: int| 0 <= i < entries.len() && #[trigger] entries[i].path == path
}

/// Whether no two entries of `entries` are for the same path.
pub open spec fn unique_paths(entries: Seq<EntryView>) -> bool {
    forall|i: int, j: int|
        0 <= i < entries.len() && 0 <= j < entries.len() && i != j ==> #[trigger] entries[i].path
            != #[trigger] entries[j].path
}

impl Listing {
    /// Whether the listing names each file once.
    pub open spec fn wf(&self) -> bool {
        unique_paths(self@)
    }

    /// Returns a listing without files.
    pub fn new() -> (listing: Listing)
        ensures
            listing@ == Seq::<EntryView>::empty(),
            listing.wf(),
    {
        let listing = Listing { files: Vec::new() };
        assert(listing@ =~= Seq::<EntryView>::empty());
        listing
    }

    /// Returns the number of files.
    pub fn len(&self) -> (len: usize)
        ensures
            len == self@.len(),
    {
        self.files.len()
    }

    /// Returns the place of the first entry for `path`, if there is one.
    pub fn find(&self, path: &str) -> (place: Option<usize>)
        ensures
            match place {
                Some(i) => i < self@.len() && self@[i as int].path == path@ && forall|k: int|
                    0 <= k < i ==> (#[trigger] self@[k]).path != path@,
                None => !has_path(self@, path@),
            },
    {
        let mut i: usize = 0;
        while i < self.files.len()
            invariant
                0 <= i <= self.files.len(),
                forall|k: int| 0 <= k < i ==> (#[trigger] self@[k]).path != path@,
            decreases self.files.len() - i,
        {
            if same_text(self.files[i].path.as_str(), path) {
                return Some(i);
            }
            i += 1;
        }
        None
    }

    /// Adds `entry` unless the listing has an entry for its path already,
    /// and returns whether it was added.
    pub fn push(&mut self, entry: ListingEntry) -> (added: bool)
        requires
            old(self).wf(),
        ensures
            final(self).wf(),
            added == !has_path(old(self)@, entry@.path),
            final(self)@ == if added {
                old(self)@.push(entry@)
            } else {
                old(self)@
            },
    {
        if self.find(entry.path.as_str()).is_some() {
            return false;
        }
        let ghost before = self@;
        let ghost added = entry@;
        self.files.push(entry);
        assert(self@ =~= before.push(added));
        true
    }

    /// Returns whether the listing names each file once.
    pub fn is_well_formed(&self) -> (ok: bool)
        ensures
            ok == self.wf(),
    {
        let mut i: usize = 0;
        while i < self.files.len()
            invariant
                0 <= i <= self.files.len(),
                forall|a: int, b: int|
                    0 <= a < b < i ==> (#[trigger] self@[a]).path != (#[trigger] self@[b]).path,
            decreases self.files.len() - i,
        {
            let mut j: usize = 0;
            while j < i
                invariant
                    0 <= j <= i < self.files.len(),
                    forall|a: int| 0 <= a < j ==> (#[trigger] self@[a]).path != self@[i as int].path,
                decreases i - j,
            {
                if same_text(self.files[j].path.as_str(), self.files[i].path.as_str()) {
                    assert(self@[j as int].path == self@[i as int].path);
                    return false;
                }
                j += 1;
            }
            i += 1;
        }
        assert forall|a: int, b: int|
            0 <= a < self@.len() && 0 <= b < self@.len() && a != b implies (#[trigger] self@[a]).path
            != (#[trigger] self@[b]).path by {
            if a < b {
                assert(self@[a].path != self@[b].path);
            } else {
                assert(self@[b].path != self@[a].path);
            }
        }
        true
    }
}

/// What a request for a patch says: the path of the file, and the base64
/// text of the signature of the bytes that the sender has of it.
pub struct RequestView {
    /// The path of the file below the root.
    pub file: Seq<char>,
    /// The signature of the sender's bytes, as base64 text.
    pub sig: Seq<char>,
}

/// A request for the patch that brings one file up to date.
#[derive(Clone, Debug, PartialEq, Eq)]
pub struct PatchRequest {
    /// The path of the file below the root.
    pub file: String,
    /// The signature of the sender's bytes, as base64 text.
    pub sig: String,
}

impl View for PatchRequest {
    type V = RequestView;

    open spec fn view(&self) -> RequestView {
        RequestView { file: self.file@, sig: self.sig@ }
    }
}

/// The serialized signature that the text `sig` of a request carries, or
/// `None` where the text is not base64 or what it holds is no signature.
pub open spec fn carried_signature(sig: Seq<char>) -> Option<Seq<u8>> {
    if decodable(sig) {
        match base64_bytes(sig) {
            Some(bytes) => if is_frame(bytes) {
                Some(bytes)
            } else {
                None
            },
            None => None,
        }
    } else {
        None
    }
}

impl PatchRequest {
    /// Returns the request that asks for the patch of `file` against the
    /// bytes that `signature` describes.
    pub fn new(file: String, signature: &Signature) -> (request: PatchRequest)
        requires
            base64_fits(signature@.len()),
        ensures
            request@.file == file@,
            request@.sig == base64_text(signature@),
    {
        PatchRequest { file, sig: base64_encode(signature.as_bytes()) }
    }

    /// Reads the signature that the request carries. Text that is not
    /// base64, or that holds no signature, is a [`SyncError::Decode`].
    pub fn signature(&self) -> (signature: Result<Signature, SyncError>)
        ensures
            match signature {
                Ok(sig) => carried_signature(self@.sig) == Some(sig@),
                Err(e) => e == SyncError::Decode && carried_signature(self@.sig) is None,
            },
    {
        match decode(self.sig.as_str()) {
            Ok(bytes) => Signature::parse(bytes),
            Err(e) => Err(e),
        }
    }
}

} // verus!
