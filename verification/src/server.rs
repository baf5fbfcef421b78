//! The server's answers: routes, the listing and patches.

use vstd::prelude::*;
use vstd::utf8::encode_utf8;
use crate::delta::{compute_delta_from_bytes, delta_of};
use crate::digest::{content_hash, content_hash_of};
use crate::error::SyncError;
use crate::paths::{
    are_plain_names, from_segments, has_parent_segment, is_safe, is_safe_relative, join, joined,
    joined_segments, texts,
};
use crate::protocol::{
    carried_signature, has_path, EntryView, Listing, ListingEntry, PatchRequest, RequestView,
};
use crate::text::same_text;

verus! {

/// What a request is for.
#[derive(Clone, Copy, Debug, PartialEq, Eq, Structural)]
pub enum Route {
    /// The greeting.
    Home,
    /// The listing of the files that are served.
    List,
    /// The patch for one file.
    Patch,
    /// Nothing that the server knows.
    NotFound,
}

/// The status of an answer that carries what was asked for.
pub const STATUS_OK: u16 = 200;

/// The status of the answer to a request for something unknown.
pub const STATUS_NOT_FOUND: u16 = 404;

/// The status of the answer to a request that failed.
pub const STATUS_ERROR: u16 = 500;

/// What the server answers.
#[derive(Clone, Debug, PartialEq, Eq)]
pub struct Reply {
    /// The status of the answer, as HTTP numbers it.
    pub status: u16,
    /// The bytes of the answer.
    pub body: Vec<u8>,
}

/// The route of a request with the method `method` for the path `path`.
pub open spec fn route_of(method: Seq<char>, path: Seq<char>) -> Route {
    if method == "GET"@ && path == "/"@ {
        Route::Home
    } else if method == "GET"@ && path == "/list"@ {
        Route::List
    } else if method == "POST"@ && path == "/patch"@ {
        Route::Patch
    } else {
        Route::NotFound
    }
}

/// The outcome of a request for a patch, `data` being the bytes of the
/// file that it names: a path that would leave the root is refused before
/// anything else, then a signature that cannot be read, and what is left
/// is the patch for `data` against the signature.
pub open spec fn patch_for(request: RequestView, data: Seq<u8>) -> Result<Seq<u8>, SyncError> {
    if !is_safe_relative(request.file) {
        Err(SyncError::UnsafePath)
    } else {
        match carried_signature(request.sig) {
            Some(signature) => delta_of(signature, data),
            None => Err(SyncError::Decode),
        }
    }
}

/// The body of the answer to a request that failed with `error`.
pub open spec fn error_text(error: SyncError) -> Seq<char> {
    "Error: "@ + error.spec_message()
}

/// The entry for the file that `segments` lead to, with the content
/// `data`; none where the segments are not plain names.
pub open spec fn entry_for(segments: Seq<Seq<char>>, data: Seq<u8>) -> Option<EntryView> {
    if are_plain_names(segments) {
        Some(EntryView { path: joined_segments(segments), hash: content_hash_of(data) })
    } else {
        None
    }
}

/// The entries that a listing keeps of `results`: those that are there,
/// in their order, but for one whose path would leave the root or is the
/// path of an earlier one.
pub open spec fn kept_entries(results: Seq<Result<ListingEntry, SyncError>>) -> Seq<EntryView>
    decreases results.len(),
{
    if results.len() == 0 {
        Seq::empty()
    } else {
        let before = kept_entries(results.drop_last());
        match results.last() {
            Ok(entry) => if !is_safe_relative(entry@.path) || has_path(before, entry@.path) {
                before
            } else {
                before.push(entry@)
            },
            Err(_) => before,
        }
    }
}

/// Whether every entry of `entries` has a path that stays below the root.
pub open spec fn all_safe(entries: Seq<EntryView>) -> bool {
    forall|i: int| 0 <= i < entries.len() ==> is_safe_relative(#[trigger] entries[i].path)
}

/// A request whose path holds a `..` segment is refused whatever the file
/// holds, so that nothing needs to be read for it.
pub proof fn lemma_parent_segment_refuses_request(request: RequestView, data: Seq<u8>)
    requires
        has_parent_segment(request.file),
    ensures
        patch_for(request, data) == Err::<Seq<u8>, SyncError>(SyncError::UnsafePath),
{
}

/// The side that owns the authoritative copy.
#[derive(Debug)]
pub struct Server {
    bind_addr: String,
}

impl View for Server {
    type V = Seq<char>;

    /// The address that the server listens on.
    closed spec fn view(&self) -> Seq<char> {
        self.bind_addr@
    }
}

impl Server {
    /// Returns a server that is to listen on `addr`.
    pub fn new(addr: String) -> (server: Server)
        ensures
            server@ == addr@,
    {
        Server { bind_addr: addr }
    }

    /// Returns the address that the server listens on.
    pub fn bind_addr(&self) -> (addr: &str)
        ensures
            addr@ == self@,
    {
        self.bind_addr.as_str()
    }

    /// Returns the route of a request.
    pub fn router(method: &str, path: &str) -> (route: Route)
        ensures
            route == route_of(method@, path@),
    {
        if same_text(method, "GET") && same_text(path, "/") {
            Route::Home
        } else if same_text(method, "GET") && same_text(path, "/list") {
            Route::List
        } else if same_text(method, "POST") && same_text(path, "/patch") {
            Route::Patch
        } else {
            Route::NotFound
        }
    }

    /// Returns the greeting.
    pub fn route_home() -> (reply: Reply)
        ensures
            reply.status == STATUS_OK,
            reply.body@ == encode_utf8("Hello there"@),
    {
        Reply { status: STATUS_OK, body: "Hello there".as_bytes_vec() }
    }

    /// Returns the answer to a request for something unknown.
    pub fn route_notfound() -> (reply: Reply)
        ensures
            reply.status == STATUS_NOT_FOUND,
            reply.body@ == encode_utf8("Not found."@),
    {
        Reply { status: STATUS_NOT_FOUND, body: "Not found.".as_bytes_vec() }
    }

    /// Returns the answer that carries the serialized listing `body`.
    pub fn route_list(body: Vec<u8>) -> (reply: Reply)
        ensures
            reply.status == STATUS_OK,
            reply.body@ == body@,
    {
        Reply { status: STATUS_OK, body }
    }

    /// Returns where the file that `request` is for lies below the
    /// directory `root`. A path that would leave the root is a
    /// [`SyncError::UnsafePath`], and no file is to be touched.
    pub fn requested_file(root: &str, request: &PatchRequest) -> (file: Result<String, SyncError>)
        ensures
            match file {
                Ok(path) => is_safe_relative(request@.file) && path@ == joined(root@, request@.file),
                Err(e) => !is_safe_relative(request@.file) && e == SyncError::UnsafePath,
            },
    {
        join(root, request.file.as_str())
    }

    /// Computes the patch for the bytes `data` against the serialized
    /// signature `sigb`.
    pub fn make_patch(data: &[u8], sigb: &[u8]) -> (patch: Result<Vec<u8>, SyncError>)
        ensures
            match delta_of(sigb@, data@) {
                Ok(bytes) => patch is Ok && patch->Ok_0@ == bytes,
                Err(e) => patch == Err::<Vec<u8>, SyncError>(e),
            },
    {
        compute_delta_from_bytes(sigb, data)
    }

    /// Answers a request for a patch, `data` being the bytes of the file
    /// that it names.
    pub fn route_patch(request: &PatchRequest, data: &[u8]) -> (reply: Result<Reply, SyncError>)
        ensures
            match patch_for(request@, data@) {
                Ok(bytes) => reply is Ok && reply->Ok_0.status == STATUS_OK && reply->Ok_0.body@
                    == bytes,
                Err(e) => reply == Err::<Reply, SyncError>(e),
            },
    {
        if !is_safe(request.file.as_str()) {
            return Err(SyncError::UnsafePath);
        }
        let signature = match request.signature() {
            Ok(signature) => signature,
            Err(e) => {
                return Err(e);
            },
        };
        match Self::make_patch(data, signature.as_bytes()) {
            Ok(patch) => Ok(Reply { status: STATUS_OK, body: patch }),
            Err(e) => Err(e),
        }
    }

    /// Turns the outcome of a route into the answer that goes out: a
    /// failure becomes an answer with the error status and the text of the
    /// error.
    pub fn handler(outcome: Result<Reply, SyncError>) -> (reply: Reply)
        ensures
            match outcome {
                Ok(r) => reply == r,
                Err(e) => reply.status == STATUS_ERROR && reply.body@ == encode_utf8(error_text(e)),
            },
    {
        match outcome {
            Ok(reply) => reply,
            Err(e) => {
                let mut text = String::from_str("Error: ");
                text.append(e.message().as_str());
                Reply { status: STATUS_ERROR, body: text.as_str().as_bytes_vec() }
            },
        }
    }

    /// Makes the entry of the file that the names `segments` lead to below
    /// the root, with the content `data`. Names that are not plain are a
    /// [`SyncError::UnsafePath`].
    pub fn list_entry_for_file(segments: &Vec<String>, data: &[u8]) -> (entry: Result<
        ListingEntry,
        SyncError,
    >)
        ensures
            match entry {
                Ok(e) => entry_for(texts(segments@), data@) == Some(e@) && is_safe_relative(
                    e@.path,
                ),
                Err(e) => entry_for(texts(segments@), data@) is None && e == SyncError::UnsafePath,
            },
    {
        match from_segments(segments) {
            Ok(path) => Ok(ListingEntry { path, hash: content_hash(data) }),
            Err(e) => Err(e),
        }
    }

    /// Collects the listing from what was found of each file. A file that
    /// could not be read or named is left out, and so are an entry whose
    /// path would leave the root and a second entry for a path; the others
    /// are kept in their order.
    pub fn load_listing(results: Vec<Result<ListingEntry, SyncError>>) -> (listing: Listing)
        ensures
            listing@ == kept_entries(results@),
            listing.wf(),
            all_safe(listing@),
    {
        let mut listing = Listing::new();
        let mut results = results;
        let ghost all = results@;
        let mut i: usize = 0;
        let total = results.len();
        while i < total
            invariant
                0 <= i <= total,
                total == all.len(),
                results@.len() == total,
                forall|k: int| i <= k < total ==> results@[k] == all[k],
                listing.wf(),
                all_safe(listing@),
                listing@ == kept_entries(all.take(i as int)),
            decreases total - i,
        {
            let ghost taken = all.take(i + 1);
            proof {
                assert(taken.drop_last() =~= all.take(i as int));
                assert(taken.last() == all[i as int]);
            }
            let mut slot: Result<ListingEntry, SyncError> = Err(SyncError::Filesystem);
            std::mem::swap(&mut slot, &mut results[i]);
            match slot {
                Ok(entry) => {
                    if is_safe(entry.path.as_str()) {
                        listing.push(entry);
                    }
                },
                Err(_) => {},
            }
            i += 1;
        }
        proof {
            assert(all.take(i as int) =~= all);
        }
        listing
    }
}

} // verus!
