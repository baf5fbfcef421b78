//! What a client is set up with, and what follows from it.

use vstd::prelude::*;
use crate::error::SyncError;
use crate::paths::{is_safe_relative, join, joined};
use crate::signature::{
    blocks_for, frame_blocks, is_frame, lemma_default_signature_fits, signature_bytes, Signature,
    DEFAULT_BLOCK_SIZE, DEFAULT_STRONG_LEN,
};

verus! {

/// What a client is set up with.
pub struct ClientView {
    /// The base address of the server.
    pub server_base: Seq<char>,
    /// The directory that is brought up to date.
    pub workdir: Seq<char>,
}

/// The side that owns the working copy: it knows where the server is and
/// which directory it brings up to date.
#[derive(Debug)]
pub struct Client {
    server_base: String,
    workdir: String,
}

impl View for Client {
    type V = ClientView;

    closed spec fn view(&self) -> ClientView {
        ClientView { server_base: self.server_base@, workdir: self.workdir@ }
    }
}

/// The serialized signature that a client makes of `data`.
pub open spec fn client_signature(data: Seq<u8>) -> Seq<u8> {
    signature_bytes(data, DEFAULT_BLOCK_SIZE, DEFAULT_STRONG_LEN)
}

impl Client {
    /// Returns a client for the server at `server` that keeps its files in
    /// `directory`.
    pub fn new(server: String, directory: String) -> (client: Client)
        ensures
            client@.server_base == server@,
            client@.workdir == directory@,
    {
        Client { server_base: server, workdir: directory }
    }

    /// Returns the base address of the server.
    pub fn server_base(&self) -> (base: &str)
        ensures
            base@ == self@.server_base,
    {
        self.server_base.as_str()
    }

    /// Returns the directory that is brought up to date.
    pub fn workdir(&self) -> (directory: &str)
        ensures
            directory@ == self@.workdir,
    {
        self.workdir.as_str()
    }

    /// Returns the address at which the server hands out its listing.
    pub fn list_url(&self) -> (url: String)
        ensures
            url@ == self@.server_base + "/list"@,
    {
        let mut url = self.server_base.clone();
        url.append("/list");
        url
    }

    /// Returns the address at which the server hands out patches.
    pub fn patch_url(&self) -> (url: String)
        ensures
            url@ == self@.server_base + "/patch"@,
    {
        let mut url = self.server_base.clone();
        url.append("/patch");
        url
    }

    /// Returns where the file `file` of a listing lies in the working
    /// directory. A path that would leave the directory is a
    /// [`SyncError::UnsafePath`].
    pub fn local_path(&self, file: &str) -> (path: Result<String, SyncError>)
        ensures
            match path {
                Ok(p) => is_safe_relative(file@) && p@ == joined(self@.workdir, file@),
                Err(e) => !is_safe_relative(file@) && e == SyncError::UnsafePath,
            },
    {
        join(self.workdir.as_str(), file)
    }

    /// Computes the serialized signature of `data`, with blocks of 4096
    /// bytes and strong checksums of 8 bytes.
    pub fn make_signature(data: &[u8]) -> (sig: Vec<u8>)
        ensures
            sig@ == client_signature(data@),
            is_frame(sig@),
            frame_blocks(sig@) == blocks_for(data@.len(), DEFAULT_BLOCK_SIZE as int),
    {
        let len = data.len();
        proof {
            lemma_default_signature_fits(len as nat);
        }
        Signature::build(data, DEFAULT_BLOCK_SIZE, DEFAULT_STRONG_LEN).into_bytes()
    }
}

} // verus!
