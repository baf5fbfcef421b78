//! Signatures: the block checksums of some data, in the serialized form
//! in which a client sends them.

use vstd::prelude::*;
use crate::digest::base64_fits;
use crate::error::SyncError;

verus! {

/// The four bytes that open a serialized signature.
pub const SIGNATURE_MAGIC: u32 = 0x72730136;

/// Bytes taken by the magic number, the block size and the strong checksum
/// length at the start of a serialized signature.
pub const HEADER_LEN: usize = 12;

/// The longest strong checksum a block can carry, in bytes.
pub const MAX_STRONG_LEN: u32 = 16;

/// The block size used when nothing else is asked for.
pub const DEFAULT_BLOCK_SIZE: u32 = 4096;

/// The strong checksum length used when nothing else is asked for.
pub const DEFAULT_STRONG_LEN: u32 = 8;

/// The big-endian value of the four bytes of `bytes` that start at `at`.
pub open spec fn be32(bytes: Seq<u8>, at: int) -> int {
    bytes[at] * 0x100_0000 + bytes[at + 1] * 0x1_0000 + bytes[at + 2] * 0x100 + bytes[at + 3]
}

/// The block size that a serialized signature announces.
pub open spec fn frame_block_size(sig: Seq<u8>) -> int {
    be32(sig, 4)
}

/// The strong checksum length that a serialized signature announces.
pub open spec fn frame_strong_len(sig: Seq<u8>) -> int {
    be32(sig, 8)
}

/// Bytes taken by one block of a serialized signature: the weak checksum
/// and the strong one.
pub open spec fn frame_entry_len(sig: Seq<u8>) -> int {
    4 + frame_strong_len(sig)
}

/// Whether `sig` is a serialized signature: a header with the magic number,
/// a positive block size and a strong checksum length from 1 to 16, and
/// after it a whole number of block entries.
pub open spec fn is_frame(sig: Seq<u8>) -> bool {
    &&& sig.len() >= HEADER_LEN
    &&& be32(sig, 0) == SIGNATURE_MAGIC
    &&& frame_block_size(sig) > 0
    &&& 1 <= frame_strong_len(sig) <= MAX_STRONG_LEN
    &&& (sig.len() - HEADER_LEN) % frame_entry_len(sig) == 0
}

/// The number of blocks that a serialized signature describes.
pub open spec fn frame_blocks(sig: Seq<u8>) -> int {
    (sig.len() - HEADER_LEN) / frame_entry_len(sig)
}

/// The number of blocks of `block_size` bytes that `len` bytes fall into,
/// the last of which may be shorter.
pub open spec fn blocks_for(len: nat, block_size: int) -> int {
    (len + block_size - 1) / block_size
}

/// The length of the serialized signature of `len` bytes.
pub open spec fn signature_len(len: nat, block_size: int, strong_len: int) -> int {
    HEADER_LEN + blocks_for(len, block_size) * (4 + strong_len)
}

/// Whether a signature can be computed with these parameters: a positive
/// block size and a strong checksum length from 1 to 16.
pub open spec fn valid_options(block_size: u32, strong_len: u32) -> bool {
    block_size > 0 && 1 <= strong_len <= MAX_STRONG_LEN
}

/// The serialized signature that `fast_rsync` computes for `data`.
pub uninterp spec fn signature_bytes(data: Seq<u8>, block_size: u32, strong_len: u32) -> Seq<u8>;

/// `fast_rsync::Signature::calculate`, written out by `serialize`. The
/// bytes are named by [`signature_bytes`]. Claimed of them is the layout that
/// `serialize` gives them: the header holds the MD4 magic number and the two
/// options, and one entry follows for each block of the input, so the result
/// is a frame. `calculate` panics on a block size of 0, on a strong
/// checksum longer than 16 bytes and where the size of the result
/// overflows: `requires` leaves these out.
#[verifier::external_body]
fn rsync_signature(data: &[u8], block_size: u32, strong_len: u32) -> (sig: Vec<u8>)
    requires
        valid_options(block_size, strong_len),
        signature_len(data@.len(), block_size as int, strong_len as int) <= usize::MAX,
    ensures
        sig@ == signature_bytes(data@, block_size, strong_len),
        is_frame(sig@),
        frame_block_size(sig@) == block_size,
        frame_strong_len(sig@) == strong_len,
        frame_blocks(sig@) == blocks_for(data@.len(), block_size as int),
{
    let mut storage = Vec::new();
    let mut sig = Vec::new();
    let options = fast_rsync::SignatureOptions { block_size, crypto_hash_size: strong_len };
    fast_rsync::Signature::calculate(data, &mut storage, options).serialize(&mut sig);
    sig
}

/// The checksums of one block of the data a signature describes.
#[derive(Clone, Debug, PartialEq, Eq)]
pub struct BlockChecksum {
    /// The rolling checksum of the block.
    pub weak: u32,
    /// The leading bytes of the cryptographic digest of the block.
    pub strong: Vec<u8>,
}

/// The signature of some data: for each block of it a weak and a strong
/// checksum, with the block size and the strong checksum length they were
/// made with. It is held in its serialized form, which is what travels.
#[derive(Debug, PartialEq, Eq)]
pub struct Signature {
    bytes: Vec<u8>,
}

impl Clone for Signature {
    fn clone(&self) -> (copy: Signature)
        ensures
            copy@ == self@,
    {
        proof {
            use_type_invariant(self);
        }
        Signature { bytes: self.bytes.clone() }
    }
}

impl View for Signature {
    type V = Seq<u8>;

    /// The serialized form.
    closed spec fn view(&self) -> Seq<u8> {
        self.bytes@
    }
}

/// Reads the four bytes of `bytes` at `at` as a big-endian number.
fn read_be32(bytes: &[u8], at: usize) -> (value: u32)
    requires
        at + 4 <= bytes@.len(),
    ensures
        value == be32(bytes@, at as int),
{
    let b0: u32 = bytes[at] as u32;
    let b1: u32 = bytes[at + 1] as u32;
    let b2: u32 = bytes[at + 2] as u32;
    let b3: u32 = bytes[at + 3] as u32;
    b0 * 0x100_0000 + b1 * 0x1_0000 + b2 * 0x100 + b3
}

/// Returns whether `bytes` is a serialized signature.
pub fn check_frame(bytes: &[u8]) -> (ok: bool)
    ensures
        ok == is_frame(bytes@),
{
    if bytes.len() < HEADER_LEN {
        return false;
    }
    let magic = read_be32(bytes, 0);
    let block_size = read_be32(bytes, 4);
    let strong_len = read_be32(bytes, 8);
    if magic != SIGNATURE_MAGIC || block_size == 0 || strong_len == 0 || strong_len
        > MAX_STRONG_LEN {
        return false;
    }
    let entry_len: usize = 4 + strong_len as usize;
    (bytes.len() - HEADER_LEN) % entry_len == 0
}

impl Signature {
    /// The bytes held are a serialized signature.
    #[verifier::type_invariant]
    spec fn well_formed(&self) -> bool {
        is_frame(self.bytes@)
    }

    /// The block size.
    pub open spec fn spec_block_size(&self) -> int {
        frame_block_size(self@)
    }

    /// The length of each strong checksum.
    pub open spec fn spec_strong_len(&self) -> int {
        frame_strong_len(self@)
    }

    /// The number of blocks.
    pub open spec fn spec_block_count(&self) -> int {
        frame_blocks(self@)
    }

    /// Where the entry of block `index` starts in the serialized form.
    pub open spec fn entry_start(&self, index: int) -> int {
        HEADER_LEN + index * frame_entry_len(self@)
    }

    /// Computes the signature of `data` for the given block size and strong
    /// checksum length. Empty data has a signature without blocks.
    pub fn build(data: &[u8], block_size: u32, strong_len: u32) -> (sig: Signature)
        requires
            valid_options(block_size, strong_len),
            signature_len(data@.len(), block_size as int, strong_len as int) <= usize::MAX,
        ensures
            is_frame(sig@),
            sig@ == signature_bytes(data@, block_size, strong_len),
            sig.spec_block_size() == block_size,
            sig.spec_strong_len() == strong_len,
            sig.spec_block_count() == blocks_for(data@.len(), block_size as int),
            sig@.len() == signature_len(data@.len(), block_size as int, strong_len as int),
            data@.len() == 0 ==> sig.spec_block_count() == 0,
    {
        let bytes = rsync_signature(data, block_size, strong_len);
        proof {
            lemma_no_blocks(block_size as int);
            lemma_frame_len(bytes@);
        }
        Signature { bytes }
    }

    /// Takes `bytes` as a signature if they are one, and refuses them with
    /// [`SyncError::Decode`] if they are not.
    pub fn parse(bytes: Vec<u8>) -> (parsed: Result<Signature, SyncError>)
        ensures
            match parsed {
                Ok(sig) => is_frame(bytes@) && sig@ == bytes@,
                Err(e) => !is_frame(bytes@) && e == SyncError::Decode,
            },
    {
        if check_frame(bytes.as_slice()) {
            Ok(Signature { bytes })
        } else {
            Err(SyncError::Decode)
        }
    }

    /// Returns the serialized form.
    pub fn as_bytes(&self) -> (bytes: &[u8])
        ensures
            bytes@ == self@,
            is_frame(self@),
    {
        proof {
            use_type_invariant(self);
        }
        self.bytes.as_slice()
    }

    /// Gives up the signature for its serialized form.
    pub fn into_bytes(self) -> (bytes: Vec<u8>)
        ensures
            bytes@ == self@,
            is_frame(self@),
    {
        proof {
            use_type_invariant(&self);
        }
        self.bytes
    }

    /// Returns the block size.
    pub fn block_size(&self) -> (size: u32)
        ensures
            size == self.spec_block_size(),
            size > 0,
    {
        proof {
            use_type_invariant(self);
        }
        read_be32(self.bytes.as_slice(), 4)
    }

    /// Returns the length of each strong checksum.
    pub fn strong_len(&self) -> (len: u32)
        ensures
            len == self.spec_strong_len(),
            1 <= len <= MAX_STRONG_LEN,
    {
        proof {
            use_type_invariant(self);
        }
        read_be32(self.bytes.as_slice(), 8)
    }

    /// Returns the number of blocks.
    pub fn block_count(&self) -> (count: usize)
        ensures
            count == self.spec_block_count(),
    {
        proof {
            use_type_invariant(self);
        }
        let entry_len: usize = 4 + self.strong_len() as usize;
        (self.bytes.len() - HEADER_LEN) / entry_len
    }

    /// Returns the checksums of block `index`.
    pub fn block(&self, index: usize) -> (block: BlockChecksum)
        requires
            index < self.spec_block_count(),
        ensures
            block.weak == be32(self@, self.entry_start(index as int)),
            block.strong@ == self@.subrange(
                self.entry_start(index as int) + 4,
                self.entry_start(index as int + 1),
            ),
            block.strong@.len() == self.spec_strong_len(),
    {
        proof {
            use_type_invariant(self);
        }
        let entry_len: usize = 4 + self.strong_len() as usize;
        let total: usize = self.bytes.len() - HEADER_LEN;
        proof {
            lemma_entry_bounds(total as int, entry_len as int, index as int);
        }
        let start: usize = HEADER_LEN + index * entry_len;
        let weak = read_be32(self.bytes.as_slice(), start);
        let mut strong: Vec<u8> = Vec::new();
        let mut at: usize = start + 4;
        let end: usize = start + entry_len;
        while at < end
            invariant
                start + 4 <= at <= end,
                end <= self.bytes@.len(),
                strong@ == self.bytes@.subrange(start + 4, at as int),
            decreases end - at,
        {
            strong.push(self.bytes[at]);
            at += 1;
            assert(strong@ =~= self.bytes@.subrange(start + 4, at as int));
        }
        assert(self.entry_start(index as int + 1) == end) by (nonlinear_arith)
            requires
                end == HEADER_LEN + index * entry_len + entry_len,
                self.entry_start(index as int + 1) == HEADER_LEN + (index + 1) * entry_len,
        ;
        BlockChecksum { weak, strong }
    }
}

/// A frame is as long as its header and its entries.
pub proof fn lemma_frame_len(sig: Seq<u8>)
    requires
        is_frame(sig),
    ensures
        sig.len() == HEADER_LEN + frame_blocks(sig) * frame_entry_len(sig),
{
    let total = sig.len() - HEADER_LEN;
    let entry_len = frame_entry_len(sig);
    assert(total == (total / entry_len) * entry_len) by (nonlinear_arith)
        requires
            entry_len > 0,
            total % entry_len == 0,
    ;
}

/// The blocks of a signature cover the data without gap or overlap: block
/// `index` starts at `index * block_size`, and the count is the least for
/// which the blocks reach the end of the data, so that every block holds a
/// byte and only the last may be short.
pub proof fn lemma_blocks_cover_the_data(len: nat, block_size: int)
    requires
        block_size > 0,
    ensures
        blocks_for(len, block_size) >= 0,
        len <= blocks_for(len, block_size) * block_size,
        (blocks_for(len, block_size) - 1) * block_size < len || len == 0,
        blocks_for(len, block_size) == 0 <==> len == 0,
{
    let count = blocks_for(len, block_size);
    let padded = len + block_size - 1;
    assert(padded == count * block_size + padded % block_size && 0 <= padded % block_size
        < block_size) by (nonlinear_arith)
        requires
            block_size > 0,
            count == padded / block_size,
    ;
    assert(count >= 0) by (nonlinear_arith)
        requires
            block_size > 0,
            padded >= 0,
            count == padded / block_size,
    ;
    assert((count - 1) * block_size == count * block_size - block_size) by (nonlinear_arith);
    if count == 0 {
        assert(count * block_size == 0) by (nonlinear_arith)
            requires
                count == 0,
        ;
    }
    if len == 0 {
        lemma_no_blocks(block_size);
    }
}

/// No bytes fall into no blocks.
pub proof fn lemma_no_blocks(block_size: int)
    requires
        block_size > 0,
    ensures
        blocks_for(0, block_size) == 0,
{
    assert((block_size - 1) / block_size == 0) by (nonlinear_arith)
        requires
            block_size > 0,
    ;
}

/// With the default options the signature of any data that fits in memory
/// fits in memory too, and so does its base64 text.
pub proof fn lemma_default_signature_fits(len: nat)
    requires
        len <= usize::MAX,
    ensures
        signature_len(len, DEFAULT_BLOCK_SIZE as int, DEFAULT_STRONG_LEN as int) <= usize::MAX,
        base64_fits(
            signature_len(len, DEFAULT_BLOCK_SIZE as int, DEFAULT_STRONG_LEN as int) as nat,
        ),
{
    let blocks = blocks_for(len, 4096);
    assert(blocks == (len + 4095) / 4096);
    assert(blocks <= len / 4096 + 1);
    assert(usize::MAX >= 0xffff_ffff);
    assert(signature_len(len, 4096, 8) == 12 + blocks * 12);
}

/// Entry `index` of a table of `total` bytes lies inside the table where
/// the table holds more than `index` entries of `entry_len` bytes.
proof fn lemma_entry_bounds(total: int, entry_len: int, index: int)
    requires
        entry_len > 0,
        total >= 0,
        total % entry_len == 0,
        0 <= index < total / entry_len,
    ensures
        0 <= index * entry_len,
        index * entry_len + entry_len <= total,
{
    assert(total == (total / entry_len) * entry_len) by (nonlinear_arith)
        requires
            entry_len > 0,
            total % entry_len == 0,
    ;
    assert(index * entry_len + entry_len <= (total / entry_len) * entry_len
        && 0 <= index * entry_len) by (nonlinear_arith)
        requires
            entry_len > 0,
            0 <= index < total / entry_len,
    ;
}

} // verus!
