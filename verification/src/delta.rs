//! Patches: computed on the side that has the new bytes, applied on the
//! side that has the old ones.

use vstd::prelude::*;
use crate::error::SyncError;
use crate::signature::{check_frame, is_frame, Signature};

verus! {

/// Why a patch could not be applied.
#[derive(Clone, Copy, Debug, PartialEq, Eq, Structural)]
pub enum PatchFault {
    /// The patch does not start with the magic number of a patch.
    WrongMagic,
    /// The patch ends in the middle of an instruction.
    UnexpectedEof,
    /// The patch asks for more output than can be addressed.
    OutputLimit,
    /// A copy instruction reaches beyond the end of the bytes it copies from.
    CopyOutOfBounds,
    /// A copy instruction copies nothing.
    CopyZero,
    /// An instruction has an unknown tag.
    UnknownCommand,
    /// Bytes follow the end instruction.
    TrailingData,
    /// The output could not be written.
    Io,
}

/// The patch that `fast_rsync` computes for `data` against the serialized
/// signature `signature`, or `None` where it refuses the signature.
pub uninterp spec fn rsync_delta(signature: Seq<u8>, data: Seq<u8>) -> Option<Seq<u8>>;

/// What `fast_rsync` makes of `base` under the patch `patch`: the patched
/// bytes, or the error that stands for the fault it found.
pub uninterp spec fn patched(base: Seq<u8>, patch: Seq<u8>) -> Result<Seq<u8>, SyncError>;

/// The error that stands for a fault of the patch: a copy out of bounds is a
/// range error, every other fault a malformed patch.
pub open spec fn fault_error(fault: PatchFault) -> SyncError {
    match fault {
        PatchFault::CopyOutOfBounds => SyncError::Range,
        _ => SyncError::Decode,
    }
}

/// `fast_rsync::diff` on the signature that `Signature::deserialize` reads
/// from `signature` and `index` prepares. The outcome is named by
/// [`rsync_delta`]; nothing else is claimed of it. With a block size of 0
/// `diff` does not return, and `deserialize` overflows on a strong checksum
/// length near `u32::MAX`: `requires` admits frames only, which have neither.
#[verifier::external_body]
fn rsync_diff(signature: &[u8], data: &[u8]) -> (delta: Option<Vec<u8>>)
    requires
        is_frame(signature@),
    ensures
        match rsync_delta(signature@, data@) {
            Some(bytes) => delta is Some && delta->Some_0@ == bytes,
            None => delta is None,
        },
{
    let mut delta = Vec::new();
    let parsed = fast_rsync::Signature::deserialize(signature).ok()?;
    fast_rsync::diff(&parsed.index(), data, &mut delta).ok()?;
    Some(delta)
}

/// `fast_rsync::apply`, each variant of its `ApplyError` told apart. The
/// outcome is named by [`patched`]: the bytes that come out, or the error
/// that stands for the fault. Which of the malformed kinds a fault is may
/// turn on the width of `usize`, so the name goes no further than
/// [`fault_error`]; nothing else is claimed of the outcome.
#[verifier::external_body]
fn rsync_apply(base: &[u8], delta: &[u8]) -> (out: Result<Vec<u8>, PatchFault>)
    ensures
        match out {
            Ok(bytes) => patched(base@, delta@) == Ok::<Seq<u8>, SyncError>(bytes@),
            Err(fault) => patched(base@, delta@) == Err::<Seq<u8>, SyncError>(fault_error(fault)),
        },
{
    let mut out = Vec::new();
    match fast_rsync::apply(base, delta, &mut out) {
        Ok(()) => Ok(out),
        Err(fast_rsync::ApplyError::WrongMagic { .. }) => Err(PatchFault::WrongMagic),
        Err(fast_rsync::ApplyError::UnexpectedEof { .. }) => Err(PatchFault::UnexpectedEof),
        Err(fast_rsync::ApplyError::OutputLimit { .. }) => Err(PatchFault::OutputLimit),
        Err(fast_rsync::ApplyError::CopyOutOfBounds { .. }) => Err(PatchFault::CopyOutOfBounds),
        Err(fast_rsync::ApplyError::CopyZero) => Err(PatchFault::CopyZero),
        Err(fast_rsync::ApplyError::UnknownCommand { .. }) => Err(PatchFault::UnknownCommand),
        Err(fast_rsync::ApplyError::TrailingData { .. }) => Err(PatchFault::TrailingData),
        Err(fast_rsync::ApplyError::Io(_)) => Err(PatchFault::Io),
    }
}

/// Returns the error that stands for `fault`.
pub fn classify(fault: PatchFault) -> (error: SyncError)
    ensures
        error == fault_error(fault),
{
    match fault {
        PatchFault::CopyOutOfBounds => SyncError::Range,
        _ => SyncError::Decode,
    }
}

/// The patch for `target` against the serialized signature `signature`.
/// Bytes that are no signature, and a signature that the encoder refuses,
/// are a [`SyncError::Decode`].
pub open spec fn delta_of(signature: Seq<u8>, target: Seq<u8>) -> Result<Seq<u8>, SyncError> {
    if is_frame(signature) {
        match rsync_delta(signature, target) {
            Some(bytes) => Ok(bytes),
            None => Err(SyncError::Decode),
        }
    } else {
        Err(SyncError::Decode)
    }
}

/// Computes the patch that turns the data `signature` was made of into
/// `target`. A signature that the encoder refuses is a
/// [`SyncError::Decode`].
pub fn compute_delta(signature: &Signature, target: &[u8]) -> (delta: Result<Vec<u8>, SyncError>)
    ensures
        match delta_of(signature@, target@) {
            Ok(bytes) => delta is Ok && delta->Ok_0@ == bytes,
            Err(e) => delta == Err::<Vec<u8>, SyncError>(e),
        },
{
    match rsync_diff(signature.as_bytes(), target) {
        Some(bytes) => Ok(bytes),
        None => Err(SyncError::Decode),
    }
}

/// Computes the patch for `target` against a signature that arrives as
/// bytes, after it has made sure that they are a signature.
pub fn compute_delta_from_bytes(signature: &[u8], target: &[u8]) -> (delta: Result<
    Vec<u8>,
    SyncError,
>)
    ensures
        match delta_of(signature@, target@) {
            Ok(bytes) => delta is Ok && delta->Ok_0@ == bytes,
            Err(e) => delta == Err::<Vec<u8>, SyncError>(e),
        },
{
    if !check_frame(signature) {
        return Err(SyncError::Decode);
    }
    match rsync_diff(signature, target) {
        Some(bytes) => Ok(bytes),
        None => Err(SyncError::Decode),
    }
}

/// Applies `patch` to `base` and returns the patched bytes. A patch that
/// copies from beyond the end of `base` is a [`SyncError::Range`], any other
/// fault of the patch a [`SyncError::Decode`]; nothing of the output is
/// handed out then.
pub fn apply_patch(base: &[u8], patch: &[u8]) -> (out: Result<Vec<u8>, SyncError>)
    ensures
        match patched(base@, patch@) {
            Ok(bytes) => out is Ok && out->Ok_0@ == bytes,
            Err(e) => out == Err::<Vec<u8>, SyncError>(e),
        },
{
    match rsync_apply(base, patch) {
        Ok(bytes) => Ok(bytes),
        Err(fault) => Err(classify(fault)),
    }
}

} // verus!
