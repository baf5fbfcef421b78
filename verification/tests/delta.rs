use delta_patch::delta::{apply_patch, classify, compute_delta, compute_delta_from_bytes, PatchFault};
use delta_patch::error::SyncError;
use delta_patch::signature::Signature;

const MAGIC: [u8; 4] = [0x72, 0x73, 0x02, 0x36];

fn patch(commands: &[u8]) -> Vec<u8> {
    let mut bytes = MAGIC.to_vec();
    bytes.extend_from_slice(commands);
    bytes
}

fn pattern(len: usize, seed: u32) -> Vec<u8> {
    let mut state = seed;
    let mut bytes = Vec::with_capacity(len);
    for _ in 0..len {
        state = state.wrapping_mul(1664525).wrapping_add(1013904223);
        bytes.push((state >> 24) as u8);
    }
    bytes
}

fn round_trip(old: &[u8], new: &[u8], block_size: u32, strong_len: u32) -> Vec<u8> {
    let signature = Signature::build(old, block_size, strong_len);
    let delta = compute_delta(&signature, new).unwrap();
    apply_patch(old, &delta).unwrap()
}

#[test]
fn patch_rebuilds_the_target() {
    let old = pattern(20_000, 1);
    let mut new = old.clone();
    new[5_000] ^= 0xff;
    new.extend_from_slice(b"appended tail");
    new.drain(100..200);
    assert_eq!(round_trip(&old, &new, 4096, 8), new);
    assert_eq!(round_trip(&old, &new, 64, 16), new);
    assert_eq!(round_trip(&old, &new, 1, 1), new);
}

#[test]
fn patch_rebuilds_unrelated_data() {
    let old = pattern(3_000, 2);
    let new = pattern(5_000, 3);
    assert_eq!(round_trip(&old, &new, 512, 8), new);
    assert_eq!(round_trip(&new, &old, 512, 8), old);
}

#[test]
fn patch_rebuilds_to_and_from_empty_data() {
    let data = pattern(1_000, 4);
    assert_eq!(round_trip(b"", &data, 4096, 8), data);
    assert_eq!(round_trip(&data, b"", 4096, 8), Vec::<u8>::new());
    assert_eq!(round_trip(b"", b"", 4096, 8), Vec::<u8>::new());
}

#[test]
fn patch_against_own_signature_only_copies() {
    let signature = Signature::build(b"abcdefgh", 4, 8);
    let delta = compute_delta(&signature, b"abcdefgh").unwrap();
    assert_eq!(delta, patch(&[0x45, 0x00, 0x08, 0x00]));
    assert_eq!(apply_patch(b"abcdefgh", &delta), Ok(b"abcdefgh".to_vec()));
}

#[test]
fn patch_against_own_signature_only_copies_for_large_data() {
    let data = pattern(4096 * 5, 5);
    let signature = Signature::build(&data, 4096, 8);
    let delta = compute_delta(&signature, &data).unwrap();
    assert_eq!(delta, patch(&[0x46, 0x00, 0x50, 0x00, 0x00]));
    assert_eq!(apply_patch(&data, &delta), Ok(data));
}

#[test]
fn patch_against_empty_signature_is_one_insert() {
    let signature = Signature::build(b"", 4096, 8);
    assert_eq!(signature.block_count(), 0);
    let delta = compute_delta(&signature, b"hello").unwrap();
    assert_eq!(delta, patch(&[0x05, b'h', b'e', b'l', b'l', b'o', 0x00]));
    assert_eq!(apply_patch(b"", &delta), Ok(b"hello".to_vec()));
}

#[test]
fn patch_against_empty_signature_inserts_all_of_a_large_target() {
    let target = pattern(70_000, 6);
    let delta = compute_delta(&Signature::build(b"", 4096, 8), &target).unwrap();
    let mut expected = patch(&[0x43, 0x00, 0x01, 0x11, 0x70]);
    expected.extend_from_slice(&target);
    expected.push(0x00);
    assert_eq!(delta, expected);
}

#[test]
fn patch_for_an_empty_target_holds_no_instruction() {
    let signature = Signature::build(b"abcdefgh", 4, 8);
    assert_eq!(compute_delta(&signature, b""), Ok(patch(&[0x00])));
}

#[test]
fn one_changed_byte_costs_one_block() {
    let signature = Signature::build(b"abcdefgh", 4, 8);
    let delta = compute_delta(&signature, b"abXdefgh").unwrap();
    assert_eq!(delta, patch(&[0x04, b'a', b'b', b'X', b'd', 0x45, 0x04, 0x04, 0x00]));
    assert_eq!(apply_patch(b"abcdefgh", &delta), Ok(b"abXdefgh".to_vec()));
}

#[test]
fn one_changed_byte_costs_one_block_of_a_large_file() {
    let old = pattern(8192, 7);
    let mut new = old.clone();
    new[1234] ^= 0x01;
    let delta = compute_delta(&Signature::build(&old, 4096, 8), &new).unwrap();
    let mut expected = patch(&[0x42, 0x10, 0x00]);
    expected.extend_from_slice(&new[..4096]);
    expected.extend_from_slice(&[0x4a, 0x10, 0x00, 0x10, 0x00, 0x00]);
    assert_eq!(delta, expected);
    assert_eq!(delta.len(), 4 + 3 + 4096 + 5 + 1);
    assert_eq!(apply_patch(&old, &delta), Ok(new));
}

#[test]
fn changed_byte_in_a_long_file_keeps_the_patch_small() {
    let old = pattern(4096 * 64, 8);
    let mut new = old.clone();
    new[4096 * 10 + 17] ^= 0x80;
    let delta = compute_delta(&Signature::build(&old, 4096, 8), &new).unwrap();
    assert!(delta.len() < 4096 + 64);
    assert_eq!(apply_patch(&old, &delta), Ok(new));
}

#[test]
fn delta_from_bytes_agrees_with_delta_from_signature() {
    let old = pattern(10_000, 9);
    let new = pattern(10_000, 10);
    let signature = Signature::build(&old, 1024, 8);
    assert_eq!(
        compute_delta_from_bytes(signature.as_bytes(), &new),
        compute_delta(&signature, &new)
    );
}

#[test]
fn delta_from_bytes_refuses_what_is_no_signature() {
    assert_eq!(compute_delta_from_bytes(b"", b"data"), Err(SyncError::Decode));
    assert_eq!(compute_delta_from_bytes(b"not a signature!", b"data"), Err(SyncError::Decode));
    let zero_block_size = [0x72, 0x73, 0x01, 0x36, 0, 0, 0, 0, 0, 0, 0, 8];
    assert_eq!(compute_delta_from_bytes(&zero_block_size, b"data"), Err(SyncError::Decode));
    let huge_strong_len = [0x72, 0x73, 0x01, 0x36, 0, 0, 0, 4, 0xff, 0xff, 0xff, 0xfc];
    assert_eq!(compute_delta_from_bytes(&huge_strong_len, b"data"), Err(SyncError::Decode));
    let other_digest = [0x72, 0x73, 0x01, 0x37, 0, 0, 0, 4, 0, 0, 0, 8];
    assert_eq!(compute_delta_from_bytes(&other_digest, b"data"), Err(SyncError::Decode));
}

#[test]
fn apply_replays_copies_and_inserts() {
    let delta = patch(&[0x45, 0x04, 0x04, 0x02, b'X', b'Y', 0x45, 0x00, 0x02, 0x00]);
    assert_eq!(apply_patch(b"abcdefgh", &delta), Ok(b"efghXYab".to_vec()));
}

#[test]
fn apply_of_an_empty_patch_gives_empty_bytes() {
    assert_eq!(apply_patch(b"abcdefgh", &patch(&[0x00])), Ok(Vec::new()));
}

#[test]
fn apply_output_length_is_the_sum_of_the_instructions() {
    let delta = patch(&[0x45, 0x01, 0x03, 0x05, 1, 2, 3, 4, 5, 0x45, 0x00, 0x08, 0x00]);
    assert_eq!(apply_patch(b"abcdefgh", &delta).unwrap().len(), 3 + 5 + 8);
}

#[test]
fn copy_beyond_the_base_is_a_range_error() {
    assert_eq!(apply_patch(b"abcdefgh", &patch(&[0x45, 0x00, 0x09, 0x00])), Err(SyncError::Range));
    assert_eq!(apply_patch(b"abcdefgh", &patch(&[0x45, 0x08, 0x01, 0x00])), Err(SyncError::Range));
    assert_eq!(apply_patch(b"", &patch(&[0x45, 0x00, 0x01, 0x00])), Err(SyncError::Range));
    assert_eq!(
        apply_patch(b"abcdefgh", &patch(&[0x02, b'x', b'y', 0x45, 0x07, 0x02, 0x00])),
        Err(SyncError::Range)
    );
}

#[test]
fn copy_up_to_the_end_of_the_base_is_in_range() {
    assert_eq!(apply_patch(b"abcdefgh", &patch(&[0x45, 0x07, 0x01, 0x00])), Ok(b"h".to_vec()));
}

#[test]
fn malformed_patches_are_decode_errors() {
    assert_eq!(apply_patch(b"abcdefgh", b""), Err(SyncError::Decode));
    assert_eq!(apply_patch(b"abcdefgh", &[0x72, 0x73, 0x02]), Err(SyncError::Decode));
    assert_eq!(apply_patch(b"abcdefgh", &[0, 0, 0, 0, 0]), Err(SyncError::Decode));
    assert_eq!(apply_patch(b"abcdefgh", &patch(&[])), Err(SyncError::Decode));
    assert_eq!(apply_patch(b"abcdefgh", &patch(&[0x03, b'a'])), Err(SyncError::Decode));
    assert_eq!(apply_patch(b"abcdefgh", &patch(&[0x45, 0x00])), Err(SyncError::Decode));
    assert_eq!(apply_patch(b"abcdefgh", &patch(&[0x45, 0x00, 0x00, 0x00])), Err(SyncError::Decode));
    assert_eq!(apply_patch(b"abcdefgh", &patch(&[0x55, 0x00])), Err(SyncError::Decode));
    assert_eq!(apply_patch(b"abcdefgh", &patch(&[0x00, 0x00])), Err(SyncError::Decode));
}

#[test]
fn signature_bytes_are_no_patch() {
    let signature = Signature::build(b"abcdefgh", 4, 8);
    assert_eq!(apply_patch(b"abcdefgh", signature.as_bytes()), Err(SyncError::Decode));
}

#[test]
fn patch_for_other_bytes_may_fall_out_of_range() {
    let old = pattern(8192, 11);
    let delta = compute_delta(&Signature::build(&old, 4096, 8), &old).unwrap();
    assert_eq!(apply_patch(&old[..100], &delta), Err(SyncError::Range));
}

#[test]
fn faults_are_classified() {
    assert_eq!(classify(PatchFault::CopyOutOfBounds), SyncError::Range);
    assert_eq!(classify(PatchFault::WrongMagic), SyncError::Decode);
    assert_eq!(classify(PatchFault::UnexpectedEof), SyncError::Decode);
    assert_eq!(classify(PatchFault::OutputLimit), SyncError::Decode);
    assert_eq!(classify(PatchFault::CopyZero), SyncError::Decode);
    assert_eq!(classify(PatchFault::UnknownCommand), SyncError::Decode);
    assert_eq!(classify(PatchFault::TrailingData), SyncError::Decode);
    assert_eq!(classify(PatchFault::Io), SyncError::Decode);
}
