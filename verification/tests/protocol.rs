use delta_patch::error::SyncError;
use delta_patch::protocol::{Listing, ListingEntry, PatchRequest};
use delta_patch::signature::Signature;

fn entry(path: &str, hash: &str) -> ListingEntry {
    ListingEntry { path: path.to_string(), hash: hash.to_string() }
}

#[test]
fn new_listing_is_empty() {
    let listing = Listing::new();
    assert_eq!(listing.len(), 0);
    assert!(listing.files.is_empty());
    assert!(listing.is_well_formed());
    assert_eq!(listing.find("a"), None);
}

#[test]
fn push_adds_new_paths_in_order() {
    let mut listing = Listing::new();
    assert!(listing.push(entry("a", "h1")));
    assert!(listing.push(entry("b/c", "h2")));
    assert_eq!(listing.len(), 2);
    assert_eq!(listing.files, vec![entry("a", "h1"), entry("b/c", "h2")]);
    assert_eq!(listing.find("a"), Some(0));
    assert_eq!(listing.find("b/c"), Some(1));
    assert_eq!(listing.find("b"), None);
}

#[test]
fn push_refuses_a_path_that_is_there() {
    let mut listing = Listing::new();
    assert!(listing.push(entry("a", "h1")));
    assert!(!listing.push(entry("a", "h2")));
    assert_eq!(listing.files, vec![entry("a", "h1")]);
    assert!(listing.is_well_formed());
}

#[test]
fn same_hash_under_two_paths_is_fine() {
    let mut listing = Listing::new();
    assert!(listing.push(entry("a", "h")));
    assert!(listing.push(entry("b", "h")));
    assert!(listing.is_well_formed());
}

#[test]
fn find_gives_the_first_of_two_entries() {
    let listing = Listing { files: vec![entry("x", "1"), entry("a", "2"), entry("a", "3")] };
    assert_eq!(listing.find("a"), Some(1));
}

#[test]
fn listing_with_a_repeated_path_is_not_well_formed() {
    let listing = Listing { files: vec![entry("a", "1"), entry("b", "2"), entry("a", "3")] };
    assert!(!listing.is_well_formed());
    let listing = Listing { files: vec![entry("a", "1"), entry("b", "2"), entry("c", "1")] };
    assert!(listing.is_well_formed());
}

#[test]
fn request_carries_the_signature_as_base64() {
    let signature = Signature::build(b"abcdefgh", 4, 8);
    let request = PatchRequest::new("dir/file".to_string(), &signature);
    assert_eq!(request.file, "dir/file");
    assert_eq!(request.sig, "cnMBNgAAAAQAAAAIBQoCBkHezY9XklXFBTICFmWHkr7nENPj");
}

#[test]
fn request_gives_back_the_signature() {
    let signature = Signature::build(b"hello world", 4096, 8);
    let request = PatchRequest::new("f".to_string(), &signature);
    assert_eq!(request.sig, "cnMBNgAAEAAAAAAIIf4FsaoBD7wdFMeV");
    assert_eq!(request.signature(), Ok(signature));
}

#[test]
fn request_with_text_that_is_not_base64_is_refused() {
    let request = PatchRequest { file: "f".to_string(), sig: "***".to_string() };
    assert_eq!(request.signature(), Err(SyncError::Decode));
}

#[test]
fn request_with_base64_of_no_signature_is_refused() {
    let request = PatchRequest { file: "f".to_string(), sig: "aGVsbG8gd29ybGQ=".to_string() };
    assert_eq!(request.signature(), Err(SyncError::Decode));
    let request = PatchRequest { file: "f".to_string(), sig: String::new() };
    assert_eq!(request.signature(), Err(SyncError::Decode));
}
