use delta_patch::error::SyncError;

#[test]
fn each_error_has_its_text() {
    assert_eq!(SyncError::Transport.message(), "transport failure");
    assert_eq!(SyncError::Decode.message(), "malformed signature or patch");
    assert_eq!(SyncError::Range.message(), "patch copies outside the data it applies to");
    assert_eq!(SyncError::Filesystem.message(), "filesystem failure");
    assert_eq!(SyncError::UnsafePath.message(), "path leaves the root directory");
}
