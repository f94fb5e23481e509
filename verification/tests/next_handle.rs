//! Tests of persistent-handle allocation.

use mount_luks::tpm::next_handle::next_handle;
use mount_luks::tpm::next_handle::NextHandleError;
use mount_luks::tpm::persistent_handle::PersistentHandle;

#[test]
fn _get_next_handle() {
    // Arrange
    let handles = vec![
        PersistentHandle::new(0x81000004).expect("handle should be valid"),
        PersistentHandle::new(0x81000001).expect("handle should be valid"),
        PersistentHandle::new(0x81000005).expect("handle should be valid"),
    ];

    // Act
    let next = next_handle(handles).expect("should be able to get next handle");

    // Assert
    assert_eq!(
        next,
        PersistentHandle::new(0x81000000).expect("handle should be valid")
    );
}

#[test]
fn next_handle_skips_taken_prefix() {
    let handles = vec![
        PersistentHandle::from_offset(0),
        PersistentHandle::from_offset(1),
        PersistentHandle::from_offset(2),
    ];
    let next = next_handle(handles).expect("a free slot remains");
    assert_eq!(next, PersistentHandle::from_offset(3));
}

#[test]
fn next_handle_fails_when_all_taken() {
    let handles = (0..7).map(PersistentHandle::from_offset).collect::<Vec<_>>();
    assert_eq!(next_handle(handles), Err(NextHandleError));
}

#[test]
fn next_handle_ignores_high_offsets() {
    let handles = vec![PersistentHandle::from_offset(100)];
    let next = next_handle(handles).expect("low slots are free");
    assert_eq!(next, PersistentHandle::from_offset(0));
}
