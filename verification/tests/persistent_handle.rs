//! Tests of the persistent-handle model: construction, conversions,
//! rendering, parsing, ordering and hashing.

use std::collections::HashSet;

use mount_luks::tpm::persistent_handle::PersistentHandle;
use mount_luks::tpm::persistent_handle::PersistentHandleError;

#[test]
fn test_new_at_base() {
    let handle = PersistentHandle::new(0x81000000).expect("Base handle should be valid");
    assert_eq!(handle.as_u32(), 0x81000000);
    assert_eq!(handle.offset(), 0);
}

#[test]
fn test_new_valid_range() {
    assert!(PersistentHandle::new(0x81000000).is_ok());
    assert!(PersistentHandle::new(0x81000001).is_ok());
    assert!(PersistentHandle::new(0x81000007).is_ok());
    assert!(PersistentHandle::new(0x8100FFFF).is_ok());

    let max_handle = PersistentHandle::new(0x81000000 + u32::from(u16::MAX))
        .expect("Max valid handle should be accepted");
    assert_eq!(max_handle.offset(), u16::MAX);
}

#[test]
fn test_new_below_base() {
    assert_eq!(
        PersistentHandle::new(0x80FFFFFF),
        Err(PersistentHandleError::Min)
    );
    assert_eq!(
        PersistentHandle::new(0x00000000),
        Err(PersistentHandleError::Min)
    );
    assert_eq!(
        PersistentHandle::new(0x80000000),
        Err(PersistentHandleError::Min)
    );
}

#[test]
fn test_new_above_max() {
    assert_eq!(
        PersistentHandle::new(0x81010000),
        Err(PersistentHandleError::Max)
    );
    assert_eq!(
        PersistentHandle::new(0x81FFFFFF),
        Err(PersistentHandleError::Max)
    );
    assert_eq!(
        PersistentHandle::new(0x82000000),
        Err(PersistentHandleError::Max)
    );
}

#[test]
fn test_from_offset() {
    let handle = PersistentHandle::from_offset(0);
    assert_eq!(handle.as_u32(), 0x81000000);

    let handle = PersistentHandle::from_offset(5);
    assert_eq!(handle.as_u32(), 0x81000005);

    let handle = PersistentHandle::from_offset(u16::MAX);
    assert_eq!(handle.as_u32(), 0x81000000 + u32::from(u16::MAX));
}

#[test]
fn test_offset() {
    assert_eq!(PersistentHandle::from_offset(0).offset(), 0);
    assert_eq!(PersistentHandle::from_offset(1).offset(), 1);
    assert_eq!(PersistentHandle::from_offset(255).offset(), 255);
    assert_eq!(PersistentHandle::from_offset(u16::MAX).offset(), u16::MAX);
}

#[test]
fn test_try_from_u32_valid() {
    let handle =
        PersistentHandle::try_from(0x81000003).expect("Valid handle should convert from u32");
    assert_eq!(handle.as_u32(), 0x81000003);
    assert_eq!(handle.offset(), 3);
}

#[test]
fn test_try_from_u32_invalid() {
    assert!(PersistentHandle::try_from(0x80FFFFFF_u32).is_err());
    assert!(PersistentHandle::try_from(0x81FFFFFF_u32).is_err());
}

#[test]
fn test_into_u32() {
    let handle = PersistentHandle::from_offset(42);
    let value: u32 = handle.into();
    assert_eq!(value, 0x81000000 + 42);
}

#[test]
fn test_display() {
    assert_eq!(PersistentHandle::from_offset(0).to_text(), "0x81000000");
    assert_eq!(PersistentHandle::from_offset(1).to_text(), "0x81000001");
    assert_eq!(PersistentHandle::from_offset(0x10).to_text(), "0x81000010");
    assert_eq!(PersistentHandle::from_offset(0xABCD).to_text(), "0x8100ABCD");
}

#[test]
fn test_comparison() {
    let h0 = PersistentHandle::from_offset(0);
    let h1 = PersistentHandle::from_offset(1);
    let h2 = PersistentHandle::from_offset(2);
    let h1_dup = PersistentHandle::from_offset(1);

    assert!(h0 < h1);
    assert!(h1 < h2);
    assert!(h2 > h1);
    assert!(h1 <= h1_dup);
    assert!(h1 >= h1_dup);
    assert_eq!(h1, h1_dup);
    assert_ne!(h1, h2);
}

#[test]
fn test_ordering() {
    let mut handles = [
        PersistentHandle::from_offset(5),
        PersistentHandle::from_offset(1),
        PersistentHandle::from_offset(3),
        PersistentHandle::from_offset(0),
    ];

    handles.sort();

    assert_eq!(handles[0].offset(), 0);
    assert_eq!(handles[1].offset(), 1);
    assert_eq!(handles[2].offset(), 3);
    assert_eq!(handles[3].offset(), 5);
}

#[test]
fn test_hash_consistency() {
    let mut set = HashSet::new();
    let h1 = PersistentHandle::from_offset(1);
    let h1_dup = PersistentHandle::from_offset(1);
    let h2 = PersistentHandle::from_offset(2);

    set.insert(h1);
    assert!(set.contains(&h1_dup));
    assert!(!set.contains(&h2));

    set.insert(h2);
    assert_eq!(set.len(), 2);
}

#[test]
fn test_roundtrip() {
    for offset in [0_u16, 1, 7, 255, 1000, u16::MAX] {
        let handle = PersistentHandle::from_offset(offset);
        let value = handle.as_u32();
        let reconstructed =
            PersistentHandle::new(value).expect("Converted u32 should create valid handle");
        assert_eq!(handle, reconstructed);
        assert_eq!(reconstructed.offset(), offset);
    }
}

#[test]
fn test_size() {
    assert_eq!(std::mem::size_of::<PersistentHandle>(), 2);
    assert_eq!(std::mem::size_of::<Option<PersistentHandle>>(), 4);
}

#[test]
fn test_debug_output() {
    let handle = PersistentHandle::from_offset(42);
    let debug_str = format!("{handle:?}");
    assert!(debug_str.contains("PersistentHandle"));
}

#[test]
fn test_boundary_conditions() {
    assert!(PersistentHandle::new(0x81000000).is_ok());
    assert!(PersistentHandle::new(0x80FFFFFF).is_err());

    let max_valid = 0x81000000 + u32::from(u16::MAX);
    assert!(PersistentHandle::new(max_valid).is_ok());
    assert!(PersistentHandle::new(max_valid + 1).is_err());
}

#[test]
fn test_from_str_with_prefix() {
    let handle: PersistentHandle = "0x81000003"
        .parse()
        .expect("Valid hex string with prefix should parse");
    assert_eq!(handle.as_u32(), 0x81000003);

    let handle: PersistentHandle = "0X81000001"
        .parse()
        .expect("Valid hex string with uppercase prefix should parse");
    assert_eq!(handle.as_u32(), 0x81000001);
}

#[test]
fn test_from_str_without_prefix() {
    let handle: PersistentHandle = "81000003"
        .parse()
        .expect("Valid hex string without prefix should parse");
    assert_eq!(handle.as_u32(), 0x81000003);
}

#[test]
fn test_from_str_with_whitespace() {
    let handle: PersistentHandle = "  0x81000003  "
        .parse()
        .expect("Valid hex string with whitespace should parse");
    assert_eq!(handle.as_u32(), 0x81000003);
}

#[test]
fn test_from_str_invalid() {
    assert_eq!(
        "invalid".parse::<PersistentHandle>(),
        Err(PersistentHandleError::Parse)
    );
    assert_eq!(
        "0xGGGGGG".parse::<PersistentHandle>(),
        Err(PersistentHandleError::Parse)
    );
    assert_eq!(
        "".parse::<PersistentHandle>(),
        Err(PersistentHandleError::Parse)
    );
}

#[test]
fn test_from_str_out_of_range() {
    assert_eq!(
        "0x80FFFFFF".parse::<PersistentHandle>(),
        Err(PersistentHandleError::Min)
    );
    assert_eq!(
        "0x81FFFFFF".parse::<PersistentHandle>(),
        Err(PersistentHandleError::Max)
    );
}

#[test]
fn test_display_from_str_roundtrip() {
    for offset in [0_u16, 1, 7, 255, 1000, u16::MAX] {
        let handle = PersistentHandle::from_offset(offset);
        let string = handle.to_text();
        let parsed: PersistentHandle = string
            .parse()
            .expect("Display output should parse back to same handle");
        assert_eq!(handle, parsed);
    }
}

#[test]
fn test_try_from_string() {
    let s = "0x81000003".to_owned();
    let handle = PersistentHandle::try_from(s).expect("Valid string should convert to handle");
    assert_eq!(handle.as_u32(), 0x81000003);
}

#[test]
fn test_try_from_str() {
    let handle =
        PersistentHandle::try_from("0x81000003").expect("Valid str with prefix should convert");
    assert_eq!(handle.as_u32(), 0x81000003);

    let handle =
        PersistentHandle::try_from("81000003").expect("Valid str without prefix should convert");
    assert_eq!(handle.as_u32(), 0x81000003);
}
