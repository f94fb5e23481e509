//! Tests of key-material assembly: source order, separators, the
//! at-least-one-source rule, and the error texts.

use mount_luks::luks::get_key::assemble_key;
use mount_luks::luks::get_key::KeyError;

#[test]
fn assemble_key_file_only() {
    let key = assemble_key(Some("abc".to_owned()), None, None).expect("one source is enabled");
    assert_eq!(key, "abc");
}

#[test]
fn assemble_key_file_precedes_prompt() {
    let key = assemble_key(Some("abc".to_owned()), None, Some("def".to_owned()))
        .expect("two sources are enabled");
    assert_eq!(key, "abcdef");
}

#[test]
fn assemble_key_no_sources_fails() {
    assert_eq!(assemble_key(None, None, None), Err(KeyError::Required));
}

#[test]
fn assemble_key_orders_all_three_sources() {
    let key = assemble_key(
        Some("file".to_owned()),
        Some("sealed".to_owned()),
        Some("typed".to_owned()),
    )
    .expect("three sources are enabled");
    assert_eq!(key, "filesealedtyped");
}

#[test]
fn assemble_key_keeps_trailing_newline() {
    // Key-file contents are taken verbatim; a trailing newline is part of
    // the secret.
    let key = assemble_key(Some("abc\n".to_owned()), None, Some("def".to_owned()))
        .expect("two sources are enabled");
    assert_eq!(key, "abc\ndef");
}

#[test]
fn assemble_key_empty_fragment_is_kept() {
    let key = assemble_key(Some(String::new()), None, Some("def".to_owned()))
        .expect("an empty enabled source is a caveat, not an error");
    assert_eq!(key, "def");
}

#[test]
fn key_error_messages() {
    assert_eq!(KeyError::KeyFile.message(), "Unable to read key file");
    assert_eq!(KeyError::Tpm.message(), "Unable to read key from TPM");
    assert_eq!(KeyError::Prompt.message(), "Unable to read key from prompt");
    assert_eq!(
        KeyError::Required.message(),
        "At least one key source must be provided"
    );
    assert_eq!(KeyError::InvalidKey.message(), "Key is incorrect");
    assert_eq!(KeyError::Unlock.message(), "Failed to unlock LUKS partition");
    assert_eq!(KeyError::Exists.message(), "Key already exists");
    assert_eq!(KeyError::Add.message(), "Failed to add LUKS key");
}
