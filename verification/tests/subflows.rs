//! Tests of the unlock and add-key sub-flows: the dry-run test comes
//! before the real open, an enrolled candidate is refused before any
//! prompt, and the key is handed through the stages unchanged.

use mount_luks::luks::add_key::add_key;
use mount_luks::luks::add_key::AddKeyEvent;
use mount_luks::luks::add_key::AddKeyState;
use mount_luks::luks::get_key::KeyError;
use mount_luks::luks::unlock_luks::unlock_luks;
use mount_luks::luks::unlock_luks::UnlockEvent;
use mount_luks::luks::unlock_luks::UnlockState;

#[test]
fn unlock_tests_the_key_before_opening() {
    // The assembled key moves the sub-flow to the dry-run test.
    let state = unlock_luks(
        UnlockState::Key,
        UnlockEvent::Key {
            outcome: Ok("secret".to_owned()),
        },
    )
    .expect("an assembled key moves to the test");
    let state = match state {
        Some(UnlockState::Test { key }) => {
            assert_eq!(key, "secret");
            UnlockState::Test { key }
        }
        _ => panic!("expected the test stage"),
    };

    // An accepted test hands the same key to the real open.
    let state = unlock_luks(state, UnlockEvent::Test { test_success: true })
        .expect("an accepted candidate moves to the open");
    let state = match state {
        Some(UnlockState::Open { key }) => {
            assert_eq!(key, "secret");
            UnlockState::Open { key }
        }
        _ => panic!("expected the open stage"),
    };

    // A successful open completes the sub-flow.
    let done = unlock_luks(state, UnlockEvent::Open { open_success: true })
        .expect("a successful open completes the unlock");
    assert!(done.is_none());
}

#[test]
fn unlock_rejected_test_never_reaches_the_open() {
    let state = UnlockState::Test {
        key: "secret".to_owned(),
    };
    let failure = unlock_luks(state, UnlockEvent::Test { test_success: false })
        .expect_err("a rejected candidate stops the unlock");
    assert_eq!(failure, KeyError::InvalidKey);
}

#[test]
fn unlock_failed_open_is_an_unlock_failure() {
    let state = UnlockState::Open {
        key: "secret".to_owned(),
    };
    let failure = unlock_luks(state, UnlockEvent::Open { open_success: false })
        .expect_err("a failed open stops the unlock");
    assert_eq!(failure, KeyError::Unlock);
}

#[test]
fn unlock_assembly_failure_propagates() {
    let failure = unlock_luks(
        UnlockState::Key,
        UnlockEvent::Key {
            outcome: Err(KeyError::Required),
        },
    )
    .expect_err("a failed assembly stops the unlock");
    assert_eq!(failure, KeyError::Required);
}

#[test]
fn add_key_refuses_enrolled_candidate_before_prompting() {
    let state = add_key(
        AddKeyState::Key,
        AddKeyEvent::Key {
            outcome: Ok("candidate".to_owned()),
        },
    )
    .expect("an assembled candidate moves to the test");
    let state = match state {
        Some(AddKeyState::Test { key }) => {
            assert_eq!(key, "candidate");
            AddKeyState::Test { key }
        }
        _ => panic!("expected the test stage"),
    };

    // The header accepted the candidate: it is already enrolled, so the
    // sub-flow stops here, before the prompt and the append.
    let failure = add_key(state, AddKeyEvent::Test { test_success: true })
        .expect_err("an enrolled candidate is refused");
    assert_eq!(failure, KeyError::Exists);
}

#[test]
fn add_key_prompts_then_appends_a_fresh_candidate() {
    // The header rejected the candidate: it is new, so the sub-flow asks
    // for the existing passphrase.
    let state = AddKeyState::Test {
        key: "candidate".to_owned(),
    };
    let state = add_key(state, AddKeyEvent::Test { test_success: false })
        .expect("a fresh candidate moves to the prompt");
    let state = match state {
        Some(AddKeyState::Prompt { key }) => {
            assert_eq!(key, "candidate");
            AddKeyState::Prompt { key }
        }
        _ => panic!("expected the prompt stage"),
    };

    // The prompted passphrase joins the candidate for the append.
    let state = add_key(
        state,
        AddKeyEvent::Prompt {
            outcome: Ok("existing".to_owned()),
        },
    )
    .expect("a read passphrase moves to the append");
    let state = match state {
        Some(AddKeyState::Apply { existing, key }) => {
            assert_eq!(existing, "existing");
            assert_eq!(key, "candidate");
            AddKeyState::Apply { existing, key }
        }
        _ => panic!("expected the append stage"),
    };

    let done = add_key(state, AddKeyEvent::Apply { add_success: true })
        .expect("a successful append completes the addition");
    assert!(done.is_none());

    // A failed append is an Add failure.
    let state = AddKeyState::Apply {
        existing: "existing".to_owned(),
        key: "candidate".to_owned(),
    };
    let failure = add_key(state, AddKeyEvent::Apply { add_success: false })
        .expect_err("a failed append stops the addition");
    assert_eq!(failure, KeyError::Add);
}
