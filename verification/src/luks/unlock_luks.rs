//! The unlock sub-flow: assemble the key, test the candidate with a
//! dry-run open, and only when the test accepted it perform the real
//! open — with the same key, the secret streamed over the input channel
//! only. The sub-flow is a state machine like the command flows, so the
//! test-before-open protocol is part of the library, not of the front
//! end.

use vstd::prelude::*;
use vstd::string::StringExecFns;
use crate::invocation::Invocation;
use crate::luks::get_key::KeyError;
use crate::utils::options::Options;

verus! {

/// The stages of one unlock, in order. The key assembled at the first
/// stage is carried in the state, so the tested key and the opened key
/// are one and the same.
#[derive(Debug)]
pub enum UnlockState {
    /// Assemble the key from the enabled sources.
    Key,
    /// Offer the candidate to the header with a dry-run open.
    Test { key: String },
    /// Perform the real open with the accepted candidate.
    Open { key: String },
}

/// The outcome of one stage's outside work, fed back to the sub-flow.
#[derive(Debug)]
pub enum UnlockEvent {
    /// How assembling the key went.
    Key { outcome: Result<String, KeyError> },
    /// Whether the dry-run test accepted the candidate.
    Test { test_success: bool },
    /// Whether the real open succeeded.
    Open { open_success: bool },
}

impl UnlockState {
    /// The position of the stage in the sub-flow, starting at one.
    pub open spec fn spec_position(self) -> int {
        match self {
            UnlockState::Key => 1,
            UnlockState::Test { .. } => 2,
            UnlockState::Open { .. } => 3,
        }
    }
}

/// Whether the event reports the outside work of the given stage.
pub open spec fn event_fits_unlock(state: UnlockState, event: UnlockEvent) -> bool {
    match (state, event) {
        (UnlockState::Key, UnlockEvent::Key { .. }) => true,
        (UnlockState::Test { .. }, UnlockEvent::Test { .. }) => true,
        (UnlockState::Open { .. }, UnlockEvent::Open { .. }) => true,
        _ => false,
    }
}

/// What one stage of the unlock decides: an assembled key moves to the
/// test carrying that key; an accepted test moves to the open carrying
/// the same key; a rejected test is an invalid key and the open is never
/// reached; a failed open is an unlock failure.
pub open spec fn spec_unlock_step(state: UnlockState, event: UnlockEvent) -> Result<
    Option<UnlockState>,
    KeyError,
> {
    match (state, event) {
        (UnlockState::Key, UnlockEvent::Key { outcome }) => match outcome {
            Ok(key) => Ok(Some(UnlockState::Test { key })),
            Err(e) => Err(e),
        },
        (UnlockState::Test { key }, UnlockEvent::Test { test_success }) => if test_success {
            Ok(Some(UnlockState::Open { key }))
        } else {
            Err(KeyError::InvalidKey)
        },
        (UnlockState::Open { .. }, UnlockEvent::Open { open_success }) => if open_success {
            Ok(None)
        } else {
            Err(KeyError::Unlock)
        },
        _ => Ok(None),
    }
}

/// Advances the unlock sub-flow by one stage: consumes the outcome of the
/// stage it is at and yields the next stage, `None` on completion, or the
/// failure — on which the front end stops, so a rejected candidate is
/// never offered to the real open.
pub fn unlock_luks(state: UnlockState, event: UnlockEvent) -> (r: Result<
    Option<UnlockState>,
    KeyError,
>)
    requires
        event_fits_unlock(state, event),
    ensures
        r == spec_unlock_step(state, event),
{
    match (state, event) {
        (UnlockState::Key, UnlockEvent::Key { outcome }) => match outcome {
            Ok(key) => Ok(Some(UnlockState::Test { key })),
            Err(e) => Err(e),
        },
        (UnlockState::Test { key }, UnlockEvent::Test { test_success }) => if test_success {
            Ok(Some(UnlockState::Open { key }))
        } else {
            Err(KeyError::InvalidKey)
        },
        (UnlockState::Open { .. }, UnlockEvent::Open { open_success }) => if open_success {
            Ok(None)
        } else {
            Err(KeyError::Unlock)
        },
        _ => Ok(None),
    }
}

/// Law: the unlock runs assemble, then test, then open, each exactly one
/// stage later; the key is handed on unchanged, so the key the real open
/// receives is the one the dry-run test accepted; a rejected test yields
/// `InvalidKey` and the sub-flow never reaches the open stage; only the
/// open stage completes the sub-flow.
pub proof fn lemma_unlock_flow_order(state: UnlockState, event: UnlockEvent)
    requires
        event_fits_unlock(state, event),
    ensures
        spec_unlock_step(state, event) matches Ok(Some(next)) ==> next.spec_position()
            == state.spec_position() + 1,
        event matches UnlockEvent::Key { outcome: Ok(k) } ==> (state is Key ==> spec_unlock_step(
            state,
            event,
        ) == Ok::<Option<UnlockState>, KeyError>(Some((UnlockState::Test { key: k })))),
        state matches UnlockState::Test { key } ==> (spec_unlock_step(state, event) matches Ok(
            Some(next),
        ) ==> next == (UnlockState::Open { key })),
        event matches UnlockEvent::Test { test_success: false } ==> (state is Test
            ==> spec_unlock_step(state, event) == Err::<Option<UnlockState>, KeyError>(
            KeyError::InvalidKey,
        )),
        spec_unlock_step(state, event) matches Ok(None) ==> state is Open,
{
}

/// The argument list of the real unlock. It is a function of the
/// configuration alone: the secret takes no part in it.
pub open spec fn spec_unlock_args(options: Options) -> Seq<Seq<char>> {
    seq!["luksOpen"@, "--key-file=-"@, options.partition_path@, options.mapper_name@]
}

/// The real unlock: `cryptsetup luksOpen --key-file=- <device>
/// <mapperName>`, the secret streamed to the input channel and never
/// placed in the argument list.
pub fn unlock_invocation(options: &Options, key: &str) -> (r: Invocation)
    ensures
        r.program@ == "cryptsetup"@,
        r.args_text() == spec_unlock_args(*options),
        r.input matches Some(k) && k@ == key@,
{
    let mut args: Vec<String> = Vec::new();
    args.push(String::from_str("luksOpen"));
    args.push(String::from_str("--key-file=-"));
    args.push(options.partition_path.clone());
    args.push(options.mapper_name.clone());
    proof {
        assert(args.deep_view() =~= spec_unlock_args(*options));
    }
    Invocation {
        program: String::from_str("cryptsetup"),
        args,
        input: Some(key.to_owned()),
    }
}

} // verus!
