//! The add-key sub-flow: assemble the candidate, refuse one the header
//! already accepts, prompt for the existing accepted passphrase only
//! after that refusal check, and append the candidate to the header's key
//! slots — both secrets streamed over the input channel only. The
//! sub-flow is a state machine like the command flows, so the
//! refuse-then-prompt-then-append protocol is part of the library, not of
//! the front end.

use vstd::prelude::*;
use vstd::string::StringExecFns;
use crate::invocation::Invocation;
use crate::luks::get_key::KeyError;
use crate::utils::options::Options;

verus! {

/// The stages of one key addition, in order. The candidate assembled at
/// the first stage, and later the prompted existing passphrase, are
/// carried in the state.
#[derive(Debug)]
pub enum AddKeyState {
    /// Assemble the candidate key from the enabled sources.
    Key,
    /// Offer the candidate to the header: acceptance means it is already
    /// enrolled and must not be added again.
    Test { key: String },
    /// Ask for the existing accepted passphrase.
    Prompt { key: String },
    /// Append the candidate to the header's key slots.
    Apply { existing: String, key: String },
}

/// The outcome of one stage's outside work, fed back to the sub-flow.
#[derive(Debug)]
pub enum AddKeyEvent {
    /// How assembling the candidate went.
    Key { outcome: Result<String, KeyError> },
    /// Whether the dry-run test accepted the candidate.
    Test { test_success: bool },
    /// How reading the existing passphrase went.
    Prompt { outcome: Result<String, KeyError> },
    /// Whether the append call succeeded.
    Apply { add_success: bool },
}

impl AddKeyState {
    /// The position of the stage in the sub-flow, starting at one.
    pub open spec fn spec_position(self) -> int {
        match self {
            AddKeyState::Key => 1,
            AddKeyState::Test { .. } => 2,
            AddKeyState::Prompt { .. } => 3,
            AddKeyState::Apply { .. } => 4,
        }
    }
}

/// Whether the event reports the outside work of the given stage.
pub open spec fn event_fits_add_key(state: AddKeyState, event: AddKeyEvent) -> bool {
    match (state, event) {
        (AddKeyState::Key, AddKeyEvent::Key { .. }) => true,
        (AddKeyState::Test { .. }, AddKeyEvent::Test { .. }) => true,
        (AddKeyState::Prompt { .. }, AddKeyEvent::Prompt { .. }) => true,
        (AddKeyState::Apply { .. }, AddKeyEvent::Apply { .. }) => true,
        _ => false,
    }
}

/// What one stage of the key addition decides: an assembled candidate
/// moves to the test; a candidate the header already accepts is refused
/// with `Exists` before anything is prompted or appended; a rejected
/// candidate moves on to the prompt; the prompted passphrase joins the
/// candidate for the append; a failed append is an `Add` failure.
pub open spec fn spec_add_key_step(state: AddKeyState, event: AddKeyEvent) -> Result<
    Option<AddKeyState>,
    KeyError,
> {
    match (state, event) {
        (AddKeyState::Key, AddKeyEvent::Key { outcome }) => match outcome {
            Ok(key) => Ok(Some(AddKeyState::Test { key })),
            Err(e) => Err(e),
        },
        (AddKeyState::Test { key }, AddKeyEvent::Test { test_success }) => if test_success {
            Err(KeyError::Exists)
        } else {
            Ok(Some(AddKeyState::Prompt { key }))
        },
        (AddKeyState::Prompt { key }, AddKeyEvent::Prompt { outcome }) => match outcome {
            Ok(existing) => Ok(Some(AddKeyState::Apply { existing, key })),
            Err(e) => Err(e),
        },
        (AddKeyState::Apply { .. }, AddKeyEvent::Apply { add_success }) => if add_success {
            Ok(None)
        } else {
            Err(KeyError::Add)
        },
        _ => Ok(None),
    }
}

/// Advances the add-key sub-flow by one stage: consumes the outcome of
/// the stage it is at and yields the next stage, `None` on completion, or
/// the failure — on which the front end stops, so an already-enrolled
/// candidate never reaches the prompt or the append.
pub fn add_key(state: AddKeyState, event: AddKeyEvent) -> (r: Result<Option<AddKeyState>, KeyError>)
    requires
        event_fits_add_key(state, event),
    ensures
        r == spec_add_key_step(state, event),
{
    match (state, event) {
        (AddKeyState::Key, AddKeyEvent::Key { outcome }) => match outcome {
            Ok(key) => Ok(Some(AddKeyState::Test { key })),
            Err(e) => Err(e),
        },
        (AddKeyState::Test { key }, AddKeyEvent::Test { test_success }) => if test_success {
            Err(KeyError::Exists)
        } else {
            Ok(Some(AddKeyState::Prompt { key }))
        },
        (AddKeyState::Prompt { key }, AddKeyEvent::Prompt { outcome }) => match outcome {
            Ok(existing) => Ok(Some(AddKeyState::Apply { existing, key })),
            Err(e) => Err(e),
        },
        (AddKeyState::Apply { .. }, AddKeyEvent::Apply { add_success }) => if add_success {
            Ok(None)
        } else {
            Err(KeyError::Add)
        },
        _ => Ok(None),
    }
}

/// Law: the key addition runs assemble, test, prompt, append, each
/// exactly one stage later; the candidate is handed on unchanged from the
/// test to the prompt to the append; an accepted test is refused with
/// `Exists`, so the prompt and the append are never reached for an
/// already-enrolled candidate; only the append completes the sub-flow.
pub proof fn lemma_add_key_flow_order(state: AddKeyState, event: AddKeyEvent)
    requires
        event_fits_add_key(state, event),
    ensures
        spec_add_key_step(state, event) matches Ok(Some(next)) ==> next.spec_position()
            == state.spec_position() + 1,
        state matches AddKeyState::Test { key } ==> (spec_add_key_step(state, event) matches Ok(
            Some(next),
        ) ==> next == (AddKeyState::Prompt { key })),
        event matches AddKeyEvent::Test { test_success: true } ==> (state is Test
            ==> spec_add_key_step(state, event) == Err::<Option<AddKeyState>, KeyError>(
            KeyError::Exists,
        )),
        state matches AddKeyState::Prompt { key } ==> (spec_add_key_step(state, event) matches Ok(
            Some(next),
        ) ==> (next matches AddKeyState::Apply { existing: _, key: k } && k == key)),
        spec_add_key_step(state, event) matches Ok(None) ==> state is Apply,
{
}

/// The argument list of the key-append call. It is a function of the
/// configuration alone: neither secret takes any part in it.
pub open spec fn spec_add_key_args(options: Options) -> Seq<Seq<char>> {
    seq!["luksAddKey"@, options.partition_path@]
}

/// What the key-append call reads from its input channel: the existing
/// accepted secret, then the new secret twice, newline-separated.
pub open spec fn spec_add_key_input(existing: Seq<char>, key: Seq<char>) -> Seq<char> {
    existing + "\n"@ + key + "\n"@ + key
}

/// The key-append call: `cryptsetup luksAddKey <device>`, both secrets
/// streamed to the input channel and never placed in the argument list.
pub fn add_key_invocation(options: &Options, existing: &str, key: &str) -> (r: Invocation)
    ensures
        r.program@ == "cryptsetup"@,
        r.args_text() == spec_add_key_args(*options),
        r.input matches Some(i) && i@ == spec_add_key_input(existing@, key@),
{
    let mut args: Vec<String> = Vec::new();
    args.push(String::from_str("luksAddKey"));
    args.push(options.partition_path.clone());
    proof {
        assert(args.deep_view() =~= spec_add_key_args(*options));
    }
    let mut input = existing.to_owned();
    input.append("\n");
    input.append(key);
    input.append("\n");
    input.append(key);
    Invocation { program: String::from_str("cryptsetup"), args, input: Some(input) }
}

} // verus!
