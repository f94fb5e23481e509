//! The dry-run key test: a candidate secret is offered to the header
//! without opening anything, over the input stream only.

use vstd::prelude::*;
use vstd::string::StringExecFns;
use crate::invocation::Invocation;
use crate::luks::get_key::KeyError;
use crate::utils::options::Options;

verus! {

/// The argument list of the dry-run key test. It is a function of the
/// configuration alone: the secret takes no part in it.
pub open spec fn spec_check_key_args(options: Options) -> Seq<Seq<char>> {
    seq!["luksOpen"@, "--test-passphrase"@, "--key-file=-"@, options.partition_path@]
}

/// The dry-run key test: `cryptsetup luksOpen --test-passphrase
/// --key-file=- <device>`, the secret streamed to the input channel and
/// never placed in the argument list.
pub fn check_key_invocation(options: &Options, key: &str) -> (r: Invocation)
    ensures
        r.program@ == "cryptsetup"@,
        r.args_text() == spec_check_key_args(*options),
        r.input matches Some(k) && k@ == key@,
{
    let mut args: Vec<String> = Vec::new();
    args.push(String::from_str("luksOpen"));
    args.push(String::from_str("--test-passphrase"));
    args.push(String::from_str("--key-file=-"));
    args.push(options.partition_path.clone());
    proof {
        assert(args.deep_view() =~= spec_check_key_args(*options));
    }
    Invocation {
        program: String::from_str("cryptsetup"),
        args,
        input: Some(key.to_owned()),
    }
}

/// Classifies the dry-run test's outcome: a rejected secret is an invalid
/// key.
pub fn check_key(test_success: bool) -> (r: Result<(), KeyError>)
    ensures
        r == if test_success {
            Ok::<(), KeyError>(())
        } else {
            Err::<(), KeyError>(KeyError::InvalidKey)
        },
{
    if test_success {
        Ok(())
    } else {
        Err(KeyError::InvalidKey)
    }
}

} // verus!
