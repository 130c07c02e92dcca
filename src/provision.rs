//! Making sure an image exists locally before a container of it is started: the image is
//! built from its context directory only when the existence check fails.
use vstd::prelude::*;

use crate::command::{build_args, inspect_args, CapturedOutput, CommandError, RuntimeCommand};

verus! {

/// Provisioning did not produce the image.
#[derive(Debug, Clone, PartialEq, Eq)]
pub enum ProvisionError {
    /// The build command failed; its diagnostics are kept.
    BuildFailed(CommandError),
}

/// The command that checks whether `image` exists.
pub fn existence_request(image: &str) -> (r: RuntimeCommand)
    ensures
        r@ == inspect_args(image@),
{
    RuntimeCommand::Inspect { target: String::from_str(image) }
}

/// Takes back the existence check's outcome: nothing more to do when it succeeded, otherwise
/// the command that builds `image` from `context`. Any failure of the check, whatever its
/// cause, counts as absence.
pub fn build_request(
    image: &str,
    context: &str,
    existence: &Result<CapturedOutput, CommandError>,
) -> (r: Option<RuntimeCommand>)
    ensures
        existence is Ok ==> r is None,
        existence is Err ==> (r matches Some(cmd) && cmd@ == build_args(image@, context@)),
{
    match existence {
        Ok(_) => None,
        Err(_) => Some(
            RuntimeCommand::Build { name: String::from_str(image), context: String::from_str(context) },
        ),
    }
}

/// Takes back the build command's outcome.
pub fn complete_build(outcome: Result<CapturedOutput, CommandError>) -> (r: Result<
    (),
    ProvisionError,
>)
    ensures
        match outcome {
            Ok(_) => r is Ok,
            Err(e) => r == Err::<(), ProvisionError>(ProvisionError::BuildFailed(e)),
        },
{
    match outcome {
        Ok(_) => Ok(()),
        Err(e) => Err(ProvisionError::BuildFailed(e)),
    }
}

} // verus!
