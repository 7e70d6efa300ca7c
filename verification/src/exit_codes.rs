//! The codes with which the process ends.

use vstd::prelude::*;

verus! {

/// The run succeeded.
pub const ERROR_SUCCESS: u8 = 0;

/// The arguments could not be parsed. Kept for callers; the pipeline itself
/// never ends with it.
pub const ARGUMENT_PARSING_ERROR: u8 = 2;

/// The family of the platform that the process runs on.
#[derive(Debug, Clone, Copy, PartialEq, Eq, Structural)]
pub enum Platform {
    Windows,
    Unix,
}

/// The platform's code for a failed run.
pub open spec fn cannot_make_code(platform: Platform) -> u8 {
    match platform {
        Platform::Windows => 82u8,
        Platform::Unix => 1u8,
    }
}

/// The platform's code for bad arguments.
pub open spec fn bad_arguments_code(platform: Platform) -> u8 {
    match platform {
        Platform::Windows => 160u8,
        Platform::Unix => 128u8,
    }
}

/// The code with which a run ends: zero where it succeeded, and the
/// platform's code for a failed run whatever made it fail.
pub open spec fn exit_code_of(platform: Platform, succeeded: bool) -> u8 {
    if succeeded {
        ERROR_SUCCESS
    } else {
        cannot_make_code(platform)
    }
}

/// The platform's code for a failed run.
pub fn error_cannot_make(platform: Platform) -> (r: u8)
    ensures
        r == cannot_make_code(platform),
        r != ERROR_SUCCESS,
{
    match platform {
        Platform::Windows => 82u8,
        Platform::Unix => 1u8,
    }
}

/// The platform's code for bad arguments. Kept for callers; the pipeline
/// itself never ends with it.
pub fn error_bad_arguments(platform: Platform) -> (r: u8)
    ensures
        r == bad_arguments_code(platform),
{
    match platform {
        Platform::Windows => 160u8,
        Platform::Unix => 128u8,
    }
}

/// The code with which a run ends.
pub fn exit_code(platform: Platform, succeeded: bool) -> (r: u8)
    ensures
        r == exit_code_of(platform, succeeded),
        (r == ERROR_SUCCESS) == succeeded,
{
    if succeeded {
        ERROR_SUCCESS
    } else {
        error_cannot_make(platform)
    }
}

} // verus!
