//! The kernel's version and architecture.

use crate::error::InfoError;
use crate::text::text_of;
use vstd::prelude::*;
use vstd::string::StringExecFns;

verus! {

/// Where the kernel says its version.
pub const OSRELEASE_PATH: &'static str = "/proc/sys/kernel/osrelease";

/// Where the kernel says the architecture of the machine.
pub const ARCH_PATH: &'static str = "/proc/sys/kernel/arch";

/// What reading a file as it stands gives: `NotFound` where it is not there.
pub open spec fn verbatim(contents: Option<Seq<char>>) -> Result<Seq<char>, InfoError> {
    match contents {
        Some(text) => Ok(text),
        None => Err(InfoError::NotFound),
    }
}

/// What `r` holds, as a model.
pub open spec fn outcome(r: Result<String, InfoError>) -> Result<Seq<char>, InfoError> {
    match r {
        Ok(text) => Ok(text@),
        Err(e) => Err(e),
    }
}

/// The version of the running kernel, given what was found at
/// `OSRELEASE_PATH`: the text as it stands, with its line ending.
pub fn kernel_version(contents: Option<&str>) -> (r: Result<String, InfoError>)
    ensures
        outcome(r) == verbatim(text_of(contents)),
{
    match contents {
        Some(text) => Ok(String::from_str(text)),
        None => Err(InfoError::NotFound),
    }
}

/// The architecture of the machine, such as `x86_64`, given what was found at
/// `ARCH_PATH`: the text as it stands, with its line ending.
pub fn arch(contents: Option<&str>) -> (r: Result<String, InfoError>)
    ensures
        outcome(r) == verbatim(text_of(contents)),
{
    match contents {
        Some(text) => Ok(String::from_str(text)),
        None => Err(InfoError::NotFound),
    }
}

} // verus!
