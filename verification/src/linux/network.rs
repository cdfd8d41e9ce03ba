//! The name of the machine on the network.

use crate::error::InfoError;
use crate::linux::kernel::outcome;
use crate::text::{chomp, chomped, text_of, to_chars, to_text};
use vstd::prelude::*;

verus! {

/// Where the kernel says the host name.
pub const HOSTNAME_PATH: &'static str = "/proc/sys/kernel/hostname";

/// What reading the host name gives: the text without one line feed at its
/// end, or `NotFound` where the file is not there.
pub open spec fn hostname_of(contents: Option<Seq<char>>) -> Result<Seq<char>, InfoError> {
    match contents {
        Some(text) => Ok(chomp(text)),
        None => Err(InfoError::NotFound),
    }
}

/// The host name of the machine, given what was found at `HOSTNAME_PATH`.
pub fn hostname(contents: Option<&str>) -> (r: Result<String, InfoError>)
    ensures
        outcome(r) == hostname_of(text_of(contents)),
{
    match contents {
        Some(text) => Ok(to_text(&chomped(&to_chars(text)))),
        None => Err(InfoError::NotFound),
    }
}

} // verus!
