//! The desktop session, as the environment describes it.

use crate::text::{or_unknown, owned_text_of};
use vstd::prelude::*;
use vstd::string::StringExecFns;

verus! {

/// The environment variable that names the desktop environment.
pub const DESKTOP_VARIABLE: &'static str = "XDG_CURRENT_DESKTOP";

/// The environment variable that names the type of the session.
pub const SESSION_VARIABLE: &'static str = "XDG_SESSION_TYPE";

/// The desktop environment, given the value of `DESKTOP_VARIABLE`: the value
/// itself, or `Unknown` where the variable is not set. A session without a
/// desktop is no failure.
pub fn desktop_environment(value: Option<String>) -> (r: String)
    ensures
        r@ == or_unknown(owned_text_of(value)),
{
    match value {
        Some(de) => de,
        None => String::from_str("Unknown"),
    }
}

/// The type of the session, such as `wayland` or `x11`, given the value of
/// `SESSION_VARIABLE`: the value itself, or `Unknown` where the variable is
/// not set.
pub fn session_type(value: Option<String>) -> (r: String)
    ensures
        r@ == or_unknown(owned_text_of(value)),
{
    match value {
        Some(session_type) => session_type,
        None => String::from_str("Unknown"),
    }
}

} // verus!
