//! Structured facts about the local machine: the processor, its frequencies
//! and vulnerabilities, the memory, the operating system, the kernel, the
//! host name and the desktop session.
//!
//! Every query is a function from the text that the kernel or the
//! distribution exposes to a typed record. Reading the files and the
//! environment is left to the caller, who hands over what was found there:
//! `None` where a file is not there.

use vstd::prelude::*;
use vstd::string::StringExecFns;

pub mod error;
pub mod linux;
pub mod number;
pub mod text;

use crate::error::InfoError;
use crate::linux::cpu::{found_listing, vulnerabilities_of, VulnerabilityFile, Vulnerabilities};
use crate::linux::kernel::verbatim;
use crate::linux::network::hostname_of;
use crate::text::{or_unknown, owned_text_of, text_of};

verus! {

/// Asks the processor for its brand string through `raw_cpuid`:
/// `CpuId::new().get_processor_brand_string()`, and `as_str()` on what comes
/// back. The answer depends on the machine, so nothing is claimed of it but
/// its length: the brand string is read from three CPUID leaves of sixteen
/// bytes each, cut at the first zero byte and trimmed, and the text that
/// stands in for bytes that are no UTF-8 is shorter than that.
#[verifier::external_body]
fn brand_string() -> (r: Option<String>)
    ensures
        r matches Some(brand) ==> brand@.len() <= 48,
{
    match raw_cpuid::CpuId::new().get_processor_brand_string() {
        Some(brand) => Some(brand.as_str().to_string()),
        None => None,
    }
}

/// The name of a processor, given its brand string: the brand string itself,
/// or `Unknown` where the processor reports none.
pub fn processor_name_from(brand: Option<String>) -> (r: String)
    ensures
        r@ == or_unknown(owned_text_of(brand)),
{
    match brand {
        Some(name) => name,
        None => String::from_str("Unknown"),
    }
}

/// The name of the processor that runs this code: its brand string, or
/// `Unknown` where it reports none.
pub fn processor_name() -> (r: String)
    ensures
        r@.len() <= 48,
{
    proof {
        reveal_strlit("Unknown");
    }
    processor_name_from(brand_string())
}

/// The vulnerabilities that affect the processor. See
/// `linux::cpu::get_cpu_vulnerabilities`.
pub fn get_cpu_vulnerabilities(listing: Option<&Vec<VulnerabilityFile>>) -> (r: Result<
    Vulnerabilities,
    InfoError,
>)
    ensures
        linux::cpu::outcome(r) == vulnerabilities_of(found_listing(listing)),
        listing is None ==> r is Err,
{
    linux::cpu::get_cpu_vulnerabilities(listing)
}

/// The architecture of the machine. See `linux::kernel::arch`.
pub fn arch(contents: Option<&str>) -> (r: Result<String, InfoError>)
    ensures
        linux::kernel::outcome(r) == verbatim(text_of(contents)),
{
    linux::kernel::arch(contents)
}

/// The host name of the machine. See `linux::network::hostname`.
pub fn hostname(contents: Option<&str>) -> (r: Result<String, InfoError>)
    ensures
        linux::kernel::outcome(r) == hostname_of(text_of(contents)),
{
    linux::network::hostname(contents)
}

} // verus!
