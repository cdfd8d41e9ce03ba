//! The failures that the parsers report.

use vstd::prelude::*;

verus! {

/// A value that a parser could not read.
#[derive(Clone, Copy, Debug, PartialEq, Eq, Structural)]
pub enum DataField {
    /// The index after `processor`.
    Processor,
    /// The clock rate after `cpu MHz`.
    CpuMhz,
    /// The count after `cpu cores`.
    CpuCores,
    /// The lowest frequency of a processor.
    MinFrequency,
    /// The highest frequency of a processor.
    MaxFrequency,
    /// The text of a vulnerability file.
    Mitigation,
}

/// Why a query gave no answer.
#[derive(Clone, Copy, Debug, PartialEq, Eq, Structural)]
pub enum InfoError {
    /// The file or directory to read is not there.
    NotFound,
    /// A value is there and cannot be read as what it should be. `section`
    /// counts the records of the input from 0, and `field` names the value.
    MalformedData { section: usize, field: DataField },
    /// The query is not available on this platform.
    Unsupported,
}

} // verus!
