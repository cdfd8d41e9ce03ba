//! Parsers for the multi-line files under `/proc` and `/etc`.

pub mod cpuinfo;
pub mod meminfo;
pub mod os_release;
