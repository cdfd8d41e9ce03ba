//! Parsers for what a Linux system says about itself.

pub mod cpu;
pub mod files;
pub mod gui;
pub mod kernel;
pub mod network;
