//! Host platform: shells, processes, clipboard and notifications.
use vstd::prelude::*;

pub mod clipboard;
pub mod jobs;
pub mod notification;
pub mod process;
pub mod shell;

verus! {

/// Operating systems the multiplexer tells apart.
#[derive(Clone, Copy, Debug, PartialEq, Eq, Structural)]
pub enum Os {
    Linux,
    MacOs,
    Windows,
    Other,
}

/// Processor architectures the multiplexer tells apart.
#[derive(Clone, Copy, Debug, PartialEq, Eq, Structural)]
pub enum Arch {
    X86_64,
    Aarch64,
    Other,
}

} // verus!
