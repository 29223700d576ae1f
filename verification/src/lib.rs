//! Platform decisions of the herdr terminal multiplexer.
//!
//! The crate holds what herdr decides about its host: which shell to run and how, which processes
//! belong to a terminal, how its local streams and listeners behave, what goes on the clipboard and
//! into a notification. It performs no input or output. Where a decision is needed between two
//! calls into the operating system, it is a step machine: the caller carries out the step it is
//! told, hands back what came of it, and is told the next step until there is an outcome.
pub mod error;
pub mod platform;
pub mod release_asset;
pub mod text;
pub mod transport;
pub mod utf16;
pub mod win32;
