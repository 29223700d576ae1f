//! Local transport between daemon and clients: unix sockets, or named pipes on windows.
//!
//! Path semantics:
//! * Off windows the path is a filesystem path that becomes the socket file.
//! * On windows the path is mapped to a name under `\\.\pipe\` unless it is one already. The pipe is
//!   a kernel object: there is no file on disk to remove.
pub mod listener;
pub mod names;
pub mod pair;
pub mod prepare;
pub mod settings;
pub mod stream;
pub mod transfer;
