# herdr

Verified platform decisions of the herdr terminal multiplexer, written in Verus.

- `src/` is the library. It performs no input or output; every function states what it decides, and
  the laws that span several functions are public proof functions beside them.
  - `platform/shell.rs`: default shells, command lines and the agent-restore wrapper
  - `platform/jobs.rs`: job objects, the processes of a session, signals
  - `platform/process.rs`: running processes, foreground jobs, process names
  - `platform/clipboard.rs`, `platform/notification.rs`: clipboard writes and toasts
  - `transport/`: streams, listeners and in-process pairs over named pipes, and the preparation of
    endpoint paths
  - `release_asset.rs`: keys of the release manifest
  - `error.rs`, `text.rs`, `utf16.rs`, `win32.rs`: what the others build on
- `app/` carries the decisions out: environment, file system, sockets, and Win32 calls through
  `windows-sys`.
- `tests/` runs the library. The transport tests carry its steps out on an in-memory host.

Work that alternates with the operating system is a step machine: `advance` takes what came of the
current step and moves to the next one. The laws about a whole run take the answers of the system as
given and say how the run ends.
