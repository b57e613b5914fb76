# windows_tty

The decisions behind a terminal's tty on Windows, written and verified in Verus.

- `src/command_line.rs` builds the command line that starts the child; `src/parsing.rs`
  describes how a child takes it apart, and proves that an escaped command line is read back
  as the program and the arguments that it was made from.
- `src/wide.rs` converts strings for the system's wide-character functions.
- `src/registration.rs` keeps track of who is to be told when a pipe becomes ready, and
  `src/event.rs` of what they are told.
- `src/blocking.rs` holds the terminal's ends of the two pipes to the pseudo console, and
  what the worker threads at the other ends do next.
- `src/pipe.rs` states what is relied on of the `piper` crate.
- `src/pty.rs` puts a tty together.

`app/` holds what surrounds this: threads, locks, the poller and the pseudo console.
