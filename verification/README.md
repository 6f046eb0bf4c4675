# wl-copy

A command-line program that copies data to the Wayland clipboard, with its
logic verified by Verus.

* `src/` is the verified library: how the options resolve to the sources to
  copy, which settings they are copied with, and the course of a call of the
  program. It opens no file and talks to no compositor; it asks, and is told.
* `app/` is the program around it: the command line, the file system, the
  clipboard and the fork.
* `tests/` runs the library.

The proofs rest on one assumption about the `wl-clipboard-rs` crate: that its
copy options are a function of the settings that they are built from.
