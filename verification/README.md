# zapret-rust

A terminal front end for zapret's `nfqws` on Linux: it picks and runs a
DPI-bypass strategy, sets up the firewall rules that feed nfqws, installs a
service for the host's init system, and searches for working strategies
(autotune).

- `src/` is the library, written in Verus: every function carries a
  `requires`/`ensures` contract that Verus proves, and the laws between
  functions are proof functions (`lemma_*`).
- `tests/` runs the library on concrete values.
- `app/` is the program around it: command-line handling, the terminal
  interface, files, processes, downloads and network probes. It hands the
  library what it read and carries out what the library plans.
