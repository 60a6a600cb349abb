# tlist

The native side of the TList task manager (a Tauri desktop shell), as a
library verified with Verus, and the shell around it.

- `src/validate.rs` — checks on the repository path, file name, ref, remote
  and branch names handed in by the front end.
- `src/git.rs` — the git synchronisation commands: which `git` runs each one
  asks for, in which order, and what it answers from their outputs.
- `src/badge.rs` — the taskbar badge picture: text, font height, pixels, mask.
- `src/text.rs` — the string operations these rest on (trim, lines, words,
  number parsing and printing, UTF-16), stated over `Seq<char>`.
- `app/main.rs` — the Tauri commands: runs `git`, answers the library's
  file-system questions (`repo_probes`, `GitStep::Probe`), reads and writes files,
  draws the badge with GDI, and hands everything else to the library.
