# build_cleaner

Finds build artifacts (`node_modules`, `target`, `build`, ...) of projects in
many ecosystems, and user-level caches (package managers, AI model caches,
IDE caches), and decides what is listed, kept, ordered and deleted.

Layout:

- `src/` — the verified library. Its contracts state which directories the
  walk enters, when a directory is a project (marker file *and* artifacts),
  which projects and caches pass the filters and in what order they are
  reported, the terms of the cleanup-priority score and the stable order by
  that score, the summary breakdowns, the text of the reviewable cleanup
  script, and when a run may delete anything. `src/sys.rs` holds the calls into std and outside
  crates whose contracts are trusted.
- `app/` — the program around it: argument parsing, walking the file system,
  prompts, printing, deleting, writing the script file, the web dashboard,
  and the two computations done in floating point (reading a size such as
  "1.5GB", and the cleanup-priority score).
- `tests/` — tests of the library.
