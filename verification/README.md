# dsh_installer

The DSH Community Installer keeps a private Node.js and DSH runtime, runs the
Harness service from it and updates both the installer and DSH.

- `src/` is the verified library, checked with Verus: the data model, the
  private directory layout, the runtime pointer and package checks, pnpm
  progress tracking, npm registry release selection, the update decisions,
  the service supervisor and the installation transaction of a DSH update,
  log retention and the window region. Its contracts state what each
  function returns; laws that relate several functions are public proof
  functions (`lemma_*`).
- `app/` is the Tauri application around it: windows, commands, files,
  processes and network requests. It performs the steps that the library's
  functions and state machines decide; what it decides itself is which
  window to show and when to wait, retry or give up on outside work.
- `tests/` runs the library on concrete values.

Calls into outside crates (`serde_json`, `semver`, `hex`, `sha2` and
`std::path`) stand behind small trusted functions whose contracts say what
the library relies on.
