# latite_launcher

The verified core of the Latite Client launcher for Minecraft Bedrock on
Windows: which Latite DLL to inject and whether it supports the running game,
the launcher's settings, locale resolution and message formatting, the order
of a build download, and what each failure shows.

- `src/` is the library, written in Verus: every function carries a contract
  that Verus proves. Public `lemma_*` proof functions state the properties
  that hold across calls (for example, that at most one injection runs at a
  time, or that a setting reads back as it was written).
- `tests/` runs the library on concrete values.
- `app/` is the Windows application around it: the Tauri window, file,
  network and process access, DLL injection, and the loops that carry out
  the library's decisions.
