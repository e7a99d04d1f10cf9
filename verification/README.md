# app_installer

The logic of a small Windows program installer, verified with Verus: a
deposit of installable programs with search, the catalogue of shipped
installers, the plan for unpacking the shipped bundle (gzip and tar are read
by flate2 and tar, behind trusted wrappers), the plans for copying
and running installers (each installer's path, kind and unattended command), the per-entry rule for
listing the shared network folder, and the commands that create a local
administrator.

- `src/` — the verified library (one module per concern; `laws.rs` holds the
  properties that relate several operations; `paths.rs` places file names in
  folders as the standard library does).
- `app/` — the program around it, not verified: the file system, the walk of
  the network share, processes and threads.
- `tests/` — tests of the library on concrete values.
