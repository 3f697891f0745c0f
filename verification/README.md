# VRChat photo manager core

A Windows desktop photo manager for VRChat (local albums, Steam screenshots, VRChat
gallery and prints, friends from VRChat and VRCX). This crate holds its rules, verified
with Verus; `app/` is the Tauri program around them (SQLite, HTTP, file system, watchers).

`src/`:

- `text` — decimal formatting and parsing (as `i64::to_string` / `str::parse`), substring
  and whitespace tests, `trim_end_matches`.
- `paths` — paths as `std::path` components: file name, parent, join, ancestors.
- `photos` — photo files, folder owners (`usr_...`), Steam install root and screenshot
  folders, scan and watch targets, the watch registry, stale and missing rows, thumbnails.
- `db` — the records, reading and saving settings (read-back law), the photo query,
  missing columns, photo assignments.
- `sync` — progress, local scan results, the VRChat steps of a sync, final message and
  success.
- `cloud` — the VRChat part of a sync as a state machine: friends, gallery and prints,
  then profiles in batches of five; `app/` performs each action and hands back the event.
- `vrchat` — API records, login cookies, player refresh, paged gallery and print fetch,
  gallery rows, friend marks.
- `vrcx` — locating the VRCX database and its friend-log tables.
- `status` — the sync status shown to the user, last sync, automatic sync interval.
