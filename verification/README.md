# music_player

The verified core of a desktop music player (Tauri + Svelte), written in Verus.

- `src/` — the library. Every function is verified except six trusted
  wrappers whose contracts are taken on trust: `text::push_char`
  (`String::push`), `paths::path_extension`, `path_file_stem`,
  `path_file_name` (std's `Path`), `covers::sha256_digest` (`sha2`) and
  `covers::hex_encode` (`hex`).
  - `playlist` — playlist rows `(track_id, position)`: where appended tracks go,
    how a reorder is written, what a removal leaves; with the laws that the rows,
    read in position order, give back what was written, appended, or left
    (the read itself is SQL in `app/`).
  - `search` — the escaped `LIKE` pattern of a library search.
  - `scanner` — audio file detection, what tags become, scan progress, drops.
  - `covers` — content-hash names of cached cover art (`sha2`, `hex`).
  - `desktop` — tray menu and actions, media keys, close-to-tray, asset scope.
  - `db` — migration steps and the track column list.
  - `models`, `paths`, `text` — shared values, path pieces, character helpers.
- `app/` — the Tauri application: SQLite (`rusqlite`), tag reading (`lofty`),
  folder walking (`walkdir`), events, tray and plugins.
- `tests/` — tests of the library on concrete values.
