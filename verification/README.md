# blive

A recorder for Bilibili live rooms, written as a Verus library with a thin
terminal program around it.

## Layout

- `src/` — the verified library.
  - `settings.rs` — recording choices, room and global settings, merging,
    the settings file's versions, migration and validation.
  - `state.rs` — the watched rooms, the reconnection back-off, and what a
    poll, a reconnection round, a start, a stop or a deletion does.
  - `downloader.rs` — picking the stream, naming and placing the recorded
    file (split into parts when needed), the ffmpeg arguments, and what each
    report of a running download means.
  - `context.rs` — the bookkeeping of one recording and its event queue.
  - `ui.rs`, `tray.rs` — what a room card shows, and the tray's messages.
  - `logger.rs`, `error.rs` — log lines, log manager, error messages.
  - `config.rs` — the configuration file's model and defaults.
  - `api.rs` — the live API's answers and request addresses.
  - `utils.rs`, `text.rs` — byte and duration display, text helpers.
  - `external.rs` — the calls into chrono, leon, rand and std whose
    contracts are trusted.
- `tests/` — tests of the library.
- `app/` — the program: HTTP requests, files, threads, ffmpeg processes,
  the log output, and serde copies of the library's types.
