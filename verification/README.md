# anki (sync client core)

Verified core of the Anki sync client, written in Verus.

- `src/` — the library, verified by Verus (the clock readings and the calls
  into outside crates are trusted items, each with its contract stated):
  - `ankiweb` — AnkiWeb service addresses.
  - `interface` — rendering of the `{Name}Service` traits from protobuf
    service descriptions, and their formatting through `syn`/`prettyplease`.
  - `upload` — the payload-size check (with its message in megabytes), the
    server's verdict on a full upload.
  - `response` — sync replies as bytes; decoding the upload reply.
  - `status` — offline and online sync-status decisions, and the cache that
    keeps repeated checks off the network.
  - `login` — credentials, server-address validation through `url`, and the
    login bookkeeping.
  - `gzip`, `media` — gzip payloads (`flate2`) and the media upload zip
    archive (`zip`, `serde_json`).
  - `progress`, `request` — transfer progress and the sync request header.
  - `text`, `error` — character-level text operations and the error type.
- `app/` — HTTP requests (`reqwest`), serde wire forms, zstd body streams,
  the timers that report progress, and writing the generated interface file.
- `tests/` — tests of the library on concrete values.
