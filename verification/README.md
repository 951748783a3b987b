# chatpack

Converts chat exports from Telegram (JSON), WhatsApp (TXT), Instagram (JSON)
and Discord (JSON, JSON Lines, TXT, CSV) into one message type, filters and
merges the messages, and writes compact CSV, JSON or JSON Lines for language
models and retrieval pipelines.

The library under `src/` is written in Verus: every function carries a
`requires`/`ensures` contract over mathematical models of its data (message
views, character sequences, parser states), and the library's laws (merging
is idempotent, filtering only removes messages, JSON Lines output has one
line per message, the Instagram encoding repair undoes the mis-encoding, ...)
are proof functions. Calls into `chrono`, `regex`, `csv` and `serde_json` go
through small trusted wrappers whose contracts state what those crates
document.

- `src/parsing/`, `src/parsers/`: record rules and whole-export parsers.
- `src/streaming/`: incremental scanners that cut records out of large
  files, and the per-record decisions of the streaming readers.
- `src/processing/`: filters, merging, and the output encodings.
- `app/`: the `chatpack` command, file and stream I/O, serde decoding of the
  raw JSON records, floating-point statistics, the test-data generator.
