# poe_indexer

An indexer for the public stash tabs of Path of Exile. It reads the pages of
the public stash tab service and turns each stash tab and item into a record
with its kind, price, sockets, properties, modifiers and resistance and life
totals, ready to be stored in PostgreSQL.

- `src/` is the library, verified with Verus: every parser states in its
  contract the record it returns, over spec functions in the same module.
  Regular expressions go through the `regex` crate (`src/pattern.rs`); what a
  search finds is named there, not restated. `src/laws.rs` proves what holds
  of the parsers as a whole.
- `tests/` runs the library on concrete pages, items and modifier lines.
- `app/` is the program: the downloader, the JSON reader, the logger and the
  database writer, each in a thread, around the library's parser.
