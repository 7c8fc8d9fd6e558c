# stap

Incremental parsing of a buffer that keeps growing. A parser runs on the
items received so far; when it needs more it reports `Step::Pending`, the
caller appends items to the buffer and runs it again.

- `src/cursor.rs`: `Cursor` (buffer and index), `CursorRef` and `InputRef`
  (what a parser may touch: the index, not the buffer), and the waits `Read`
  and `ReadAtLeast`.
- `src/parser.rs`: `Step` and the `Parser` trait (`resume`).
- `src/primitives.rs`: `just`, `tag`, `many0`, `many1` and the lemmas on
  matching across a growing buffer.
- `src/input.rs`: `Input`, and the drivers `Parsing` (borrows an `Input`) and
  `ParsingInput` (owns one).
- `src/anchor.rs`: `Anchor`, a saved index to restore when parsing fails.
- `app/lib.rs`: feeding chunks from a `futures` stream into a `ParsingInput`.

Everything under `src/` is verified with Verus; `app/` is plain Rust.
