# turso_postgres

The PostgreSQL side of a Turso database: what a session makes of the statements
of PostgreSQL clients, and what a server makes of their messages. The library
holds the decisions and is verified with Verus; the engine, the parser, the file
system and the network are outside it.

- `src/parameter.rs`, `src/metadata.rs`: what the bytes of a parameter stand for,
  and which types the parameters of a statement have.
- `src/row.rs`, `src/pgtype.rs`, `src/value.rs`: the columns and the fields of a
  result.
- `src/vector.rs`, `src/hex.rs`, `src/number.rs`, `src/text.rs`: vectors, byte
  strings, numbers and texts.
- `src/statement.rs`, `src/prepare.rs`, `src/schema.rs`, `src/copy.rs`: which
  statements are refused, which the session carries out itself, and how.
- `src/command.rs`, `src/server.rs`, `src/error.rs`: what clients are told.
- `src/laws.rs`: what goes out to a client comes back as the same value: integers,
  OIDs, byte strings, vectors and texts. A boolean comes back as one or zero, and a
  timestamp without a time zone with that of UTC; nothing is claimed of internal
  characters, of floating point numbers, or of integers and byte strings in binary.
- `app/`: the session and the server around the library.

A floating point number is kept as its text or as its bits; `app/` reads and
writes it.
