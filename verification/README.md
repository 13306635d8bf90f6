# remote_settings

A verified library around the Remote Settings client and the Suggest
database.

- `src/remote_settings.rs`: the client's configuration, its default, and its
  error type.
- `src/rs_client.rs`: the errors of the HTTP client.
- `src/suggest.rs`: suggestion providers and their stored codes, downloaded
  suggestions, and the suggestion type.
- `src/suggest/keyword.rs`: word splitting, trimming and the choice of the full
  keyword shown for a query, each with its specification.
- `src/suggest/db.rs`: the statements of the Suggest database and the data
  access object over an SQLite connection. Every call into SQLite is recorded
  in a ghost log with its statement, the values bound to it and SQLite's
  answer, so the contracts say which statements an operation makes, in which
  order, with which values, and how each answer decides what it returns.
  `write_in_transaction` runs an operation in a transaction and commits only
  when it succeeds.
- `src/suggest/sqlite.rs`: the log and the calls into `rusqlite`, each of
  which appends to the log.
- `src/suggest/interrupt.rs`: interruption of running database work from
  another thread.
- `app/`: opening and locking the database, signalling interruptions, and
  the error types with their messages.
