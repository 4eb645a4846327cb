# chat

The verified core of a multi-user chat service (a REST service and a
notification service over server-sent events).

- `src/` is the library, checked by Verus: file naming and storage layout
  (`file`), chat and message rules (`chat`, `messages`), registration and
  sign-in (`user`), tokens (`jwt`), request authentication and request ids
  (`middleware`), notification routing (`models`), errors and their HTTP
  statuses (`error`), settings (`config`), small handler decisions
  (`handlers`), and the text helpers they share (`text`).
- `app/` is the program around it: HTTP routing with axum, the PostgreSQL
  queries, the file system, and the event stream. It carries out the steps
  that the library's step functions ask for.
- `tests/` runs the library on concrete values.
