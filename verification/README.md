# log_service

A log collection service. Clients post log records over HTTP; the records are
published to subscribers that store them in SQLite; a rotate request archives
the store as LZ4-compressed, base64-encoded text and starts it afresh.

- `src/` is the verified library: settings parsing (`config`), request routing
  (`router`), receiving posted records (`ingest`), the record bus and the queue
  of unstored records (`events`), the rotation state machine (`rotation`), the
  archive encodings (`encoding`), record queries (`query`), replies (`reply`),
  the logging layers (`middleware`), time texts (`clock`) and text helpers
  (`text`).
- `app/` is the program around it: environment, network, database and files.
- `tests/` runs the library on concrete values.
