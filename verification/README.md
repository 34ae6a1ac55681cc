# amr_database

An HTTP/WebSocket service that keeps the pose and state of autonomous mobile
robots in SQLite and stores map files.

- `src/` is the library, with its contracts and proofs: the robot state records and the text
  stored for a state (`models`), the options the database is opened with, the values the repository reads from and binds
  into its statements (`database`), the map-file rules, the replies of the map
  endpoints, the upload steps and the decisions of the pose broadcast loop
  (`api`), and the request errors (`utils`).
- `app/` is the program around it: axum routes, sqlx statements, file I/O, the
  JSON and OpenAPI forms of the records, and the records that hold floating-point
  coordinates.
- `tests/` runs the library on concrete values, among them a comparison of the
  file-name rule with `std::path::Path::file_name` and of the state text with the
  records' `Debug` output.
