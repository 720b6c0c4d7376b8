# webpage_hit_counter

A web server that counts the hits of web pages and answers each request for
`/webpage_hit_counter/get_svg_image/{webpage_id}.svg` with an SVG badge that
shows the page's count, read from a PostgreSQL table.

- `src/` is the verified library: the badge and the response that carries it
  (`badge`, `decimal`), the reading of a count from the database reply
  (`hit_count`), the pool settings from the environment (`db_settings`), the
  server's address and route (`server`), and the decisions of the project's
  automation tasks (`tasks`).
- `app/main.rs` is the server itself: environment, connection pool, queries and
  HTTP.
- `tests/` runs the library on concrete values.

The project's automation tool (build, release, documentation, commit and
GitHub release tasks, shell completion and its panic report) is not part of
`app/`: it needs a GitHub client module that this source tree does not
include, so only its decisions stand here, in `src/tasks.rs`, and nothing but
the tests calls them.
