# remember

The verified core of a small personal focus dashboard (vision, mission,
goals for four time frames, and a list of reminders) and of the HTTP server
that stores them in SQLite.

- `src/model.rs`: the records exchanged as JSON, with their views.
- `src/server.rs`: the statements the server issues for each request, with
  their parameters in binding order, and the responses it builds from what
  the database returns.
- `src/dashboard.rs`: the dashboard's state machine: each user action or
  server reply updates the state and yields the requests to send; what the
  pages show.
- `src/date.rs`, `src/text.rs`: the date line, decimal formatting and
  trimming.
- `app/`: the server (axum, sqlx, tokio) and the page (leptos, gloo-net),
  which run the statements and requests the library decides.
