# daily_server

A small REST API that hands out a daily seed for the roguelike *Bleeding in
the Blur* and keeps a per-day leaderboard. The decisions of the server are a
library verified with Verus (`src/`); the HTTP server, SQLite access, logging
and process control are ordinary Rust around it (`app/`).

## Layout

- `src/text.rs` — decimal text of integers.
- `src/date.rs` — `YYYY-MM-DD` dates: today's UTC date, the epoch date and the
  check applied to dates sent by clients.
- `src/daily_seed.rs` — the daily seed cache as a sequence of steps that the
  caller carries out against the seed store.
- `src/uri.rs` — classification of static-file URIs (path traversal, ignore
  list, missing files) and the page served for each class.
- `src/api.rs` — routing, leaderboard queries and score submissions.
- `src/response.rs` — API responses before JSON encoding.
- `src/config.rs`, `src/database.rs` — configuration defaults and leaderboard rows.

## API

Every body is JSON; every status other than 200 carries `{"error": "..."}`.

- `POST /api/v1/submit` with `{"name", "extra_data", "score", "daily_seed"}`
  answers `{"id": ...}`; a seed that is no longer today's is answered with 409.
- `GET /api/v1/daily-seed` answers `{"seed": ...}`.
- `GET /api/v1/leaderboard?starting_index=0&count=10&date=2026-12-31` answers
  `{"scores": [{"id", "name", "extra_data", "score", "date"}, ...]}`, best
  score first; `count` must lie between 0 and the configured maximum.
