# daily_standup

The data behind a team's daily stand-up board: members who register and log
in, the tokens handed out at login, and each member's report of work done,
work to do and problems.

- `src/` is the library, verified with Verus: the records (`model`), the
  book of reports (`daily`), the board's state and operations (`server`),
  the decisions on login, registration and tokens (`session`), how a token is
  made (`token`), reading an index from a path (`param`), and the laws that
  hold across operations (`laws`). The calls into `sha2`, `base64` and
  `chrono` stand in `outside`, each with the contract this library relies on.
- `app/` is the web server around it, built on `nickel`: it reads requests,
  converts JSON with `serde`, and hands plain values to the library.
- `tests/` runs the library on concrete values.
