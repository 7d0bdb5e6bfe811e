# notes_planner_desktop

A local notes and day planner. The rules of the planner are a library verified with
Verus; the desktop shell and the SQLite storage around it are ordinary Rust.

## Layout

- `src/` — the verified library.
  - `civil_date.rs`: planner days as canonical `YYYY-MM-DD` texts, with the calendar
    (next and previous day, leap years) stated as spec functions; chrono computes it.
  - `dto.rs`, `dto/outline.rs`: requests and records, and what validation refuses
    (dates, text lengths, UUID identifiers, sibling keys, local times).
  - `ipc.rs`: the command boundary — a decoded payload is refused or checked.
  - `outline.rs`: how a day's planner lines are listed — depth first, siblings by key
    bytes then identifier bytes — with the order's laws.
  - `storage.rs`, `storage/*`: the decisions of storage — the migration plan, the checks
    before each write, the columns a record is stored in and how a row reads back.
  - `package_self_test.rs`: the fixture of the packaged self-test and its checks.
- `app/` — the desktop program: serde shapes of the payloads, the SQLite database and the
  commands of the window shell, calling the library for every decision.
- `tests/` — tests of the library on concrete values.
