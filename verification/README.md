# salon_core

The business rules of a beauty-salon back office, written in Verus and
proved against their contracts: appointment status flow and booking
collisions, package use, cancellation and refunds, payroll day counts,
login sessions and account administration.

- `src/` is the verified library. Time values go through `chrono`, whose
  calls stand behind a few trusted wrappers in `src/time.rs` and
  `src/payroll.rs`.
- `tests/` runs the library on concrete cases.
- `app/` is the desktop application around it: SQLite storage, the Tauri
  commands, password hashing and every money amount, which the application
  keeps as floating point.
