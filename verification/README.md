# cyrus_setup

The decisions behind running the external `cyrus` setup engine and showing its progress, verified
with Verus.

- `src/` is the verified library: the progress model and its event reducer, the guard that keeps a
  stale run from the state of a newer one, the choice of binary and arguments, the decisions of a
  run, and the lines of the progress display. `src/laws.rs` states what holds of them together.
- `app/` is the host side: it spawns the process, reads and parses its output, shares the sign-in
  state between tasks and draws with ratatui.
- `tests/` runs the library on concrete values.

The one thing taken on trust is the shape of a freshly drawn UUID (`src/sign_in.rs`).
