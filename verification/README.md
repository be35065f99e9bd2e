# operator_cockpit

The core of a provider-free operator cockpit, written in Verus: executable Rust whose behaviour is
stated in `requires` and `ensures` clauses and proved.

The cockpit shows what a serving authority projects: nodes, runs, sessions, approvals, models,
failures and receipts. It attaches observer panes to sessions, claims and releases short exclusive
control leases, and submits typed mutations against exact target revisions. A mutation is sent only
after an explicit confirmation, and one whose outcome is unknown makes the client read-only until
its receipt is known.

## Layout

- `src/` is the verified library. Operations on the cockpit's state are functions from one
  `CockpitModel` to the next. Whatever has to wait for the authority, the platform or the terminal
  is a sequence of steps: a function says what to do next, and another takes over what came of it.
  The modules named `..._laws`, and the public proof functions elsewhere, state what holds of every
  state and every interaction.
- `tests/` runs the library, with a scripted backend in place of an authority.
- `app/` is the program around it: arguments, terminal, clock, files and the platform socket.

## What is trusted

The library calls `ratatui` to share the screen among panels and `serde_json` to write JSON, and
takes three functions of the standard library as documented. Each stands behind one small function
with a stated contract, in `layout.rs`, `json.rs` and `text.rs`.
