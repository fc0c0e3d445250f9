# niri-master-layout

A helper for the niri compositor that toggles a master/stack layout on the
focused workspace: the focused window becomes the master column at 60% of the
width and up to three windows are stacked to its right at 40%. The next run
restores the layout saved before (and removes the saved state); when that
fails, the stale state is removed and the master layout is applied afresh.
`grow-master` and `shrink-master` move the split by 10% steps.

Layout:

- `src/` — the verified library (Verus). Every decision of a run lives in
  `session::Session`, a state machine from reply to request; the modules
  beside it hold the layout rules (`stack`, `restore`, `resize`), the saved
  state (`state`), argument parsing (`cli`), and `laws`, the properties that
  hold across calls.
- `app/` — the program: it talks to niri over its socket, reads and writes
  the state file as JSON, and feeds the replies to the session.
- `tests/` — tests of the library on concrete values.
