# shy-notes

A floating note widget that moves out of the pointer's way unless the pointer
aims at it, in which case the note is captured for editing.

- `src/` is the verified library (Verus):
  - `interaction`: the interaction state machine (`InteractionCore`). The host
    measures each pointer sample and hands over yes/no facts
    (`PointerReading`); the machine answers with signals and whether to repel.
  - `interaction_laws`: properties of the machine over steps and sessions
    (pinned and dragged widgets never move, capture hysteresis, hint timing, …).
  - `text`: Unicode white space, trimming and collapsing.
  - `color`: `#rgb`/`#rrggbb` parsing and contrasting ink/paper colours.
  - `notes`, `notes_laws`: note metadata, labels, and the notebook that keeps
    an active note.
  - `permissions`: platforms without an Accessibility permission.
- `tests/` exercises the library.
- `app/` is the desktop host: floating-point geometry around the state
  machine, persistence to JSON, pointer sampling and the Tauri shell.
