# mux

A point-and-click game toolkit, verified with Verus.

- `src/` is the verified library:
  - `gss/`: Graph Style Sheets — the grammar (`grammar`), the parser that
    follows it (`parser`), the lexer binding (`token`), the document model
    (`model`), path lookups that follow references up to a depth limit
    (`lookup`), listings (`dump`), and laws about lookups and parsing (`laws`).
  - `engine`, `state`, `view`: the game engine — conditions, actions and
    triggers, the game state, and snapshots of the current scene.
  - `laws`: what the engine's rules promise across operations.
  - `color`, `ui`, `fields`, `layout`: colors, lengths, strings, booleans and
    alignments read from style sheets.
  - `hud`, `clock`, `demo`, `runner`: tooltips and headers, the clock text,
    the demo game's script hook, and the application runner's per-frame
    decisions.
  - `text`, `number`: character-sequence and integer-literal helpers.
- `app/` is the runtime around it: windows and drawing (raylib), file
  loading and watching (notify), and the floating-point layout of elements.
- `tests/` exercises the library.
