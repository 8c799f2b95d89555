# zellit

A terminal editor for Zellij themes: browse the elements of a live Zellij
preview, change their foreground and background colors, and save, load,
rename, delete and apply themes.

The library (`src/`) is verified with Verus:

- `theme` — colors (hex parsing and formatting), theme components, the
  component types and the default theme.
- `state` — the editor state machine: navigation over five groups
  (including the ten multiplayer colors, foreground only), fuzzy field
  search, color editing with yank/paste/undo, the theme loader with its filter and
  search, saving under a normalized name, and the self-update status.
  Operations that need outside work (disk, the update worker) return an
  `Effect` and continue in a `resume_*` method with the result.
- `events` — what each key does in each input mode.
- `layout` — popup placement, list scrolling, clipping and the texts of the
  status bar; terminal colors of theme components.
- `properties` — laws across operations: read-after-write of colors, undo
  and cancel (of the picker and of the loader) giving back the theme, the
  loader listing exactly what matches, normalization being idempotent, and
  the undo history staying bounded.

`app/` is the terminal program around it: the event loop, the outside work
the editor asks for, and drawing with ratatui.
