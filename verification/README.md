# jigolo

A terminal browser for project context files. This crate holds its core:

- `compose`: composing a file from library snippets, in selection order.
- `config`: where the user configuration lives and what reading it amounts to.
- `tui::theme`: the dark and light colour palettes and switching between them.
- `tui::app`, `tui::compose`: the application state and the Compose screen
  (snippet list, live preview beside it, `Tab` to move the focus between them),
  as a state machine from key presses to new states and to the outside work
  (loading the library, writing an export) that the program performs.
- `text`: decimal numbers, whitespace trimming and line counting.

Every function there carries a contract that is proved. `app/` is the program
around it: terminal set-up, drawing with ratatui, reading the TOML files and
writing exports.
