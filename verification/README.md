# c3_tui

The verified core of a terminal front end for a todo list, written in Verus.

- `src/keys.rs`: key events, the equality under which two events name the same
  key (case and shift made to agree), and the text that names a key.
- `src/keymap.rs`: key bindings and the manager that holds at most one binding
  per key; adding a binding for a key that is already bound replaces it.
- `src/bindings.rs`: the bindings of normal mode, and the proof that no two of
  them are for the same key.
- `src/tui.rs`: the state of the front end (mode, open prompt and the handlers
  of its text) and how commands and the text field change it; the work on the
  todo list, the text field and the terminal comes back as a list of effects.
- `src/screen.rs`, `src/layout.rs`: the title, the help entries, the areas of
  the screen (split by `ratatui`), the part of the list that is drawn, and the
  text of a rendered note.
- `src/text.rs`: decimal text, number parsing, lower-casing, lines and white
  space, taken from `std`.
- `src/laws.rs`: properties that span several operations.

`app/` holds what runs around the core: reading keys from the terminal,
drawing with `ratatui`, the text field of `tui-textarea`, starting other
programs, and the interface to the todo list itself.
