//! The verified core of a terminal front end for a todo list: key events and
//! their text, the table of key bindings, the prompt state machine and the
//! numbers behind the screen layout.

pub mod bindings;
pub mod keymap;
pub mod keys;
pub mod laws;
pub mod layout;
pub mod screen;
pub mod text;
pub mod tui;
