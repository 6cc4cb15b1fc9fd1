//! An ordered list of mod upgrade entries, the console dialogue that edits it,
//! and its JSON form.
//!
//! The dialogue is a state machine. A caller reads a line from the console,
//! cleans it with [`read_user_input`], and hands it to [`Session::feed`] (or to
//! [`advance`]); the answer says what to print and what to ask next.

pub mod action;
pub mod console;
pub mod dialogue;
pub mod item;
pub mod json;
pub mod laws;
pub mod listing;
pub mod select;
pub mod session;
pub mod terminal_actions;
pub mod text;

pub use action::{Action, InvalidAction};
pub use console::read_user_input;
pub use dialogue::{Notice, Stage, Step, TerminalAction};
pub use item::{Field, Item};
pub use json::{to_json, SerializeError};
pub use listing::enumerated_lines;
pub use select::{read_item_idx, Selection};
pub use session::Session;
pub use terminal_actions::{
    advance, execute_command, get_terminal_action, AddItemCommand, DeleteItemCommand,
    ModifyItemCommand, QuitCommand, ShowItemsCommand, TerminalCommand,
};
