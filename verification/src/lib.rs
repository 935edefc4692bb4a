//! A small modal text-editing engine: a rope-backed text store addressed by
//! line and column, a cursor that stays inside the text under every edit, a
//! viewport that follows the cursor, and the interaction state machine that
//! routes key presses to edits, movements and dialogs.

pub mod action;
pub mod buffer;
pub mod commands;
pub mod cursor;
pub mod document;
pub mod editing;
pub mod file_io;
pub mod input;
pub mod keys;
pub mod layout;
pub mod line_numbers;
pub mod message;
pub mod mode;
pub mod model;
pub mod rope;
pub mod state;
pub mod status_bar;
pub mod string_ext;
pub mod strings;
pub mod text;
pub mod viewport;

pub use action::{Effect, InputAction};
pub use buffer::RopeBuffer;
pub use cursor::CursorPosition;
pub use document::Document;
pub use input::InputHandler;
pub use keys::{KeyCode, KeyInput};
pub use mode::EditorMode;
pub use state::EditorState;
