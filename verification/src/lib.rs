//! Verified state and decision logic of a small set of GUI components: text
//! positions, the editor's LSP placeholder state, a star rating, a text label,
//! loading buttons, an echoing text input and a colour theme.

pub mod button;
pub mod editor;
pub mod input_echo;
pub mod label;
pub mod loading_button;
pub mod position;
pub mod rating;
pub mod rating_story;
pub mod size;
pub mod text;
pub mod theme;
