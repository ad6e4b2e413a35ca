//! Helpers shared by the screens.

pub mod input;

pub use input::{Key, keycode_to_input_event};
