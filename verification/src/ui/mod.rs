//! The installer's interface: reusable components, the wizard's screens,
//! the page layout and the theme's fixed values.

pub mod components;
pub mod layout;
pub mod screens;
pub mod theme;
pub mod utils;

pub use components::{
    Button, CheckboxList, ConfirmDialog, FilterableSelectList, HelpPanel, InputField, MessageType,
    ProgressBar, SelectList, StatusMessage,
};
pub use layout::{Layout, ThemeColor};
pub use theme::{icons, spacing};
pub use utils::{Key, keycode_to_input_event};
