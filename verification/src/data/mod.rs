//! The choices offered to the user: time zones, keymaps and locales.

pub mod keymaps;
pub mod locales;
pub mod timezones;

pub use keymaps::get_keymap_list;
pub use locales::get_locale_list;
pub use timezones::{detect_timezone, get_timezone_list};
