//! Icons used throughout the interface.

use vstd::prelude::*;

verus! {

/// Success checkmark
pub const SUCCESS: &'static str = "✓";
/// Error cross
pub const ERROR: &'static str = "✗";
/// Warning triangle
pub const WARNING: &'static str = "⚠";
/// Info circle
pub const INFO: &'static str = "ℹ";
/// Selection arrow
pub const SELECTION: &'static str = "▶";
/// Checked checkbox
pub const CHECKED: &'static str = "[✓]";
/// Unchecked checkbox
pub const UNCHECKED: &'static str = "[ ]";
/// Bullet point
pub const BULLET: &'static str = "•";
/// Loading spinner frames
pub const SPINNER: [&'static str; 10] = ["⠋", "⠙", "⠹", "⠸", "⠼", "⠴", "⠦", "⠧", "⠇", "⠏"];

} // verus!
