//! The page layout: a header with the wizard's progress, the current screen,
//! and a footer with the keys that apply.

use vstd::prelude::*;

verus! {

/// Heights of the header and the footer; the screen takes what is left.
#[derive(Debug)]
pub struct Layout {
    /// Header height in lines
    pub header_height: u16,
    /// Footer height in lines
    pub footer_height: u16,
}

impl Default for Layout {
    fn default() -> (l: Self)
        ensures
            l.header_height == 3,
            l.footer_height == 3,
    {
        Layout { header_height: 3, footer_height: 3 }
    }
}

impl Layout {
    /// Three lines for the header, three for the footer.
    pub fn new() -> (l: Self)
        ensures
            l.header_height == 3,
            l.footer_height == 3,
    {
        Layout { header_height: 3, footer_height: 3 }
    }
}

/// The colours of the theme, by role.
#[derive(Debug, Clone, Copy, PartialEq, Eq, Structural)]
pub enum ThemeColor {
    /// Accent colour
    Primary,
    /// Success colour
    Success,
    /// Warning colour
    Warning,
    /// Error colour
    Error,
    /// Information colour
    Info,
}

} // verus!
