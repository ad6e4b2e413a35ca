//! Spacing values for a consistent layout.

use vstd::prelude::*;

verus! {

/// No margin
pub const NONE: u16 = 0;
/// Small margin (1 unit)
pub const SMALL: u16 = 1;
/// Medium margin (2 units)
pub const MEDIUM: u16 = 2;
/// Large margin (3 units)
pub const LARGE: u16 = 3;
/// Extra large margin (4 units)
pub const XLARGE: u16 = 4;

} // verus!
