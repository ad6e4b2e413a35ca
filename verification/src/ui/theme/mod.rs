//! Fixed values of the theme: spacing and icons. Colours and styles belong
//! to the terminal front end.

pub mod icons;
pub mod spacing;
