//! The application's state and the wizard that drives its screens.

pub mod state;
pub mod wizard;

pub use state::{App, AppMode, Screen};
pub use wizard::{EnterEffect, Wizard};
