//! A guided installer for NixOS: the wizard's state, its forms and their
//! validation, the components' keyboard behaviour, and the rules that decide
//! what the installer does next.

pub mod text;
pub mod app;
pub mod config;
pub mod data;
pub mod error;
pub mod nixos;
pub mod system;
pub mod ui;

pub use error::InstallerError;

use vstd::prelude::*;

verus! {

/// Results of the installer's operations.
pub type Result<T> = core::result::Result<T, InstallerError>;

/// The installer's version.
pub const VERSION: &'static str = "0.1.0";

/// The installer's name.
pub const APP_NAME: &'static str = "ekaos-install";

} // verus!
