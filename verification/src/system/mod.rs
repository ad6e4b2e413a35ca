//! The installer's view of the machine it runs on: commands, boot mode,
//! network and hardware facts, decided from what the system reports.

pub mod bootmode;
pub mod command;
pub mod detection;
pub mod network;

pub use bootmode::{BootMode, detect_boot_mode};
pub use command::{CommandExecutor, CommandOutput, MockExecutor, SafeCommand};
pub use detection::{is_nixos, is_root};
pub use network::{NetworkStatus, check_network, check_network_with_timeout};
