//! NixOS-specific work: which disks can take the system, and the
//! installation's progress from first step to last.

pub mod disk;
pub mod install;

pub use disk::{Disk, DiskType, PartitionInfo};

