//! Whether the machine started through UEFI or a legacy BIOS.

use vstd::prelude::*;
use crate::error::InstallerError;

verus! {

/// How the machine started.
#[derive(Debug, Clone, Copy, PartialEq, Eq, Structural)]
pub enum BootMode {
    /// UEFI boot (modern)
    Uefi,
    /// Legacy BIOS boot
    Bios,
    /// Could not be told
    Unknown,
}

/// The name shown for a boot mode.
pub open spec fn boot_mode_name(m: BootMode) -> Seq<char> {
    match m {
        BootMode::Uefi => "UEFI"@,
        BootMode::Bios => "Legacy BIOS"@,
        BootMode::Unknown => "Unknown"@,
    }
}

/// The description shown for a boot mode.
pub open spec fn boot_mode_description(m: BootMode) -> Seq<char> {
    match m {
        BootMode::Uefi => "Modern boot mode with GPT partition table support and Secure Boot"@,
        BootMode::Bios => "Legacy boot mode with MBR partition tables (2TB disk limit)"@,
        BootMode::Unknown => "Unable to determine boot mode"@,
    }
}

impl BootMode {
    /// The name shown for the mode.
    pub fn as_str(&self) -> (r: &'static str)
        ensures
            r@ == boot_mode_name(*self),
    {
        match self {
            BootMode::Uefi => "UEFI",
            BootMode::Bios => "Legacy BIOS",
            BootMode::Unknown => "Unknown",
        }
    }

    /// What the mode means for the installation.
    pub fn description(&self) -> (r: &'static str)
        ensures
            r@ == boot_mode_description(*self),
    {
        match self {
            BootMode::Uefi => "Modern boot mode with GPT partition table support and Secure Boot",
            BootMode::Bios => "Legacy boot mode with MBR partition tables (2TB disk limit)",
            BootMode::Unknown => "Unable to determine boot mode",
        }
    }

    /// Whether the machine started through UEFI.
    pub fn is_uefi(&self) -> (r: bool)
        ensures
            r == (*self == BootMode::Uefi),
    {
        match self {
            BootMode::Uefi => true,
            _ => false,
        }
    }

    /// Whether the machine started through a legacy BIOS.
    pub fn is_bios(&self) -> (r: bool)
        ensures
            r == (*self == BootMode::Bios),
    {
        match self {
            BootMode::Bios => true,
            _ => false,
        }
    }
}

/// The boot mode: UEFI in a simulation, else UEFI exactly when the firmware
/// exposes its EFI directory (`/sys/firmware/efi`), BIOS otherwise.
pub fn detect_boot_mode(mock: bool, efi_directory_exists: bool) -> (r: Result<BootMode, InstallerError>)
    ensures
        r matches Ok(m) && m == (if mock || efi_directory_exists { BootMode::Uefi } else { BootMode::Bios }),
{
    if mock || efi_directory_exists {
        Ok(BootMode::Uefi)
    } else {
        Ok(BootMode::Bios)
    }
}

} // verus!
