//! Error types of the installer, with the text each one reads as, the
//! message shown to the user and, for some, a suggested remedy.

use vstd::prelude::*;
use vstd::string::*;
use crate::text::{decimal, signed_decimal, u64_to_decimal, i32_to_decimal, cat, cat3};

verus! {

/// Errors of the installer.
#[derive(Debug)]
pub enum InstallerError {
    /// A disk operation failed
    Disk(DiskError),
    /// A partition operation failed
    Partition(PartitionError),
    /// A file system operation failed
    Filesystem(FilesystemError),
    /// The configuration could not be handled
    Config(ConfigError),
    /// A system command failed
    Command(CommandError),
    /// The interface failed
    Ui(String),
    /// Input or output failed; holds the system's description of the failure
    Io(String),
    /// Anything else
    Other(String),
}

/// Errors of disk detection and management.
#[derive(Debug)]
pub enum DiskError {
    /// The disk was not found
    NotFound(String),
    /// Disks could not be listed
    DetectionFailed(String),
    /// Disk information could not be read
    ParseError(String),
    /// The disk is in use
    DiskBusy(String),
    /// The disk is too small
    InsufficientSpace {
        /// Available space in bytes
        available: u64,
        /// Required space in bytes
        required: u64,
    },
}

/// Errors of partitioning.
#[derive(Debug)]
pub enum PartitionError {
    /// The partition table could not be created
    CreateTableFailed {
        /// Device path
        device: String,
        /// Why
        reason: String,
    },
    /// A partition could not be created
    CreateFailed(String),
    /// The layout is not valid
    InvalidLayout(String),
    /// The partition was not found
    NotFound(String),
}

/// Errors of file system operations.
#[derive(Debug)]
pub enum FilesystemError {
    /// A partition could not be formatted
    FormatFailed {
        /// Partition path
        partition: String,
        /// File system type
        fstype: String,
        /// Why
        reason: String,
    },
    /// A device could not be mounted
    MountFailed {
        /// Device path
        device: String,
        /// Mount point
        mountpoint: String,
        /// Why
        reason: String,
    },
    /// A device could not be unmounted (device, reason)
    UnmountFailed(String, String),
    /// The file system type is not supported
    UnsupportedFilesystem(String),
}

/// Errors of the NixOS configuration.
#[derive(Debug)]
pub enum ConfigError {
    /// The configuration could not be generated
    GenerationFailed(String),
    /// The configuration is not valid
    ValidationFailed(String),
    /// The configuration could not be written
    WriteFailed {
        /// File path
        path: String,
        /// Why
        reason: String,
    },
    /// The configuration could not be read
    ReadFailed {
        /// File path
        path: String,
        /// Why
        reason: String,
    },
}

/// Errors of command execution.
#[derive(Debug)]
pub enum CommandError {
    /// The command ran and failed
    ExecutionFailed {
        /// Command name
        command: String,
        /// Exit code
        code: i32,
        /// Its error output
        stderr: String,
    },
    /// The command does not exist
    NotFound(String),
    /// The command took too long
    Timeout {
        /// Command name
        command: String,
        /// Time limit in seconds
        timeout: u64,
    },
    /// The arguments were not valid
    InvalidArguments(String),
}

/// How a disk error reads.
pub open spec fn disk_error_text(e: DiskError) -> Seq<char> {
    match e {
        DiskError::NotFound(d) => "Disk '"@ + d@ + "' not found"@,
        DiskError::DetectionFailed(m) => "Failed to detect disks: "@ + m@,
        DiskError::ParseError(m) => "Failed to parse disk information: "@ + m@,
        DiskError::DiskBusy(d) => "Disk '"@ + d@ + "' is currently in use"@,
        DiskError::InsufficientSpace { available, required } =>
            "Insufficient disk space: "@ + decimal(available as nat) + " available, "@ + decimal(required as nat) + " required"@,
    }
}

/// How a partition error reads.
pub open spec fn partition_error_text(e: PartitionError) -> Seq<char> {
    match e {
        PartitionError::CreateTableFailed { device, reason } =>
            "Failed to create partition table on '"@ + device@ + "': "@ + reason@,
        PartitionError::CreateFailed(m) => "Failed to create partition: "@ + m@,
        PartitionError::InvalidLayout(m) => "Invalid partition layout: "@ + m@,
        PartitionError::NotFound(p) => "Partition '"@ + p@ + "' not found"@,
    }
}

/// How a file system error reads.
pub open spec fn filesystem_error_text(e: FilesystemError) -> Seq<char> {
    match e {
        FilesystemError::FormatFailed { partition, fstype, reason } =>
            "Failed to format partition '"@ + partition@ + "' as "@ + fstype@ + ": "@ + reason@,
        FilesystemError::MountFailed { device, mountpoint, reason } =>
            "Failed to mount '"@ + device@ + "' at '"@ + mountpoint@ + "': "@ + reason@,
        FilesystemError::UnmountFailed(d, r) => "Failed to unmount '"@ + d@ + "': "@ + r@,
        FilesystemError::UnsupportedFilesystem(t) => "Unsupported filesystem type: "@ + t@,
    }
}

/// How a configuration error reads.
pub open spec fn config_error_text(e: ConfigError) -> Seq<char> {
    match e {
        ConfigError::GenerationFailed(m) => "Configuration generation failed: "@ + m@,
        ConfigError::ValidationFailed(m) => "Invalid configuration: "@ + m@,
        ConfigError::WriteFailed { path, reason } =>
            "Failed to write configuration to '"@ + path@ + "': "@ + reason@,
        ConfigError::ReadFailed { path, reason } =>
            "Failed to read configuration from '"@ + path@ + "': "@ + reason@,
    }
}

/// How a command error reads.
pub open spec fn command_error_text(e: CommandError) -> Seq<char> {
    match e {
        CommandError::ExecutionFailed { command, code, stderr } =>
            "Command '"@ + command@ + "' failed with exit code "@ + signed_decimal(code as int) + ": "@ + stderr@,
        CommandError::NotFound(c) => "Command '"@ + c@ + "' not found"@,
        CommandError::Timeout { command, timeout } =>
            "Command '"@ + command@ + "' timed out after "@ + decimal(timeout as nat) + "s"@,
        CommandError::InvalidArguments(m) => "Invalid command arguments: "@ + m@,
    }
}

/// How an installer error reads.
pub open spec fn installer_error_text(e: InstallerError) -> Seq<char> {
    match e {
        InstallerError::Disk(d) => "Disk error: "@ + disk_error_text(d),
        InstallerError::Partition(p) => "Partition error: "@ + partition_error_text(p),
        InstallerError::Filesystem(f) => "Filesystem error: "@ + filesystem_error_text(f),
        InstallerError::Config(c) => "Configuration error: "@ + config_error_text(c),
        InstallerError::Command(c) => "Command execution error: "@ + command_error_text(c),
        InstallerError::Ui(m) => "UI error: "@ + m@,
        InstallerError::Io(m) => "IO error: "@ + m@,
        InstallerError::Other(m) => m@,
    }
}

/// The message the user is shown for an error.
pub open spec fn user_message_text(e: InstallerError) -> Seq<char> {
    match e {
        InstallerError::Disk(d) => "Disk operation failed: "@ + disk_error_text(d),
        InstallerError::Partition(p) => "Partitioning failed: "@ + partition_error_text(p),
        InstallerError::Filesystem(f) => "Filesystem operation failed: "@ + filesystem_error_text(f),
        InstallerError::Config(c) => "Configuration error: "@ + config_error_text(c),
        InstallerError::Command(c) => "System command failed: "@ + command_error_text(c),
        InstallerError::Ui(m) => m@,
        InstallerError::Io(m) => "I/O error: "@ + m@,
        InstallerError::Other(m) => m@,
    }
}

/// The remedy suggested for an error, when there is one.
pub open spec fn suggestion_text(e: InstallerError) -> Option<Seq<char>> {
    match e {
        InstallerError::Disk(DiskError::NotFound(d)) => Some(
            "Please check that disk '"@ + d@
                + "' is connected and detected by the system. Run 'lsblk' to see available disks."@,
        ),
        InstallerError::Disk(DiskError::DiskBusy(_)) => Some(
            "The disk may be mounted or in use. Try unmounting all partitions first."@,
        ),
        InstallerError::Disk(DiskError::InsufficientSpace { .. }) => Some(
            "Please select a disk with more available space or reduce the swap size."@,
        ),
        InstallerError::Command(CommandError::NotFound(c)) => Some(
            "The command '"@ + c@ + "' is not available. Make sure you're running from NixOS installation media."@,
        ),
        InstallerError::Filesystem(FilesystemError::MountFailed { .. }) => Some(
            "Ensure the filesystem was created successfully and the mount point exists."@,
        ),
        _ => None,
    }
}

impl DiskError {
    /// How the error reads.
    pub fn to_string(&self) -> (r: String)
        ensures
            r@ == disk_error_text(*self),
    {
        match self {
            DiskError::NotFound(d) => cat3("Disk '", d.as_str(), "' not found"),
            DiskError::DetectionFailed(m) => cat("Failed to detect disks: ", m.as_str()),
            DiskError::ParseError(m) => cat("Failed to parse disk information: ", m.as_str()),
            DiskError::DiskBusy(d) => cat3("Disk '", d.as_str(), "' is currently in use"),
            DiskError::InsufficientSpace { available, required } => {
                let a = u64_to_decimal(*available);
                let q = u64_to_decimal(*required);
                cat3("Insufficient disk space: ", a.as_str(), " available, ").concat(q.as_str()).concat(" required")
            },
        }
    }
}

impl PartitionError {
    /// How the error reads.
    pub fn to_string(&self) -> (r: String)
        ensures
            r@ == partition_error_text(*self),
    {
        match self {
            PartitionError::CreateTableFailed { device, reason } =>
                cat3("Failed to create partition table on '", device.as_str(), "': ").concat(reason.as_str()),
            PartitionError::CreateFailed(m) => cat("Failed to create partition: ", m.as_str()),
            PartitionError::InvalidLayout(m) => cat("Invalid partition layout: ", m.as_str()),
            PartitionError::NotFound(p) => cat3("Partition '", p.as_str(), "' not found"),
        }
    }
}

impl FilesystemError {
    /// How the error reads.
    pub fn to_string(&self) -> (r: String)
        ensures
            r@ == filesystem_error_text(*self),
    {
        match self {
            FilesystemError::FormatFailed { partition, fstype, reason } =>
                cat3("Failed to format partition '", partition.as_str(), "' as ").concat(fstype.as_str()).concat(": ").concat(reason.as_str()),
            FilesystemError::MountFailed { device, mountpoint, reason } =>
                cat3("Failed to mount '", device.as_str(), "' at '").concat(mountpoint.as_str()).concat("': ").concat(reason.as_str()),
            FilesystemError::UnmountFailed(d, r) => cat3("Failed to unmount '", d.as_str(), "': ").concat(r.as_str()),
            FilesystemError::UnsupportedFilesystem(t) => cat("Unsupported filesystem type: ", t.as_str()),
        }
    }
}

impl ConfigError {
    /// How the error reads.
    pub fn to_string(&self) -> (r: String)
        ensures
            r@ == config_error_text(*self),
    {
        match self {
            ConfigError::GenerationFailed(m) => cat("Configuration generation failed: ", m.as_str()),
            ConfigError::ValidationFailed(m) => cat("Invalid configuration: ", m.as_str()),
            ConfigError::WriteFailed { path, reason } =>
                cat3("Failed to write configuration to '", path.as_str(), "': ").concat(reason.as_str()),
            ConfigError::ReadFailed { path, reason } =>
                cat3("Failed to read configuration from '", path.as_str(), "': ").concat(reason.as_str()),
        }
    }
}

impl CommandError {
    /// How the error reads.
    pub fn to_string(&self) -> (r: String)
        ensures
            r@ == command_error_text(*self),
    {
        match self {
            CommandError::ExecutionFailed { command, code, stderr } => {
                let c = i32_to_decimal(*code);
                cat3("Command '", command.as_str(), "' failed with exit code ").concat(c.as_str()).concat(": ").concat(stderr.as_str())
            },
            CommandError::NotFound(c) => cat3("Command '", c.as_str(), "' not found"),
            CommandError::Timeout { command, timeout } => {
                let t = u64_to_decimal(*timeout);
                cat3("Command '", command.as_str(), "' timed out after ").concat(t.as_str()).concat("s")
            },
            CommandError::InvalidArguments(m) => cat("Invalid command arguments: ", m.as_str()),
        }
    }
}

impl InstallerError {
    /// An interface error.
    pub fn ui(msg: &str) -> (e: Self)
        ensures
            e matches InstallerError::Ui(m) && m@ == msg@,
    {
        InstallerError::Ui(String::from_str(msg))
    }

    /// Any other error.
    pub fn other(msg: &str) -> (e: Self)
        ensures
            e matches InstallerError::Other(m) && m@ == msg@,
    {
        InstallerError::Other(String::from_str(msg))
    }

    /// Whether the installer can carry on after this error: command,
    /// input/output and other errors are recoverable, the rest are not.
    pub fn is_recoverable(&self) -> (r: bool)
        ensures
            r == (self is Command || self is Io || self is Other),
    {
        match self {
            InstallerError::Command(_) | InstallerError::Io(_) | InstallerError::Other(_) => true,
            _ => false,
        }
    }

    /// How the error reads.
    pub fn to_string(&self) -> (r: String)
        ensures
            r@ == installer_error_text(*self),
    {
        match self {
            InstallerError::Disk(d) => cat("Disk error: ", d.to_string().as_str()),
            InstallerError::Partition(p) => cat("Partition error: ", p.to_string().as_str()),
            InstallerError::Filesystem(f) => cat("Filesystem error: ", f.to_string().as_str()),
            InstallerError::Config(c) => cat("Configuration error: ", c.to_string().as_str()),
            InstallerError::Command(c) => cat("Command execution error: ", c.to_string().as_str()),
            InstallerError::Ui(m) => cat("UI error: ", m.as_str()),
            InstallerError::Io(m) => cat("IO error: ", m.as_str()),
            InstallerError::Other(m) => m.clone(),
        }
    }

    /// The message shown to the user.
    pub fn user_message(&self) -> (r: String)
        ensures
            r@ == user_message_text(*self),
    {
        match self {
            InstallerError::Disk(d) => cat("Disk operation failed: ", d.to_string().as_str()),
            InstallerError::Partition(p) => cat("Partitioning failed: ", p.to_string().as_str()),
            InstallerError::Filesystem(f) => cat("Filesystem operation failed: ", f.to_string().as_str()),
            InstallerError::Config(c) => cat("Configuration error: ", c.to_string().as_str()),
            InstallerError::Command(c) => cat("System command failed: ", c.to_string().as_str()),
            InstallerError::Ui(m) => m.clone(),
            InstallerError::Io(m) => cat("I/O error: ", m.as_str()),
            InstallerError::Other(m) => m.clone(),
        }
    }

    /// The remedy suggested to the user, when there is one.
    pub fn suggestion(&self) -> (r: Option<String>)
        ensures
            match r {
                Some(s) => suggestion_text(*self) == Some(s@),
                None => suggestion_text(*self) is None,
            },
    {
        match self {
            InstallerError::Disk(DiskError::NotFound(d)) => Some(cat3(
                "Please check that disk '",
                d.as_str(),
                "' is connected and detected by the system. Run 'lsblk' to see available disks.",
            )),
            InstallerError::Disk(DiskError::DiskBusy(_)) => Some(String::from_str(
                "The disk may be mounted or in use. Try unmounting all partitions first.",
            )),
            InstallerError::Disk(DiskError::InsufficientSpace { .. }) => Some(String::from_str(
                "Please select a disk with more available space or reduce the swap size.",
            )),
            InstallerError::Command(CommandError::NotFound(c)) => Some(cat3(
                "The command '",
                c.as_str(),
                "' is not available. Make sure you're running from NixOS installation media.",
            )),
            InstallerError::Filesystem(FilesystemError::MountFailed { .. }) => Some(String::from_str(
                "Ensure the filesystem was created successfully and the mount point exists.",
            )),
            _ => None,
        }
    }
}

impl From<DiskError> for InstallerError {
    fn from(e: DiskError) -> (r: Self) {
        InstallerError::Disk(e)
    }
}

impl vstd::std_specs::convert::FromSpecImpl<DiskError> for InstallerError {
    open spec fn obeys_from_spec() -> bool {
        true
    }

    open spec fn from_spec(e: DiskError) -> InstallerError {
        InstallerError::Disk(e)
    }
}

impl From<PartitionError> for InstallerError {
    fn from(e: PartitionError) -> (r: Self) {
        InstallerError::Partition(e)
    }
}

impl vstd::std_specs::convert::FromSpecImpl<PartitionError> for InstallerError {
    open spec fn obeys_from_spec() -> bool {
        true
    }

    open spec fn from_spec(e: PartitionError) -> InstallerError {
        InstallerError::Partition(e)
    }
}

impl From<FilesystemError> for InstallerError {
    fn from(e: FilesystemError) -> (r: Self) {
        InstallerError::Filesystem(e)
    }
}

impl vstd::std_specs::convert::FromSpecImpl<FilesystemError> for InstallerError {
    open spec fn obeys_from_spec() -> bool {
        true
    }

    open spec fn from_spec(e: FilesystemError) -> InstallerError {
        InstallerError::Filesystem(e)
    }
}

impl From<ConfigError> for InstallerError {
    fn from(e: ConfigError) -> (r: Self) {
        InstallerError::Config(e)
    }
}

impl vstd::std_specs::convert::FromSpecImpl<ConfigError> for InstallerError {
    open spec fn obeys_from_spec() -> bool {
        true
    }

    open spec fn from_spec(e: ConfigError) -> InstallerError {
        InstallerError::Config(e)
    }
}

impl From<CommandError> for InstallerError {
    fn from(e: CommandError) -> (r: Self) {
        InstallerError::Command(e)
    }
}

impl vstd::std_specs::convert::FromSpecImpl<CommandError> for InstallerError {
    open spec fn obeys_from_spec() -> bool {
        true
    }

    open spec fn from_spec(e: CommandError) -> InstallerError {
        InstallerError::Command(e)
    }
}

} // verus!
