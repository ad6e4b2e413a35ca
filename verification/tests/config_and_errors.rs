use ekaos_install::config::{BootLoader, InstallConfig};
use ekaos_install::error::{CommandError, ConfigError, DiskError, FilesystemError, InstallerError, PartitionError};

#[test]
fn test_default_config() {
    let config = InstallConfig::default();
    assert_eq!(config.hostname, "nixos");
    assert_eq!(config.timezone, "America/New_York");
    assert_eq!(config.locale, "en_US.UTF-8");
    assert!(config.network_manager);
    assert_eq!(config.disk_path, "");
    assert_eq!(config.disk_size, 0);
    assert_eq!(config.swap_size_gb, 8);
    assert_eq!(config.root_filesystem, "ext4");
}

#[test]
fn test_bootloader_display() {
    assert_eq!(BootLoader::SystemdBoot.as_str(), "systemd-boot");
    assert_eq!(BootLoader::Grub.as_str(), "GRUB");
}

#[test]
fn test_valid_config() {
    let mut config = InstallConfig::default();
    config.user.username = "testuser".to_string();
    config.user.password = "password123".to_string();
    assert!(config.validate().is_ok());
}

#[test]
fn test_invalid_hostname() {
    let mut config = InstallConfig::default();
    config.user.username = "test".to_string();
    config.user.password = "password".to_string();

    config.hostname = "".to_string();
    assert!(config.validate().is_err());

    config.hostname = "invalid name".to_string();
    assert!(config.validate().is_err());
}

#[test]
fn test_invalid_username() {
    let mut config = InstallConfig::default();
    config.user.password = "password".to_string();

    config.user.username = "".to_string();
    assert!(config.validate().is_err());

    config.user.username = "InvalidUser".to_string();
    assert!(config.validate().is_err());

    config.user.username = "user@name".to_string();
    assert!(config.validate().is_err());
}

#[test]
fn test_invalid_password() {
    let mut config = InstallConfig::default();
    config.user.username = "testuser".to_string();

    config.user.password = "".to_string();
    assert!(config.validate().is_err());

    config.user.password = "short".to_string();
    assert!(config.validate().is_err());
}

#[test]
fn validation_reports_the_first_rule_broken() {
    let mut config = InstallConfig::default();
    config.hostname = "".to_string();
    assert_eq!(config.validate(), Err("Hostname cannot be empty".to_string()));
    config.hostname = "my host".to_string();
    assert_eq!(config.validate(), Err("Hostname must contain only letters, numbers, and hyphens".to_string()));
    config.hostname = "my-host".to_string();
    assert_eq!(config.validate(), Err("Username cannot be empty".to_string()));
    config.user.username = "Bob".to_string();
    assert_eq!(
        config.validate(),
        Err("Username must contain only lowercase letters, numbers, and underscores".to_string())
    );
    config.user.username = "1user".to_string();
    assert_eq!(config.validate(), Err("Username must start with a lowercase letter".to_string()));
    config.user.username = "_user".to_string();
    assert_eq!(config.validate(), Err("Username must start with a lowercase letter".to_string()));
    config.user.username = "a".repeat(33);
    assert_eq!(config.validate(), Err("Username must be 32 characters or less".to_string()));
    config.user.username = "a".repeat(32);
    assert_eq!(config.validate(), Err("Password cannot be empty".to_string()));
    config.user.password = "abc1234".to_string();
    assert_eq!(config.validate(), Err("Password must be at least 8 characters".to_string()));
    config.user.password = "abc12345".to_string();
    assert_eq!(config.validate(), Ok(()));
}

#[test]
fn boot_loader_descriptions() {
    assert_eq!(BootLoader::SystemdBoot.description(), "Modern, simple boot loader for UEFI systems");
    assert_eq!(BootLoader::Grub.description(), "Traditional boot loader, supports UEFI and BIOS");
}

#[test]
fn error_texts() {
    assert_eq!(DiskError::NotFound("sda".to_string()).to_string(), "Disk 'sda' not found");
    assert_eq!(
        DiskError::InsufficientSpace { available: 5, required: 8 }.to_string(),
        "Insufficient disk space: 5 available, 8 required"
    );
    assert_eq!(PartitionError::InvalidLayout("x".to_string()).to_string(), "Invalid partition layout: x");
    assert_eq!(
        FilesystemError::UnmountFailed("/mnt".to_string(), "busy".to_string()).to_string(),
        "Failed to unmount '/mnt': busy"
    );
    assert_eq!(
        ConfigError::WriteFailed { path: "/etc/x".to_string(), reason: "denied".to_string() }.to_string(),
        "Failed to write configuration to '/etc/x': denied"
    );
    assert_eq!(
        CommandError::ExecutionFailed { command: "ls".to_string(), code: -2, stderr: "bad".to_string() }.to_string(),
        "Command 'ls' failed with exit code -2: bad"
    );
    assert_eq!(
        CommandError::Timeout { command: "ping".to_string(), timeout: 30 }.to_string(),
        "Command 'ping' timed out after 30s"
    );
    assert_eq!(
        InstallerError::Command(CommandError::NotFound("parted".to_string())).to_string(),
        "Command execution error: Command 'parted' not found"
    );
    assert_eq!(InstallerError::other("plain").to_string(), "plain");
    assert_eq!(InstallerError::ui("broken").to_string(), "UI error: broken");
    assert_eq!(InstallerError::Io("denied".to_string()).to_string(), "IO error: denied");
}

#[test]
fn error_recoverability_and_messages() {
    assert!(InstallerError::Command(CommandError::NotFound("x".to_string())).is_recoverable());
    assert!(InstallerError::Io("x".to_string()).is_recoverable());
    assert!(InstallerError::other("x").is_recoverable());
    assert!(!InstallerError::Disk(DiskError::DiskBusy("sda".to_string())).is_recoverable());
    assert!(!InstallerError::ui("x").is_recoverable());
    assert_eq!(
        InstallerError::Disk(DiskError::DiskBusy("sda".to_string())).user_message(),
        "Disk operation failed: Disk 'sda' is currently in use"
    );
    assert_eq!(InstallerError::ui("Oops").user_message(), "Oops");
    assert_eq!(InstallerError::Io("denied".to_string()).user_message(), "I/O error: denied");
}

#[test]
fn error_suggestions() {
    assert_eq!(
        InstallerError::Disk(DiskError::NotFound("sdb".to_string())).suggestion(),
        Some("Please check that disk 'sdb' is connected and detected by the system. Run 'lsblk' to see available disks.".to_string())
    );
    assert_eq!(
        InstallerError::Command(CommandError::NotFound("parted".to_string())).suggestion(),
        Some("The command 'parted' is not available. Make sure you're running from NixOS installation media.".to_string())
    );
    assert_eq!(InstallerError::other("x").suggestion(), None);
}

#[test]
fn errors_convert_into_installer_errors() {
    let e: InstallerError = DiskError::NotFound("sda".to_string()).into();
    assert!(matches!(e, InstallerError::Disk(DiskError::NotFound(_))));
    let e: InstallerError = CommandError::InvalidArguments("x".to_string()).into();
    assert!(matches!(e, InstallerError::Command(CommandError::InvalidArguments(_))));
    let e: InstallerError = ConfigError::ValidationFailed("x".to_string()).into();
    assert_eq!(e.to_string(), "Configuration error: Invalid configuration: x");
}
