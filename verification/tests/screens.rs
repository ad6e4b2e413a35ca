use ekaos_install::config::BootLoader;
use ekaos_install::nixos::disk::{detect_disks_from, mock_disks};
use ekaos_install::nixos::install::{InstallMessage, InstallProgress, InstallStage};
use ekaos_install::system::bootmode::{detect_boot_mode, BootMode};
use ekaos_install::system::detection::{is_nixos, is_root};
use ekaos_install::system::network::{check_network, NetworkStatus};
use ekaos_install::ui::components::InputEvent;
use ekaos_install::ui::screens::configuration::{password_strength, FocusedField, PasswordStrength};
use ekaos_install::ui::screens::disk_selection::DiskWarning;
use ekaos_install::ui::screens::system_info::{BootMode as ShownBootMode, SystemInfoScreen};
use ekaos_install::ui::screens::{
    ConfigurationScreen, ConfirmationScreen, DiskSelectionScreen, InstallationScreen, PartitionPlanningScreen, Screen,
    ScreenAction, SuccessScreen, WelcomeScreen,
};
use ekaos_install::ui::utils::{keycode_to_input_event, Key};
use ekaos_install::nixos::Disk;

fn run_mock_checks(screen: &mut WelcomeScreen) {
    screen.record_checks(
        is_root(true, 1000),
        check_network(true, &[]),
        is_nixos(true, None, false),
        detect_disks_from(true, Err(String::new())),
        detect_boot_mode(true, false),
    );
}

#[test]
fn test_welcome_screen_creation() {
    let screen = WelcomeScreen::new(true, false);
    assert_eq!(screen.title(), "Welcome");
    assert!(screen.is_mock());
    assert!(!screen.is_dry_run());
}

#[test]
fn test_preflight_checks() {
    let mut screen = WelcomeScreen::new(true, false);
    screen.on_enter();
    run_mock_checks(&mut screen);
    assert!(screen.all_checks_passed());
    assert!(screen.can_proceed());
    assert_eq!(screen.boot_mode(), BootMode::Uefi);
}

#[test]
fn welcome_test_navigation() {
    let mut screen = WelcomeScreen::new(true, false);
    screen.on_enter();
    run_mock_checks(&mut screen);

    assert!(!screen.can_go_back());
    assert_eq!(screen.handle_input(Key::Enter), ScreenAction::Next);
    assert_eq!(screen.handle_input(Key::Char('q')), ScreenAction::Exit);
}

#[test]
fn welcome_test_help_content() {
    let screen = WelcomeScreen::new(false, false);
    let help = screen.help_content();
    assert!(!help.is_empty());
    assert!(help[0].contains("Welcome Screen"));
}

#[test]
fn welcome_waits_for_passing_checks_and_focus() {
    let mut screen = WelcomeScreen::new(false, false);
    assert_eq!(screen.handle_input(Key::Enter), ScreenAction::Stay);
    screen.on_enter();
    screen.record_checks(
        is_root(false, 1000),
        Ok(NetworkStatus::Connected),
        Ok(true),
        Ok(mock_disks()),
        Ok(BootMode::Bios),
    );
    assert!(!screen.checks().root_access);
    assert!(!screen.can_proceed());
    assert_eq!(screen.handle_input(Key::Enter), ScreenAction::Stay);
    assert_eq!(screen.handle_input(Key::Char('?')), ScreenAction::ToggleHelp);
    screen.record_checks(true, Ok(NetworkStatus::Timeout), Ok(true), Ok(Vec::new()), Err(ekaos_install::InstallerError::other("x")));
    assert!(!screen.checks().network);
    assert!(!screen.checks().disk_space);
    assert_eq!(screen.boot_mode(), BootMode::Unknown);
}

#[test]
fn test_boot_mode() {
    assert_eq!(ShownBootMode::Uefi.as_str(), "UEFI");
    assert_eq!(ShownBootMode::Bios.as_str(), "Legacy BIOS");
    assert!(ShownBootMode::Uefi.description().contains("GPT"));
}

#[test]
fn test_system_info_screen() {
    let screen = SystemInfoScreen::new();
    assert_eq!(screen.title(), "System Information");
    assert!(screen.can_go_back());
    assert!(screen.can_proceed());
}

#[test]
fn test_screen_navigation() {
    let mut screen = SystemInfoScreen::new();
    assert_eq!(screen.handle_input(Key::Enter), ScreenAction::Next);
    assert_eq!(screen.handle_input(Key::Left), ScreenAction::Back);
    assert_eq!(screen.handle_input(Key::Char('?')), ScreenAction::ToggleHelp);
}

#[test]
fn test_with_boot_mode() {
    let screen = SystemInfoScreen::new().with_boot_mode(ShownBootMode::Uefi);
    assert_eq!(screen.boot_mode, ShownBootMode::Uefi);
}

#[test]
fn system_info_test_help_content() {
    let screen = SystemInfoScreen::new();
    let help = screen.help_content();
    assert!(!help.is_empty());
    assert!(help[0].contains("System Information"));
}

#[test]
fn system_info_shows_what_it_is_given() {
    let mut screen = SystemInfoScreen::new().with_system_info("Ryzen".to_string(), 16, "aarch64".to_string());
    assert_eq!(screen.cpu, "Ryzen");
    assert_eq!(screen.cores, 16);
    screen.on_enter();
    assert_eq!(screen.cpu, "Simulated CPU");
    assert_eq!(screen.cores, 8);
    assert_eq!(screen.boot_mode, ShownBootMode::Uefi);
}

#[test]
fn test_disk_selection_screen_creation() {
    let screen = DiskSelectionScreen::new();
    assert_eq!(screen.title(), "Disk Selection");
    assert!(screen.can_go_back());
    assert!(!screen.can_proceed());
}

#[test]
fn disk_selection_test_navigation() {
    let mut screen = DiskSelectionScreen::new();

    screen.on_enter();
    screen.record_detection(detect_disks_from(true, Err(String::new())));

    if screen.disks().len() > 1 {
        assert_eq!(screen.selected_index(), 0);

        screen.select_next();
        assert_eq!(screen.selected_index(), 1);

        screen.select_previous();
        assert_eq!(screen.selected_index(), 0);

        screen.select_previous();
        assert_eq!(screen.selected_index(), 0);
    }
}

#[test]
fn disk_selection_test_help_content() {
    let screen = DiskSelectionScreen::new();
    let help = screen.help_content();
    assert!(!help.is_empty());
    assert!(help[0].contains("Disk Selection"));
}

#[test]
fn test_on_enter_detection() {
    let mut screen = DiskSelectionScreen::new();
    assert!(!screen.detected());

    screen.on_enter();
    assert!(screen.needs_detection());
    screen.record_detection(detect_disks_from(true, Err(String::new())));
    assert!(screen.detected());
    assert_eq!(screen.disks().len(), 2);
}

#[test]
fn disk_selection_failure_and_warnings() {
    let mut screen = DiskSelectionScreen::new();
    screen.record_detection(detect_disks_from(false, Err("no lsblk".to_string())));
    assert!(!screen.detected());
    assert_eq!(screen.error_message(), Some("Failed to detect disks: Disk error: Failed to detect disks: no lsblk"));
    assert_eq!(screen.get_disk_warning(), None);

    let base = mock_disks().remove(0);
    let disks = vec![
        Disk { readonly: true, ..base.clone() },
        Disk { removable: true, ..base.clone() },
        Disk { mountpoint: Some("/".to_string()), ..base.clone() },
        Disk { size: 4_000_000_000, ..base.clone() },
        base.clone(),
    ];
    screen.record_detection(Ok(disks));
    assert_eq!(screen.get_disk_warning(), Some(DiskWarning::ReadOnly));
    assert_eq!(screen.handle_input(Key::Enter), ScreenAction::Stay);
    screen.handle_input(Key::Down);
    assert_eq!(screen.get_disk_warning(), Some(DiskWarning::Removable));
    screen.handle_input(Key::Down);
    assert_eq!(screen.get_disk_warning(), Some(DiskWarning::Mounted));
    assert_eq!(DiskWarning::Mounted.text(), Some("⚠ This disk has mounted partitions"));
    screen.handle_input(Key::Down);
    assert_eq!(screen.get_disk_warning(), Some(DiskWarning::TooSmall(4_000_000_000)));
    assert_eq!(DiskWarning::TooSmall(1).text(), None);
    screen.handle_input(Key::Down);
    assert_eq!(screen.get_disk_warning(), None);
    assert!(screen.can_proceed());
    assert_eq!(screen.handle_input(Key::Enter), ScreenAction::Next);
    screen.handle_input(Key::Down);
    assert_eq!(screen.selected_index(), 4);
    assert_eq!(screen.handle_input(Key::Backspace), ScreenAction::Back);
}

#[test]
fn test_partition_planning_screen_creation() {
    let screen = PartitionPlanningScreen::new();
    assert_eq!(screen.title(), "Partition Planning");
    assert!(screen.can_go_back());
    assert!(screen.can_proceed());
}

#[test]
fn test_uefi_layout_generation() {
    let mut screen = PartitionPlanningScreen::new();
    screen.set_disk(BootMode::Uefi, "/dev/sda".to_string(), 500_000_000_000);

    let partitions = screen.partitions();
    assert_eq!(partitions.len(), 3);
    assert_eq!(partitions[0].label, "EFI System Partition");
    assert_eq!(partitions[0].fstype, "FAT32");
    assert_eq!(partitions[1].label, "Root Partition");
    assert_eq!(partitions[2].label, "Swap Partition");
}

#[test]
fn test_bios_layout_generation() {
    let mut screen = PartitionPlanningScreen::new();
    screen.set_disk(BootMode::Bios, "/dev/sda".to_string(), 500_000_000_000);

    let partitions = screen.partitions();
    assert_eq!(partitions.len(), 2);
    assert_eq!(partitions[0].label, "Root Partition");
    assert_eq!(partitions[1].label, "Swap Partition");
}

#[test]
fn partition_planning_test_help_content() {
    let screen = PartitionPlanningScreen::new();
    let help = screen.help_content();
    assert!(!help.is_empty());
    assert!(help[0].contains("Partition Planning"));
}

#[test]
fn layouts_fill_the_disk() {
    let mut screen = PartitionPlanningScreen::new();
    screen.set_disk(BootMode::Unknown, "/dev/vda".to_string(), 100_000_000_000);
    assert_eq!(screen.partitions().len(), 3);
    assert_eq!(screen.partitions()[1].size, 100_000_000_000 - 8_512_000_000);
    assert_eq!(screen.total_size(), 100_000_000_000);
    screen.set_disk(BootMode::Bios, "/dev/vda".to_string(), 5_000_000_000);
    assert_eq!(screen.partitions()[0].size, 0);
    assert_eq!(screen.total_size(), 8_000_000_000);
    assert_eq!(screen.disk_path(), "/dev/vda");
    assert_eq!(screen.swap_size_gb(), 8);
    assert_eq!(screen.root_filesystem(), "ext4");
    assert!(!screen.luks_enabled());
    assert_eq!(screen.luks_passphrase(), "");
}

#[test]
fn test_configuration_screen_creation() {
    let screen = ConfigurationScreen::new(None);
    assert_eq!(screen.title(), "System Configuration");
    assert!(screen.can_go_back());
}

#[test]
fn test_focus_navigation() {
    let mut screen = ConfigurationScreen::new(None);
    assert_eq!(screen.focused_field(), FocusedField::Hostname);

    screen.focus_next();
    assert_eq!(screen.focused_field(), FocusedField::Username);

    screen.focus_next();
    assert_eq!(screen.focused_field(), FocusedField::Password);

    screen.focus_previous();
    assert_eq!(screen.focused_field(), FocusedField::Username);
}

#[test]
fn test_bootloader_selection() {
    let mut screen = ConfigurationScreen::new(None);

    screen.set_boot_mode(BootMode::Uefi);
    assert_eq!(screen.get_config().bootloader, BootLoader::SystemdBoot);

    screen.set_boot_mode(BootMode::Bios);
    assert_eq!(screen.get_config().bootloader, BootLoader::Grub);
}

#[test]
fn configuration_test_help_content() {
    let screen = ConfigurationScreen::new(None);
    let help = screen.help_content();
    assert!(!help.is_empty());
    assert!(help[0].contains("System Configuration"));
}

#[test]
fn test_arrow_key_navigation() {
    let mut screen = ConfigurationScreen::new(None);
    assert_eq!(screen.focused_field(), FocusedField::Hostname);

    screen.handle_input(Key::Down);
    assert_eq!(screen.focused_field(), FocusedField::Username);

    screen.handle_input(Key::Down);
    assert_eq!(screen.focused_field(), FocusedField::Password);

    screen.handle_input(Key::Down);
    assert_eq!(screen.focused_field(), FocusedField::PasswordConfirm);

    screen.handle_input(Key::Up);
    assert_eq!(screen.focused_field(), FocusedField::Password);

    screen.handle_input(Key::Up);
    assert_eq!(screen.focused_field(), FocusedField::Username);

    screen.handle_input(Key::Up);
    assert_eq!(screen.focused_field(), FocusedField::Hostname);
}

#[test]
fn test_set_disk_config() {
    let mut screen = ConfigurationScreen::new(None);

    assert_eq!(screen.get_config().disk_path, "");
    assert_eq!(screen.get_config().disk_size, 0);
    assert_eq!(screen.get_config().swap_size_gb, 8);
    assert_eq!(screen.get_config().root_filesystem, "ext4");

    screen.set_disk_config(
        "/dev/nvme0n1".to_string(),
        1_000_000_000_000,
        16,
        "btrfs".to_string(),
        true,
        "mypassphrase".to_string(),
    );

    assert_eq!(screen.get_config().disk_path, "/dev/nvme0n1");
    assert_eq!(screen.get_config().disk_size, 1_000_000_000_000);
    assert_eq!(screen.get_config().swap_size_gb, 16);
    assert_eq!(screen.get_config().root_filesystem, "btrfs");
    assert!(screen.get_config().luks_encryption);
    assert_eq!(screen.get_config().luks_passphrase, "mypassphrase");
}

fn type_text(screen: &mut ConfigurationScreen, text: &str) {
    for c in text.chars() {
        screen.handle_input(Key::Char(c));
    }
}

#[test]
fn configuration_form_is_checked_before_going_on() {
    let mut screen = ConfigurationScreen::new(Some("Europe/Berlin"));
    assert!(!screen.can_proceed());
    screen.handle_input(Key::Tab);
    type_text(&mut screen, "alice");
    screen.handle_input(Key::Enter);
    type_text(&mut screen, "secret11");
    screen.handle_input(Key::Enter);
    type_text(&mut screen, "secret12");
    assert!(screen.can_proceed());
    for _ in 0..4 {
        screen.handle_input(Key::Tab);
    }
    assert_eq!(screen.focused_field(), FocusedField::ContinueButton);
    assert_eq!(screen.handle_input(Key::Enter), ScreenAction::Stay);
    assert_eq!(screen.error_message(), Some("Passwords do not match"));
    screen.handle_input(Key::BackTab);
    screen.handle_input(Key::BackTab);
    screen.handle_input(Key::BackTab);
    screen.handle_input(Key::BackTab);
    assert_eq!(screen.focused_field(), FocusedField::PasswordConfirm);
    screen.handle_input(Key::Backspace);
    type_text(&mut screen, "1");
    screen.handle_input(Key::Right);
    screen.handle_input(Key::Right);
    screen.handle_input(Key::Right);
    screen.handle_input(Key::Right);
    assert_eq!(screen.handle_input(Key::Enter), ScreenAction::Next);
    assert_eq!(screen.error_message(), None);
    let config = screen.get_config();
    assert_eq!(config.hostname, "nixos");
    assert_eq!(config.user.username, "alice");
    assert_eq!(config.user.password, "secret11");
    assert_eq!(config.timezone, "Europe/Berlin");
    assert_eq!(config.locale, "en_US.UTF-8");
    assert_eq!(config.keymap, "us");
    assert_eq!(screen.handle_input(Key::Char('q')), ScreenAction::Exit);
    assert_eq!(screen.handle_input(Key::Left), ScreenAction::Back);
}

#[test]
fn configuration_lists_filter_and_update_the_choice() {
    let mut screen = ConfigurationScreen::new(None);
    assert_eq!(screen.get_config().timezone, "America/New_York");
    for _ in 0..4 {
        screen.handle_input(Key::Tab);
    }
    assert_eq!(screen.focused_field(), FocusedField::Timezone);
    type_text(&mut screen, "tokyo");
    assert_eq!(screen.get_config().timezone, "Asia/Tokyo");
    assert_eq!(screen.handle_input(Key::Down), ScreenAction::Stay);
    assert_eq!(screen.focused_field(), FocusedField::Timezone);
    assert_eq!(screen.handle_input(Key::Char('q')), ScreenAction::Stay);
}

#[test]
fn password_strengths() {
    assert_eq!(password_strength("abc"), PasswordStrength::Weak);
    assert_eq!(password_strength("abcdefgh"), PasswordStrength::Weak);
    assert_eq!(password_strength("abcdefg1"), PasswordStrength::Medium);
    assert_eq!(password_strength("Abcdefghij1!"), PasswordStrength::Strong);
    assert_eq!(password_strength("abcdefghij1k"), PasswordStrength::Medium);
    assert_eq!(PasswordStrength::Strong.label(), "Strong ███████████");
    assert_eq!(PasswordStrength::Weak.label(), "Weak   ███░░░░░░░░");
}

#[test]
fn confirmation_needs_delete_typed() {
    let mut screen = ConfirmationScreen::new();
    assert_eq!(screen.title(), "Review Configuration");
    assert!(!screen.can_proceed());
    screen.set_config(ekaos_install::config::InstallConfig::default());
    assert!(screen.get_config().is_some());
    for c in "DELET".chars() {
        screen.handle_input(Key::Char(c));
    }
    assert_eq!(screen.handle_input(Key::Enter), ScreenAction::Stay);
    screen.handle_input(Key::Char('E'));
    assert!(screen.is_confirmed());
    assert!(screen.can_proceed());
    assert_eq!(screen.handle_input(Key::Enter), ScreenAction::Next);
    assert_eq!(screen.handle_input(Key::Backspace), ScreenAction::Back);
    screen.handle_input(Key::Char('!'));
    assert!(!screen.is_confirmed());
    screen.set_config(ekaos_install::config::InstallConfig::default());
    assert!(!screen.is_confirmed());
    assert!(screen.help_content()[0].contains("Review Configuration"));
}

#[test]
fn test_installation_screen_creation() {
    let screen = InstallationScreen::new();
    assert_eq!(screen.title(), "Installing NixOS");
    assert!(!screen.is_running);
    assert!(!screen.is_complete);
    assert!(!screen.has_error);
}

#[test]
fn test_installation_screen_cannot_go_back() {
    let screen = InstallationScreen::new();
    assert!(!screen.can_go_back());
}

#[test]
fn test_installation_screen_can_proceed_when_complete() {
    let mut screen = InstallationScreen::new();
    assert!(!screen.can_proceed());

    screen.is_complete = true;
    assert!(screen.can_proceed());
}

#[test]
fn test_scroll_functions() {
    let mut screen = InstallationScreen::new();
    screen.log_lines = vec!["Line 1".to_string(), "Line 2".to_string(), "Line 3".to_string()];
    screen.scroll_position = 1;

    screen.scroll_down();
    assert_eq!(screen.scroll_position, 2);

    screen.scroll_up();
    assert_eq!(screen.scroll_position, 1);

    screen.scroll_up();
    assert_eq!(screen.scroll_position, 0);

    screen.scroll_up();
    assert_eq!(screen.scroll_position, 0);
}

#[test]
fn installation_test_help_content() {
    let screen = InstallationScreen::new();
    let help = screen.help_content();
    assert!(!help.is_empty());
    assert!(help[0].contains("Installation Progress"));
}

#[test]
fn installation_screen_follows_messages() {
    let mut screen = InstallationScreen::new();
    assert_eq!(screen.stage_description(), "Initializing...");
    screen.start_installation();
    assert!(screen.is_running);
    assert_eq!(screen.log_lines, vec!["Starting installation...".to_string()]);
    screen.apply_message(InstallMessage::Progress(InstallProgress {
        stage: InstallStage::Verifying,
        percent: 90,
        operation: "Verifying installation...".to_string(),
        log_line: None,
    }));
    assert_eq!(screen.percent(), 90);
    assert_eq!(screen.stage_description(), "Verifying installation...");
    screen.apply_message(InstallMessage::Log("done".to_string()));
    assert_eq!(screen.scroll_position, 1);
    assert_eq!(screen.handle_input(Key::Char('q')), ScreenAction::Stay);
    screen.apply_message(InstallMessage::Error("disk vanished".to_string()));
    assert!(!screen.is_running);
    assert!(screen.has_error);
    assert_eq!(screen.error_message.as_deref(), Some("disk vanished"));
    assert_eq!(screen.log_lines.last().map(|s| s.as_str()), Some("✗ Installation failed: disk vanished"));
    assert_eq!(screen.handle_input(Key::Esc), ScreenAction::Exit);
    assert_eq!(screen.handle_input(Key::Enter), ScreenAction::Stay);
    screen.apply_message(InstallMessage::Success);
    assert!(screen.is_complete);
    assert_eq!(screen.handle_input(Key::Enter), ScreenAction::Next);
    screen.progress = Some(InstallProgress {
        stage: InstallStage::Failed("boom".to_string()),
        percent: 0,
        operation: String::new(),
        log_line: None,
    });
    assert_eq!(screen.stage_description(), "Installation failed: boom");
}

#[test]
fn test_success_screen_creation() {
    let screen = SuccessScreen::new();
    assert_eq!(screen.title(), "Installation Complete");
    assert_eq!(screen.selected(), 1);
}

#[test]
fn test_success_screen_navigation() {
    let mut screen = SuccessScreen::new();
    assert_eq!(screen.selected(), 1);

    screen.select_next();
    assert_eq!(screen.selected(), 0);

    screen.select_next();
    assert_eq!(screen.selected(), 1);

    screen.select_previous();
    assert_eq!(screen.selected(), 0);
}

#[test]
fn test_success_screen_cannot_go_back() {
    let screen = SuccessScreen::new();
    assert!(!screen.can_go_back());
}

#[test]
fn success_test_help_content() {
    let screen = SuccessScreen::new();
    let help = screen.help_content();
    assert!(!help.is_empty());
    assert!(help[0].contains("Installation Complete"));
}

#[test]
fn success_screen_keys() {
    let mut screen = SuccessScreen::new();
    assert_eq!(screen.handle_input(Key::Up), ScreenAction::Stay);
    assert_eq!(screen.selected(), 0);
    assert_eq!(screen.handle_input(Key::Enter), ScreenAction::Exit);
    assert_eq!(screen.handle_input(Key::Char('?')), ScreenAction::ToggleHelp);
}

#[test]
fn test_char_conversion() {
    let event = keycode_to_input_event(Key::Char('a'));
    assert!(matches!(event, Some(InputEvent::Char('a'))));
}

#[test]
fn test_backspace_conversion() {
    let event = keycode_to_input_event(Key::Backspace);
    assert!(matches!(event, Some(InputEvent::Backspace)));
}

#[test]
fn test_navigation_keys() {
    assert!(matches!(keycode_to_input_event(Key::Left), Some(InputEvent::Left)));
    assert!(matches!(keycode_to_input_event(Key::Right), Some(InputEvent::Right)));
    assert!(matches!(keycode_to_input_event(Key::Home), Some(InputEvent::Home)));
    assert!(matches!(keycode_to_input_event(Key::End), Some(InputEvent::End)));
}

#[test]
fn test_tab_keys() {
    assert!(matches!(keycode_to_input_event(Key::Tab), Some(InputEvent::Tab)));
    assert!(matches!(keycode_to_input_event(Key::BackTab), Some(InputEvent::Tab)));
}

#[test]
fn test_unhandled_keys() {
    assert!(keycode_to_input_event(Key::F(1)).is_none());
    assert!(keycode_to_input_event(Key::Enter).is_none());
    assert!(keycode_to_input_event(Key::Esc).is_none());
    assert!(keycode_to_input_event(Key::Up).is_none());
}

#[test]
fn configuration_parts_are_readable_for_drawing() {
    let mut screen = ConfigurationScreen::new(Some("Europe/Paris"));
    assert_eq!(screen.hostname_input().value(), "nixos");
    assert_eq!(screen.username_input().value(), "");
    assert!(screen.password_input().is_password());
    assert!(screen.password_confirm_input().is_password());
    assert_eq!(screen.timezone_selector().selected_label(), Some("Europe/Paris"));
    assert!(screen.keymap_selector().visible_count() > 0);
    assert!(screen.locale_selector().visible_count() > 0);
    assert_eq!(screen.continue_button().label(), "Continue");

    screen.fit_lists(8, 20, 2);
    assert_eq!(screen.timezone_selector().max_visible(), 4);
    assert_eq!(screen.keymap_selector().max_visible(), 16);
    assert_eq!(screen.locale_selector().max_visible(), 3);
    assert_eq!(screen.timezone_selector().selected_label(), Some("Europe/Paris"));
}

#[test]
fn review_field_and_plan_boot_mode_are_readable() {
    let confirmation = ConfirmationScreen::new();
    assert_eq!(confirmation.confirm_input().value(), "");

    let mut plan = PartitionPlanningScreen::new();
    plan.set_disk(BootMode::Bios, "/dev/sda".to_string(), 100_000_000_000);
    assert_eq!(plan.boot_mode(), BootMode::Bios);

    let mut welcome = WelcomeScreen::new(true, false);
    run_mock_checks(&mut welcome);
    welcome.on_enter();
    assert!(ekaos_install::ui::components::Focusable::is_focused(welcome.continue_button()));
}

#[test]
fn log_window_follows_the_scroll_position() {
    let mut screen = InstallationScreen::new();
    screen.start_installation();
    for k in 0..9 {
        screen.apply_message(InstallMessage::Log(format!("line {}", k)));
    }
    assert_eq!(screen.log_lines.len(), 10);
    assert_eq!(screen.scroll_position, 9);
    assert_eq!(screen.visible_log_range(4), (7, 10));
    assert_eq!(screen.visible_log_range(30), (0, 10));
    screen.scroll_position = 5;
    assert_eq!(screen.visible_log_range(4), (3, 7));
    assert_eq!(screen.visible_log_range(0), (5, 5));
}

#[test]
fn arrow_keys_move_within_a_focused_list() {
    let mut screen = ConfigurationScreen::new(None);
    for _ in 0..4 {
        screen.handle_input(Key::Tab);
    }
    assert_eq!(screen.focused_field(), FocusedField::Timezone);
    assert_eq!(screen.handle_input(Key::Down), ScreenAction::Stay);
    assert_eq!(screen.focused_field(), FocusedField::Timezone);
    assert_eq!(screen.timezone_selector().selected_label(), Some("America/Phoenix"));
    assert_eq!(screen.get_config().timezone, "America/Phoenix");
    assert_eq!(screen.handle_input(Key::Up), ScreenAction::Stay);
    assert_eq!(screen.get_config().timezone, "America/New_York");

    type_text(&mut screen, "tokyo");
    assert_eq!(screen.get_config().timezone, "Asia/Tokyo");
    assert_eq!(screen.handle_input(Key::Esc), ScreenAction::Stay);
    assert_eq!(screen.focused_field(), FocusedField::Timezone);
    assert_eq!(screen.timezone_selector().query(), "");
    let first = screen.timezone_selector().visible_label(0).to_string();
    assert_eq!(screen.get_config().timezone, first);

    screen.handle_input(Key::Tab);
    assert_eq!(screen.focused_field(), FocusedField::Keymap);
    assert_eq!(screen.get_config().keymap, "us");
    screen.handle_input(Key::Down);
    assert_eq!(screen.get_config().keymap, "uk");

    screen.handle_input(Key::Tab);
    assert_eq!(screen.focused_field(), FocusedField::Locale);
    screen.handle_input(Key::Down);
    assert_eq!(screen.get_config().locale, "en_GB.UTF-8");
}
