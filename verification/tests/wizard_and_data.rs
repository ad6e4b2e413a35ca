use ekaos_install::app::{AppMode, EnterEffect, Screen, Wizard};
use ekaos_install::config::BootLoader;
use ekaos_install::data::{detect_timezone, get_keymap_list, get_locale_list, get_timezone_list};
use ekaos_install::nixos::disk::detect_disks_from;
use ekaos_install::nixos::install::{InstallMessage, InstallStage};
use ekaos_install::system::bootmode::{detect_boot_mode, BootMode};
use ekaos_install::system::detection::{is_nixos, is_root};
use ekaos_install::system::network::check_network;
use ekaos_install::ui::screens::ScreenAction;
use ekaos_install::ui::utils::Key;

fn checks(w: &mut Wizard, boot: BootMode) {
    w.record_checks(
        is_root(true, 1000),
        check_network(true, &[]),
        is_nixos(true, None, false),
        detect_disks_from(true, Err(String::new())),
        detect_boot_mode(false, boot == BootMode::Uefi),
    );
}

fn type_text(w: &mut Wizard, text: &str) {
    for c in text.chars() {
        w.handle_key(Key::Char(c), false);
    }
}

#[test]
fn wizard_walks_through_a_mock_installation() {
    let mut w = Wizard::new(AppMode::Mock, false, None);
    assert_eq!(w.begin(), EnterEffect::RunPreflightChecks);
    checks(&mut w, BootMode::Bios);
    assert_eq!(w.sync_screens(), EnterEffect::Nothing);

    assert_eq!(w.handle_key(Key::Enter, false), Some(ScreenAction::Next));
    assert_eq!(w.app.current_screen, Screen::SystemInfo);
    assert_eq!(w.sync_screens(), EnterEffect::Nothing);

    w.handle_key(Key::Enter, false);
    assert_eq!(w.app.current_screen, Screen::DiskSelection);
    assert_eq!(w.sync_screens(), EnterEffect::DetectDisks);
    w.record_detection(detect_disks_from(true, Err(String::new())));

    w.handle_key(Key::Down, false);
    w.handle_key(Key::Enter, false);
    assert_eq!(w.app.current_screen, Screen::PartitionPlanning);
    assert_eq!(w.sync_screens(), EnterEffect::Nothing);
    assert_eq!(w.partition_planning.disk_path(), "/dev/nvme0n1");
    assert_eq!(w.partition_planning.partitions().len(), 2);

    w.handle_key(Key::Enter, false);
    assert_eq!(w.app.current_screen, Screen::Configuration);
    w.sync_screens();
    assert_eq!(w.configuration.get_config().bootloader, BootLoader::Grub);
    assert_eq!(w.configuration.get_config().disk_path, "/dev/nvme0n1");

    w.handle_key(Key::Tab, false);
    type_text(&mut w, "bob");
    w.handle_key(Key::Tab, false);
    type_text(&mut w, "hunter22");
    w.handle_key(Key::Tab, false);
    type_text(&mut w, "hunter22");
    for _ in 0..4 {
        w.handle_key(Key::Tab, false);
    }
    assert_eq!(w.handle_key(Key::Enter, false), Some(ScreenAction::Next));
    assert_eq!(w.app.current_screen, Screen::Confirmation);
    w.sync_screens();
    assert_eq!(w.installation_config().map(|c| c.user.username.as_str()), Some("bob"));

    assert_eq!(w.handle_key(Key::Enter, false), Some(ScreenAction::Stay));
    type_text(&mut w, "DELETE");
    w.handle_key(Key::Enter, false);
    assert_eq!(w.app.current_screen, Screen::Installation);
    assert_eq!(w.sync_screens(), EnterEffect::StartInstallation);
    assert!(w.installation.is_running);

    assert_eq!(w.handle_key(Key::Left, false), Some(ScreenAction::Stay));
    assert_eq!(w.app.current_screen, Screen::Installation);
    w.apply_install_message(InstallMessage::Success);
    w.handle_key(Key::Enter, false);
    assert_eq!(w.app.current_screen, Screen::Complete);
    assert_eq!(w.sync_screens(), EnterEffect::Nothing);
    w.handle_key(Key::Enter, false);
    assert!(w.should_exit());
}

#[test]
fn wizard_global_keys() {
    let mut w = Wizard::new(AppMode::Real, true, None);
    w.begin();
    assert_eq!(w.handle_key(Key::Char('?'), false), None);
    assert!(w.app.help_visible);
    assert!(!w.help_content().is_empty());
    assert_eq!(w.handle_key(Key::Enter, false), None);
    assert!(!w.app.help_visible);
    assert_eq!(w.app.current_screen, Screen::Welcome);
    assert_eq!(w.handle_key(Key::Char('c'), true), None);
    assert!(w.should_exit());
}

#[test]
fn wizard_does_not_leave_a_screen_that_forbids_it() {
    let mut w = Wizard::new(AppMode::Real, false, None);
    w.begin();
    w.record_checks(false, check_network(false, &[false]), Ok(false), Ok(Vec::new()), Ok(BootMode::Uefi));
    assert_eq!(w.handle_key(Key::Enter, false), Some(ScreenAction::Stay));
    assert_eq!(w.app.current_screen, Screen::Welcome);
    assert_eq!(w.handle_key(Key::Char('q'), false), Some(ScreenAction::Exit));
    assert!(w.should_exit());
}

#[test]
fn wizard_goes_back_and_reenters() {
    let mut w = Wizard::new(AppMode::Mock, false, None);
    w.begin();
    checks(&mut w, BootMode::Uefi);
    w.handle_key(Key::Enter, false);
    w.sync_screens();
    w.handle_key(Key::Enter, false);
    assert_eq!(w.sync_screens(), EnterEffect::DetectDisks);
    w.record_detection(detect_disks_from(true, Err(String::new())));
    assert_eq!(w.handle_key(Key::Backspace, false), Some(ScreenAction::Back));
    assert_eq!(w.app.current_screen, Screen::SystemInfo);
    w.sync_screens();
    w.handle_key(Key::Enter, false);
    assert_eq!(w.sync_screens(), EnterEffect::Nothing);
    w.handle_key(Key::Enter, false);
    w.sync_screens();
    assert_eq!(w.partition_planning.partitions().len(), 3);
    assert_eq!(w.partition_planning.disk_path(), "/dev/sda");
}

#[test]
fn data_lists() {
    let zones = get_timezone_list();
    assert_eq!(zones[0], "UTC");
    assert!(zones.contains(&"America/New_York".to_string()));
    assert!(zones.contains(&"Pacific/Honolulu".to_string()));
    let keymaps = get_keymap_list();
    assert_eq!(keymaps[0], ("us".to_string(), "English (US)".to_string()));
    assert_eq!(keymaps.last().unwrap().0, "us-acentos");
    let locales = get_locale_list();
    assert_eq!(locales[0], ("en_US.UTF-8".to_string(), "English (United States)".to_string()));
    assert_eq!(locales.last().unwrap().1, "Malay");
}

#[test]
fn timezone_detection_order() {
    assert_eq!(
        detect_timezone(Some("/usr/share/zoneinfo/America/New_York"), Some("Europe/Paris"), None),
        Some("America/New_York".to_string())
    );
    assert_eq!(detect_timezone(Some("/etc/localtime.bak"), Some("Europe/Paris"), None), Some("Europe/Paris".to_string()));
    assert_eq!(detect_timezone(None, Some("UTC"), Some("  Asia/Tokyo\n")), Some("Asia/Tokyo".to_string()));
    assert_eq!(detect_timezone(None, Some(""), Some("   \n")), None);
    assert_eq!(detect_timezone(None, None, None), None);
}

#[test]
fn stage_names_for_failed_runs() {
    let s = InstallStage::Failed("x".to_string());
    assert_ne!(s, InstallStage::Complete);
}
