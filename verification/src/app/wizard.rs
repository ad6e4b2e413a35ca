//! The wizard: the application state together with every screen, and the
//! rules of the main loop. A key press is first looked at globally (Ctrl+C
//! quits, `?` and any key while the help is shown toggle the help), then
//! handed to the current screen, whose answer moves the wizard. When the
//! screen changes, the screen entered is given what the earlier screens
//! decided; the work that needs the system (the pre-flight checks, disk
//! detection, the installation itself) is asked of the caller.

use vstd::prelude::*;
use vstd::string::*;
use crate::app::state::{App, AppMode, Screen, following, going_back};
use crate::config::InstallConfig;
use crate::error::{InstallerError, installer_error_text};
use crate::nixos::disk::Disk;
use crate::nixos::install::InstallMessage;
use crate::system::bootmode::BootMode;
use crate::system::network::NetworkStatus;
use crate::ui::screens::Screen as ScreenBehaviour;
use crate::ui::screens::{ScreenAction, standard_action};
use crate::ui::screens::configuration::{ConfigView, ConfigurationScreen, configuration_help, configuration_step, form_filled, loader_for};
use crate::ui::screens::confirmation::{ConfirmView, ConfirmationScreen, confirmation_help, confirmation_step};
use crate::ui::screens::disk_selection::{DiskSelectionScreen, DiskSelectionView, disk_selection_action, disk_selection_help, selected_after_down, selected_after_up, selection_installable};
use crate::ui::screens::installation::{InstallationScreen, installation_action, installation_help, message_applied, scrolled_down, scrolled_up};
use crate::ui::screens::partition_planning::{PartitionPlanningScreen, SWAP_BYTES, layout_for, partition_planning_action, partition_planning_help};
use crate::ui::screens::success::{SuccessScreen, success_action, success_help};
use crate::ui::screens::system_info::{BootMode as ShownBootMode, SystemInfoScreen, system_info_action, system_info_help};
use crate::ui::screens::welcome::{PreFlightChecks, WelcomeScreen, WelcomeView, checks_pass, some_disk_installable, welcome_action, welcome_help};
use crate::ui::utils::Key;
use crate::text::string_views;
use crate::ui::components::input::InputView;
use crate::ui::components::button::ButtonView;

verus! {

/// Work the caller is to do after a screen was entered.
#[derive(Debug, Clone, Copy, PartialEq, Eq, Structural)]
pub enum EnterEffect {
    /// Nothing
    Nothing,
    /// Run the pre-flight checks and hand their outcome to
    /// `record_checks`
    RunPreflightChecks,
    /// Detect the disks and hand the outcome to `record_detection`
    DetectDisks,
    /// Start the installation of `installation_config()` and hand its
    /// messages to `apply_install_message`
    StartInstallation,
}

/// The wizard.
pub struct Wizard {
    /// The application state
    pub app: App,
    /// The welcome screen
    pub welcome: WelcomeScreen,
    /// The system information screen
    pub system_info: SystemInfoScreen,
    /// The disk selection screen
    pub disk_selection: DiskSelectionScreen,
    /// The partition planning screen
    pub partition_planning: PartitionPlanningScreen,
    /// The configuration screen
    pub configuration: ConfigurationScreen,
    /// The confirmation screen
    pub confirmation: ConfirmationScreen,
    /// The installation screen
    pub installation: InstallationScreen,
    /// The success screen
    pub success: SuccessScreen,
    /// The screen whose entry was last handled
    pub shown: Screen,
}

/// Whether the wizard may leave `s` forward.
pub open spec fn may_proceed(w: Wizard, s: Screen) -> bool {
    match s {
        Screen::Welcome => checks_pass(w.welcome@.checks),
        Screen::SystemInfo => true,
        Screen::DiskSelection => selection_installable(w.disk_selection@),
        Screen::PartitionPlanning => true,
        Screen::Configuration => form_filled(w.configuration@),
        Screen::Confirmation => w.confirmation@.config is Some && w.confirmation@.confirmed,
        Screen::Installation => w.installation.is_complete,
        Screen::Complete => true,
    }
}

/// The screen after the current one answered `action`: forward when the
/// screen allows it, back where going back is allowed.
pub open spec fn screen_after(w: Wizard, action: ScreenAction) -> Screen {
    let s = w.app.current_screen;
    match action {
        ScreenAction::Next => if may_proceed(w, s) {
            match following(s) { Some(n) => n, None => s }
        } else {
            s
        },
        ScreenAction::Back => match going_back(s) { Some(p) => p, None => s },
        _ => s,
    }
}

/// The help lines of each screen.
pub open spec fn help_of(s: Screen) -> Seq<Seq<char>> {
    match s {
        Screen::Welcome => welcome_help(),
        Screen::SystemInfo => system_info_help(),
        Screen::DiskSelection => disk_selection_help(),
        Screen::PartitionPlanning => partition_planning_help(),
        Screen::Configuration => configuration_help(),
        Screen::Confirmation => confirmation_help(),
        Screen::Installation => installation_help(),
        Screen::Complete => success_help(),
    }
}

impl Wizard {
    /// The rules the screens keep.
    pub open spec fn wf(&self) -> bool {
        &&& self.partition_planning.screen_wf()
        &&& self.configuration.screen_wf()
        &&& self.confirmation.screen_wf()
        &&& self.success.screen_wf()
    }

    /// A wizard on the welcome screen, every screen as it first appears.
    pub fn new(mode: AppMode, dry_run: bool, detected_timezone: Option<&str>) -> (w: Self)
        ensures
            w.wf(),
            w.app == (App { mode, current_screen: Screen::Welcome, should_exit: false, dry_run, help_visible: false }),
            w.shown == Screen::Welcome,
    {
        let app = App::new(mode, dry_run);
        let is_mock = app.is_mock();
        Wizard {
            app,
            welcome: WelcomeScreen::new(is_mock, dry_run),
            system_info: SystemInfoScreen::new(),
            disk_selection: DiskSelectionScreen::new(),
            partition_planning: PartitionPlanningScreen::new(),
            configuration: ConfigurationScreen::new(detected_timezone),
            confirmation: ConfirmationScreen::new(),
            installation: InstallationScreen::new(),
            success: SuccessScreen::new(),
            shown: Screen::Welcome,
        }
    }

    /// Enters the first screen; the caller is to run the pre-flight checks.
    pub fn begin(&mut self) -> (effect: EnterEffect)
        requires
            old(self).wf(),
        ensures
            final(self).wf(),
            effect == EnterEffect::RunPreflightChecks,
            final(self).app == old(self).app,
            final(self).shown == old(self).shown,
            final(self).welcome@ == (WelcomeView { button: ButtonView { focused: true, ..old(self).welcome@.button }, ..old(self).welcome@ }),
            same_screens(*final(self), Wizard { welcome: final(self).welcome, ..*old(self) }),
    {
        self.welcome.on_enter();
        EnterEffect::RunPreflightChecks
    }

    /// Hands the outcome of the pre-flight checks to the welcome screen.
    pub fn record_checks(
        &mut self,
        is_root: bool,
        network: Result<NetworkStatus, InstallerError>,
        nixos: Result<bool, InstallerError>,
        disks: Result<Vec<Disk>, InstallerError>,
        boot_mode: Result<BootMode, InstallerError>,
    )
        requires
            old(self).wf(),
        ensures
            final(self).wf(),
            final(self).app == old(self).app,
            final(self).shown == old(self).shown,
            final(self).welcome@ == (WelcomeView {
                checks: PreFlightChecks {
                    root_access: old(self).welcome@.is_mock || is_root,
                    network: network matches Ok(s) && s == NetworkStatus::Connected,
                    nixos_iso: nixos matches Ok(b) && b,
                    disk_space: disks matches Ok(d) && some_disk_installable(d@),
                },
                boot_mode: match boot_mode {
                    Ok(m) => m,
                    Err(_) => BootMode::Unknown,
                },
                ..old(self).welcome@
            }),
            same_screens(*final(self), Wizard { welcome: final(self).welcome, ..*old(self) }),
    {
        self.welcome.record_checks(is_root, network, nixos, disks, boot_mode);
    }

    /// Hands the outcome of disk detection to the disk selection screen.
    pub fn record_detection(&mut self, outcome: Result<Vec<Disk>, InstallerError>)
        requires
            old(self).wf(),
        ensures
            final(self).wf(),
            final(self).app == old(self).app,
            final(self).shown == old(self).shown,
            match outcome {
                Ok(d) => final(self).disk_selection@
                    == (DiskSelectionView { disks: d@, selected: 0, detected: true, error: None }),
                Err(e) => final(self).disk_selection@ == (DiskSelectionView {
                    disks: Seq::empty(),
                    error: Some("Failed to detect disks: "@ + installer_error_text(e)),
                    ..old(self).disk_selection@
                }),
            },
            same_screens(*final(self), Wizard { disk_selection: final(self).disk_selection, ..*old(self) }),
    {
        self.disk_selection.record_detection(outcome);
    }

    /// Hands a message of the installation to the installation screen.
    pub fn apply_install_message(&mut self, msg: InstallMessage)
        requires
            old(self).wf(),
        ensures
            final(self).wf(),
            final(self).app == old(self).app,
            final(self).shown == old(self).shown,
            message_applied(old(self).installation, final(self).installation, msg),
            same_screens(*final(self), Wizard { installation: final(self).installation, ..*old(self) }),
    {
        self.installation.apply_message(msg);
    }

    /// Gives the confirmation field the focus, as it has whenever it is
    /// drawn.
    pub fn focus_confirmation_input(&mut self)
        requires
            old(self).wf(),
        ensures
            final(self).wf(),
            final(self).app == old(self).app,
            final(self).shown == old(self).shown,
            final(self).confirmation@
                == (ConfirmView { input: InputView { focused: true, ..old(self).confirmation@.input }, ..old(self).confirmation@ }),
            same_screens(*final(self), Wizard { confirmation: final(self).confirmation, ..*old(self) }),
    {
        self.confirmation.focus_input();
    }

    /// The configuration to install: the one confirmed on the review screen.
    pub fn installation_config(&self) -> (r: Option<&InstallConfig>)
        ensures
            match r {
                Some(c) => self.confirmation@.config == Some(*c),
                None => self.confirmation@.config is None,
            },
    {
        self.confirmation.get_config()
    }

    /// The help lines of the current screen.
    pub fn help_content(&self) -> (r: Vec<String>)
        ensures
            string_views(r@) == help_of(self.app.current_screen),
    {
        match self.app.current_screen {
            Screen::Welcome => self.welcome.help_content(),
            Screen::SystemInfo => self.system_info.help_content(),
            Screen::DiskSelection => self.disk_selection.help_content(),
            Screen::PartitionPlanning => self.partition_planning.help_content(),
            Screen::Configuration => self.configuration.help_content(),
            Screen::Confirmation => self.confirmation.help_content(),
            Screen::Installation => self.installation.help_content(),
            Screen::Complete => self.success.help_content(),
        }
    }

    /// Whether the current screen allows going on.
    fn current_may_proceed(&self) -> (r: bool)
        requires
            self.wf(),
        ensures
            r == may_proceed(*self, self.app.current_screen),
    {
        match self.app.current_screen {
            Screen::Welcome => self.welcome.can_proceed(),
            Screen::SystemInfo => self.system_info.can_proceed(),
            Screen::DiskSelection => self.disk_selection.can_proceed(),
            Screen::PartitionPlanning => self.partition_planning.can_proceed(),
            Screen::Configuration => self.configuration.can_proceed(),
            Screen::Confirmation => self.confirmation.can_proceed(),
            Screen::Installation => self.installation.can_proceed(),
            Screen::Complete => self.success.can_proceed(),
        }
    }

    /// Hands `key` to the current screen and gives back its answer.
    fn route_to_screen(&mut self, key: Key) -> (action: ScreenAction)
        requires
            old(self).wf(),
        ensures
            final(self).wf(),
            final(self).app == old(self).app,
            final(self).shown == old(self).shown,
            routed(*old(self), key, *final(self), action),
    {
        match self.app.current_screen {
            Screen::Welcome => self.welcome.handle_input(key),
            Screen::SystemInfo => self.system_info.handle_input(key),
            Screen::DiskSelection => self.disk_selection.handle_input(key),
            Screen::PartitionPlanning => self.partition_planning.handle_input(key),
            Screen::Configuration => self.configuration.handle_input(key),
            Screen::Confirmation => self.confirmation.handle_input(key),
            Screen::Installation => self.installation.handle_input(key),
            Screen::Complete => self.success.handle_input(key),
        }
    }

    /// Takes one key press. Ctrl+C asks to quit; `?` shows or hides the
    /// help; while the help is shown, any key hides it. Otherwise the key
    /// goes to the current screen, whose answer is given back: going on
    /// (when the screen allows it), going back (where allowed), quitting, or
    /// toggling the help.
    pub fn handle_key(&mut self, key: Key, ctrl: bool) -> (r: Option<ScreenAction>)
        requires
            old(self).wf(),
        ensures
            final(self).wf(),
            final(self).shown == old(self).shown,
            final(self).app.mode == old(self).app.mode,
            final(self).app.dry_run == old(self).app.dry_run,
            ctrl && key == Key::Char('c') ==> r is None && final(self).app
                == (App { should_exit: true, ..old(self).app }) && same_screens(*final(self), *old(self)),
            !(ctrl && key == Key::Char('c')) && (key == Key::Char('?') || old(self).app.help_visible)
                ==> r is None && final(self).app
                    == (App { help_visible: !old(self).app.help_visible, ..old(self).app })
                    && same_screens(*final(self), *old(self)),
            !(ctrl && key == Key::Char('c')) && !(key == Key::Char('?') || old(self).app.help_visible)
                ==> (r matches Some(a) && {
                    let mid = Wizard { app: old(self).app, shown: old(self).shown, ..*final(self) };
                    &&& routed(*old(self), key, mid, a)
                    &&& final(self).app.current_screen == screen_after(mid, a)
                    &&& final(self).app.should_exit == (old(self).app.should_exit || a == ScreenAction::Exit)
                    &&& final(self).app.help_visible == (old(self).app.help_visible != (a == ScreenAction::ToggleHelp))
                }),
    {
        if ctrl && key == Key::Char('c') {
            self.app.exit();
            return None;
        }
        if key == Key::Char('?') {
            self.app.toggle_help();
            return None;
        }
        if self.app.help_visible {
            self.app.toggle_help();
            return None;
        }
        let action = self.route_to_screen(key);
        match action {
            ScreenAction::Next => {
                if self.current_may_proceed() {
                    let _ = self.app.next_screen();
                }
            },
            ScreenAction::Back => {
                let _ = self.app.previous_screen();
            },
            ScreenAction::Exit => {
                self.app.exit();
            },
            ScreenAction::ToggleHelp => {
                self.app.toggle_help();
            },
            ScreenAction::Stay => {},
        }
        Some(action)
    }

    /// Whether the application is to end.
    pub fn should_exit(&self) -> (r: bool)
        ensures
            r == self.app.should_exit,
    {
        self.app.should_exit
    }
}

/// The installation is never reached but from the review screen, and only
/// once DELETE was typed there for a configuration: no key answer leads to
/// the installation screen from anywhere else or before that confirmation.
pub proof fn lemma_install_only_after_confirmation(w: Wizard, a: ScreenAction)
    requires
        w.app.current_screen != Screen::Installation,
        screen_after(w, a) == Screen::Installation,
    ensures
        w.app.current_screen == Screen::Confirmation,
        a == ScreenAction::Next,
        w.confirmation@.config is Some,
        w.confirmation@.confirmed,
{
}

/// `new` is `old` after the current screen took `key` and answered
/// `action`: that screen changed as it does for the key, and no other
/// screen changed.
pub open spec fn routed(old: Wizard, key: Key, new: Wizard, action: ScreenAction) -> bool {
    match old.app.current_screen {
        Screen::Welcome => action == welcome_action(old.welcome@, key) && same_screens(new, old),
        Screen::SystemInfo => action == system_info_action(key) && same_screens(new, old),
        Screen::DiskSelection => {
            &&& action == disk_selection_action(old.disk_selection@, key)
            &&& new.disk_selection@ == match key {
                Key::Up => DiskSelectionView { selected: selected_after_up(old.disk_selection@), ..old.disk_selection@ },
                Key::Down => DiskSelectionView { selected: selected_after_down(old.disk_selection@), ..old.disk_selection@ },
                _ => old.disk_selection@,
            }
            &&& same_screens(new, Wizard { disk_selection: new.disk_selection, ..old })
        },
        Screen::PartitionPlanning => action == partition_planning_action(key) && same_screens(new, old),
        Screen::Configuration => {
            &&& configuration_step(old.configuration@, key, new.configuration@, action)
            &&& same_screens(new, Wizard { configuration: new.configuration, ..old })
        },
        Screen::Confirmation => {
            &&& confirmation_step(old.confirmation@, key, new.confirmation@, action)
            &&& same_screens(new, Wizard { confirmation: new.confirmation, ..old })
        },
        Screen::Installation => {
            &&& action == installation_action(old.installation, key)
            &&& new.installation == InstallationScreen {
                scroll_position: match key {
                    Key::Up => scrolled_up(old.installation.scroll_position),
                    Key::Down => scrolled_down(old.installation.scroll_position, old.installation.log_lines@.len()),
                    _ => old.installation.scroll_position,
                },
                ..old.installation
            }
            &&& same_screens(new, Wizard { installation: new.installation, ..old })
        },
        Screen::Complete => {
            &&& action == success_action(key)
            &&& new.success.selected_option() == match (standard_action(key), key) {
                (None, Key::Up) | (None, Key::Down) => if old.success.selected_option() == 0 { 1nat } else { 0nat },
                _ => old.success.selected_option(),
            }
            &&& same_screens(new, Wizard { success: new.success, ..old })
        },
    }
}

/// The screens of `a` and `b` are in the same state.
pub open spec fn same_screens(a: Wizard, b: Wizard) -> bool {
    &&& a.welcome@ == b.welcome@
    &&& a.system_info == b.system_info
    &&& a.disk_selection@ == b.disk_selection@
    &&& a.partition_planning@ == b.partition_planning@
    &&& a.configuration@ == b.configuration@
    &&& a.confirmation@ == b.confirmation@
    &&& a.installation == b.installation
    &&& a.success == b.success
}

/// `new` is `old` after entering the partition planning screen: the layout
/// is made for the selected disk and the detected boot mode, if a disk is
/// selected.
pub open spec fn entered_partition_planning(old: Wizard, new: Wizard) -> bool {
    if old.disk_selection@.selected < old.disk_selection@.disks.len() {
        let d = old.disk_selection@.disks[old.disk_selection@.selected as int];
        &&& new.partition_planning@.boot_mode == old.welcome@.boot_mode
        &&& new.partition_planning@.disk_path == d.path@
        &&& new.partition_planning@.disk_size == d.size
        &&& layout_for(old.welcome@.boot_mode, new.partition_planning@.partitions, d.size as int)
    } else {
        new.partition_planning@ == old.partition_planning@
    }
}

/// `new` is `old` after entering the configuration screen: the boot loader
/// suits the detected boot mode, and the disk and partition choices are
/// those of the partition plan.
pub open spec fn entered_configuration(old: Wizard, new: Wizard) -> bool {
    let c = new.configuration@.config;
    let p = old.partition_planning@;
    &&& new.configuration@ == (ConfigView { config: c, ..old.configuration@ })
    &&& c.bootloader == loader_for(old.welcome@.boot_mode)
    &&& c.disk_path@ == p.disk_path
    &&& c.disk_size == p.disk_size
    &&& c.swap_size_gb == SWAP_BYTES / 1_000_000_000
    &&& c.root_filesystem@ == "ext4"@
    &&& !c.luks_encryption
    &&& c.luks_passphrase@.len() == 0
    &&& c.hostname == old.configuration@.config.hostname
    &&& c.user == old.configuration@.config.user
    &&& c.timezone == old.configuration@.config.timezone
    &&& c.locale == old.configuration@.config.locale
    &&& c.keymap == old.configuration@.config.keymap
    &&& c.network_manager == old.configuration@.config.network_manager
}

/// What entering the current screen of `old` does, and the work it asks
/// for.
pub open spec fn entered(old: Wizard, new: Wizard, effect: EnterEffect) -> bool {
    match old.app.current_screen {
        Screen::Welcome => effect == EnterEffect::RunPreflightChecks
            && new.welcome@ == (WelcomeView { button: ButtonView { focused: true, ..old.welcome@.button }, ..old.welcome@ })
            && same_screens(new, Wizard { welcome: new.welcome, ..old }),
        Screen::SystemInfo => effect == EnterEffect::Nothing
            && new.system_info.boot_mode == ShownBootMode::Uefi
            && new.system_info.cpu@ == "Simulated CPU"@
            && new.system_info.cores == 8
            && new.system_info.arch@ == "x86_64"@
            && same_screens(new, Wizard { system_info: new.system_info, ..old }),
        Screen::DiskSelection => effect == (if old.disk_selection@.detected {
            EnterEffect::Nothing
        } else {
            EnterEffect::DetectDisks
        }) && same_screens(new, old),
        Screen::PartitionPlanning => effect == EnterEffect::Nothing && entered_partition_planning(old, new)
            && same_screens(new, Wizard { partition_planning: new.partition_planning, ..old }),
        Screen::Configuration => effect == EnterEffect::Nothing && entered_configuration(old, new)
            && same_screens(new, Wizard { configuration: new.configuration, ..old }),
        Screen::Confirmation => effect == EnterEffect::Nothing
            && new.confirmation@.config == Some(old.configuration@.config)
            && !new.confirmation@.confirmed
            && same_screens(new, Wizard { confirmation: new.confirmation, ..old }),
        Screen::Installation => (if old.confirmation@.config is Some {
            &&& effect == EnterEffect::StartInstallation
            &&& new.installation.is_running
            &&& !new.installation.is_complete && !new.installation.has_error
            &&& new.installation.error_message is None
            &&& string_views(new.installation.log_lines@) == seq!["Starting installation..."@]
            &&& new.installation.progress == old.installation.progress
            &&& new.installation.scroll_position == old.installation.scroll_position
        } else {
            effect == EnterEffect::Nothing && new.installation == old.installation
        }) && same_screens(new, Wizard { installation: new.installation, ..old }),
        Screen::Complete => effect == EnterEffect::Nothing && same_screens(new, old),
    }
}

impl Wizard {
    /// Leaves the screen last entered.
    fn leave_shown(&mut self)
        requires
            old(self).wf(),
        ensures
            final(self).wf(),
            same_screens(*final(self), *old(self)),
            final(self).app == old(self).app,
            final(self).shown == old(self).shown,
    {
        match self.shown {
            Screen::Welcome => self.welcome.on_exit(),
            Screen::SystemInfo => self.system_info.on_exit(),
            Screen::DiskSelection => self.disk_selection.on_exit(),
            Screen::PartitionPlanning => self.partition_planning.on_exit(),
            Screen::Configuration => self.configuration.on_exit(),
            Screen::Confirmation => self.confirmation.on_exit(),
            Screen::Installation => self.installation.on_exit(),
            Screen::Complete => self.success.on_exit(),
        }
    }

    /// Enters the partition planning screen.
    fn enter_partition_planning(&mut self)
        requires
            old(self).wf(),
        ensures
            final(self).wf(),
            entered_partition_planning(*old(self), *final(self)),
            final(self).app == old(self).app,
            final(self).shown == old(self).shown,
            same_screens(*final(self), Wizard { partition_planning: final(self).partition_planning, ..*old(self) }),
    {
        match self.disk_selection.selected_disk() {
            Some(disk) => {
                let path = disk.path.clone();
                let size = disk.size;
                let mode = self.welcome.boot_mode();
                self.partition_planning.set_disk(mode, path, size);
            },
            None => {},
        }
        self.partition_planning.on_enter();
    }

    /// Enters the configuration screen.
    fn enter_configuration(&mut self)
        requires
            old(self).wf(),
        ensures
            final(self).wf(),
            entered_configuration(*old(self), *final(self)),
            final(self).app == old(self).app,
            final(self).shown == old(self).shown,
            same_screens(*final(self), Wizard { configuration: final(self).configuration, ..*old(self) }),
    {
        let mode = self.welcome.boot_mode();
        self.configuration.set_boot_mode(mode);
        let disk_path = String::from_str(self.partition_planning.disk_path());
        let disk_size = self.partition_planning.disk_size();
        let swap_size_gb = self.partition_planning.swap_size_gb();
        let root_filesystem = String::from_str(self.partition_planning.root_filesystem());
        let luks_enabled = self.partition_planning.luks_enabled();
        let luks_passphrase = String::from_str(self.partition_planning.luks_passphrase());
        self.configuration.set_disk_config(
            disk_path,
            disk_size,
            swap_size_gb,
            root_filesystem,
            luks_enabled,
            luks_passphrase,
        );
        self.configuration.on_enter();
    }

    /// Enters the confirmation screen with the configuration to review.
    fn enter_confirmation(&mut self)
        requires
            old(self).wf(),
        ensures
            final(self).wf(),
            final(self).confirmation@.config == Some(old(self).configuration@.config),
            !final(self).confirmation@.confirmed,
            final(self).app == old(self).app,
            final(self).shown == old(self).shown,
            same_screens(*final(self), Wizard { confirmation: final(self).confirmation, ..*old(self) }),
    {
        let config = self.configuration.get_config().clone();
        self.confirmation.set_config(config);
        self.confirmation.on_enter();
    }

    /// Enters the installation screen; starts it when a configuration was
    /// confirmed, and says whether it did.
    fn enter_installation(&mut self) -> (started: bool)
        requires
            old(self).wf(),
        ensures
            final(self).wf(),
            started == old(self).confirmation@.config is Some,
            started ==> final(self).installation.is_running,
            started ==> !final(self).installation.is_complete && !final(self).installation.has_error
                && final(self).installation.error_message is None
                && string_views(final(self).installation.log_lines@) == seq!["Starting installation..."@]
                && final(self).installation.progress == old(self).installation.progress
                && final(self).installation.scroll_position == old(self).installation.scroll_position,
            !started ==> final(self).installation == old(self).installation,
            final(self).app == old(self).app,
            final(self).shown == old(self).shown,
            same_screens(*final(self), Wizard { installation: final(self).installation, ..*old(self) }),
    {
        let start = self.confirmation.get_config().is_some();
        if start {
            self.installation.start_installation();
        }
        self.installation.on_enter();
        start
    }

    /// Handles a change of screen: when the current screen differs from
    /// the one last entered, the current one is entered and given what the
    /// earlier screens decided, and the work it needs from the system is
    /// named. The partition plan is laid out for the selected disk and the
    /// detected boot mode; the configuration takes the boot loader for the
    /// boot mode and the disk and partition choices; the review screen gets
    /// the configuration; the installation starts once a configuration was
    /// confirmed.
    pub fn sync_screens(&mut self) -> (effect: EnterEffect)
        requires
            old(self).wf(),
        ensures
            final(self).wf(),
            final(self).app == old(self).app,
            final(self).shown == old(self).app.current_screen,
            old(self).shown == old(self).app.current_screen ==> effect == EnterEffect::Nothing,
            old(self).shown != old(self).app.current_screen ==> entered(*old(self), *final(self), effect),
    {
        if self.shown == self.app.current_screen {
            return EnterEffect::Nothing;
        }
        self.leave_shown();
        let effect = match self.app.current_screen {
            Screen::Welcome => {
                self.welcome.on_enter();
                EnterEffect::RunPreflightChecks
            },
            Screen::SystemInfo => {
                self.system_info.on_enter();
                EnterEffect::Nothing
            },
            Screen::DiskSelection => {
                self.disk_selection.on_enter();
                if self.disk_selection.needs_detection() {
                    EnterEffect::DetectDisks
                } else {
                    EnterEffect::Nothing
                }
            },
            Screen::PartitionPlanning => {
                self.enter_partition_planning();
                EnterEffect::Nothing
            },
            Screen::Configuration => {
                self.enter_configuration();
                EnterEffect::Nothing
            },
            Screen::Confirmation => {
                self.enter_confirmation();
                EnterEffect::Nothing
            },
            Screen::Installation => {
                if self.enter_installation() {
                    EnterEffect::StartInstallation
                } else {
                    EnterEffect::Nothing
                }
            },
            Screen::Complete => {
                self.success.on_enter();
                EnterEffect::Nothing
            },
        };
        self.shown = self.app.current_screen;
        effect
    }
}

} // verus!
