//! The first screen: the pre-flight checks and the boot mode, and a
//! Continue button that leads on once every check passed.

use vstd::prelude::*;
use crate::error::InstallerError;
use crate::nixos::disk::{Disk, disk_installable};
use crate::system::bootmode::BootMode;
use crate::system::network::NetworkStatus;
use crate::text::{string_views, strings_of};
use crate::ui::components::{Button, ButtonStyle, Focusable};
use crate::ui::components::button::ButtonView;
use crate::ui::utils::Key;
use super::{Screen, ScreenAction, standard_action};

verus! {

/// The outcome of the pre-flight checks.
#[derive(Debug, Clone, Copy, PartialEq, Eq, Structural)]
pub struct PreFlightChecks {
    /// The installer runs as root (or simulates)
    pub root_access: bool,
    /// The network can be reached
    pub network: bool,
    /// The machine runs NixOS installation media
    pub nixos_iso: bool,
    /// There is a disk the system can be installed on
    pub disk_space: bool,
}

impl Default for PreFlightChecks {
    /// Every check passed, until they are run.
    fn default() -> (c: Self)
        ensures
            c.root_access && c.network && c.nixos_iso && c.disk_space,
    {
        PreFlightChecks { root_access: true, network: true, nixos_iso: true, disk_space: true }
    }
}

/// Whether every check passed.
pub open spec fn checks_pass(c: PreFlightChecks) -> bool {
    c.root_access && c.network && c.nixos_iso && c.disk_space
}

/// The welcome screen.
pub struct WelcomeScreen {
    is_mock: bool,
    is_dry_run: bool,
    checks: PreFlightChecks,
    /// The detected boot mode, which later screens build on
    pub boot_mode: BootMode,
    continue_button: Button,
}

/// The welcome screen, seen from outside.
pub struct WelcomeView {
    pub is_mock: bool,
    pub is_dry_run: bool,
    pub checks: PreFlightChecks,
    pub boot_mode: BootMode,
    pub button: ButtonView,
}

impl View for WelcomeScreen {
    type V = WelcomeView;

    closed spec fn view(&self) -> WelcomeView {
        WelcomeView {
            is_mock: self.is_mock,
            is_dry_run: self.is_dry_run,
            checks: self.checks,
            boot_mode: self.boot_mode,
            button: self.continue_button@,
        }
    }
}

/// Whether some disk can take the system.
pub open spec fn some_disk_installable(disks: Seq<Disk>) -> bool {
    exists|k: int| 0 <= k < disks.len() && disk_installable(#[trigger] disks[k])
}

/// The lines of the welcome screen's help.
pub open spec fn welcome_help() -> Seq<Seq<char>> {
    seq![
        "# Welcome Screen"@,
        ""@,
        "This screen performs pre-flight checks to ensure your system is ready"@,
        "for NixOS installation."@,
        ""@,
        "# Pre-Flight Checks"@,
        ""@,
        "- Root Access: The installer must run with root privileges"@,
        "- Network Connectivity: Required to download NixOS packages"@,
        "- NixOS Installation Media: Must be running from official ISO"@,
        "- Sufficient Disk Space: At least 10GB free space required"@,
        ""@,
        "# Boot Modes"@,
        ""@,
        "The installer automatically detects your system's boot mode:"@,
        ""@,
        "- UEFI: Modern boot mode, recommended for new systems"@,
        "  Supports GPT partition tables and Secure Boot"@,
        ""@,
        "- Legacy BIOS: Older boot mode for legacy hardware"@,
        "  Uses MBR partition tables (2TB disk limit)"@,
        ""@,
        "# Keyboard Shortcuts"@,
        ""@,
        "- Enter: Press Continue button (when checks pass)"@,
        "- ?: Toggle this help panel"@,
        "- q/Esc: Quit the installer"@,
        ""@,
        "# How to Continue"@,
        ""@,
        "Once all pre-flight checks pass, the Continue button will be enabled"@,
        "Press Enter to proceed to disk selection."@,
    ]
}

/// What the welcome screen does on `key`: the keys every screen knows, then
/// Enter leads on when the button has the focus and every check passed.
pub open spec fn welcome_action(v: WelcomeView, key: Key) -> ScreenAction {
    match standard_action(key) {
        Some(a) => a,
        None => match key {
            Key::Enter => if v.button.focused && checks_pass(v.checks) {
                ScreenAction::Next
            } else {
                ScreenAction::Stay
            },
            _ => ScreenAction::Stay,
        },
    }
}

impl WelcomeScreen {
    /// The screen before its checks ran: every check counts as passed, the
    /// boot mode is unknown, the button does not have the focus.
    pub fn new(is_mock: bool, is_dry_run: bool) -> (s: Self)
        ensures
            s@.is_mock == is_mock,
            s@.is_dry_run == is_dry_run,
            checks_pass(s@.checks),
            s@.boot_mode == BootMode::Unknown,
            !s@.button.focused,
            s@.button.label == "Continue"@,
            s@.button.enabled,
            s@.button.style == ButtonStyle::Primary,
    {
        WelcomeScreen {
            is_mock,
            is_dry_run,
            checks: PreFlightChecks::default(),
            boot_mode: BootMode::Unknown,
            continue_button: Button::new("Continue"),
        }
    }

    /// Whether every pre-flight check passed.
    pub fn all_checks_passed(&self) -> (r: bool)
        ensures
            r == checks_pass(self@.checks),
            r == (self@.checks.root_access && self@.checks.network && self@.checks.nixos_iso
                && self@.checks.disk_space),
    {
        self.checks.root_access && self.checks.network && self.checks.nixos_iso && self.checks.disk_space
    }

    /// Whether the installer simulates the system.
    pub fn is_mock(&self) -> (r: bool)
        ensures
            r == self@.is_mock,
    {
        self.is_mock
    }

    /// Whether actions are only shown.
    pub fn is_dry_run(&self) -> (r: bool)
        ensures
            r == self@.is_dry_run,
    {
        self.is_dry_run
    }

    /// The detected boot mode.
    pub fn boot_mode(&self) -> (r: BootMode)
        ensures
            r == self@.boot_mode,
    {
        self.boot_mode
    }

    /// The Continue button.
    pub fn continue_button(&self) -> (r: &Button)
        ensures
            r@ == self@.button,
    {
        &self.continue_button
    }

    /// The outcome of the checks.
    pub fn checks(&self) -> (r: PreFlightChecks)
        ensures
            r == self@.checks,
    {
        self.checks
    }

    /// Takes in what the system reported: root access holds in a
    /// simulation or for root; the network check passes when the network
    /// is connected; the NixOS check passes when the machine runs NixOS;
    /// the disk check passes when some disk can take the system; a report
    /// that failed fails its check, and a boot mode that could not be told
    /// is unknown.
    pub fn record_checks(
        &mut self,
        is_root: bool,
        network: Result<NetworkStatus, InstallerError>,
        nixos: Result<bool, InstallerError>,
        disks: Result<Vec<Disk>, InstallerError>,
        boot_mode: Result<BootMode, InstallerError>,
    )
        ensures
            final(self)@.checks == (PreFlightChecks {
                root_access: old(self)@.is_mock || is_root,
                network: network matches Ok(s) && s == NetworkStatus::Connected,
                nixos_iso: nixos matches Ok(b) && b,
                disk_space: disks matches Ok(d) && some_disk_installable(d@),
            }),
            final(self)@.boot_mode == match boot_mode {
                Ok(m) => m,
                Err(_) => BootMode::Unknown,
            },
            final(self)@.is_mock == old(self)@.is_mock,
            final(self)@.is_dry_run == old(self)@.is_dry_run,
            final(self)@.button == old(self)@.button,
    {
        self.checks.root_access = self.is_mock || is_root;
        self.checks.network = match network {
            Ok(status) => status.is_connected(),
            Err(_) => false,
        };
        self.checks.nixos_iso = match nixos {
            Ok(b) => b,
            Err(_) => false,
        };
        self.checks.disk_space = match disks {
            Ok(d) => {
                let mut found = false;
                let mut i: usize = 0;
                while i < d.len()
                    invariant
                        i <= d@.len(),
                        found == exists|k: int| 0 <= k < i && disk_installable(#[trigger] d@[k]),
                    decreases d@.len() - i,
                {
                    if d[i].is_installable() {
                        found = true;
                    }
                    i = i + 1;
                }
                found
            },
            Err(_) => false,
        };
        self.boot_mode = match boot_mode {
            Ok(m) => m,
            Err(_) => BootMode::Unknown,
        };
    }
}

impl Screen for WelcomeScreen {
    open spec fn screen_wf(&self) -> bool {
        true
    }

    fn handle_input(&mut self, key: Key) -> (action: ScreenAction)
        ensures
            action == welcome_action(old(self)@, key),
            final(self)@ == old(self)@,
    {
        if let Some(action) = self.handle_standard_input(key) {
            return action;
        }
        match key {
            Key::Enter => {
                if self.continue_button.is_focused() && self.all_checks_passed() {
                    ScreenAction::Next
                } else {
                    ScreenAction::Stay
                }
            },
            _ => ScreenAction::Stay,
        }
    }

    /// Gives the Continue button the focus; the checks themselves are run
    /// by the caller, which hands their outcome to `record_checks`.
    fn on_enter(&mut self)
        ensures
            final(self)@ == (WelcomeView { button: ButtonView { focused: true, ..old(self)@.button }, ..old(self)@ }),
    {
        self.continue_button.set_focused(true);
    }

    /// Nothing happens when the screen is left.
    fn on_exit(&mut self)
        ensures
            final(self)@ == old(self)@,
    {
    }

    fn title(&self) -> (r: &str)
        ensures
            r@ == "Welcome"@,
    {
        "Welcome"
    }

    fn help_content(&self) -> (r: Vec<String>)
        ensures
            string_views(r@) == welcome_help(),
    {
    strings_of(&[
        "# Welcome Screen",
        "",
        "This screen performs pre-flight checks to ensure your system is ready",
        "for NixOS installation.",
        "",
        "# Pre-Flight Checks",
        "",
        "- Root Access: The installer must run with root privileges",
        "- Network Connectivity: Required to download NixOS packages",
        "- NixOS Installation Media: Must be running from official ISO",
        "- Sufficient Disk Space: At least 10GB free space required",
        "",
        "# Boot Modes",
        "",
        "The installer automatically detects your system's boot mode:",
        "",
        "- UEFI: Modern boot mode, recommended for new systems",
        "  Supports GPT partition tables and Secure Boot",
        "",
        "- Legacy BIOS: Older boot mode for legacy hardware",
        "  Uses MBR partition tables (2TB disk limit)",
        "",
        "# Keyboard Shortcuts",
        "",
        "- Enter: Press Continue button (when checks pass)",
        "- ?: Toggle this help panel",
        "- q/Esc: Quit the installer",
        "",
        "# How to Continue",
        "",
        "Once all pre-flight checks pass, the Continue button will be enabled",
        "Press Enter to proceed to disk selection.",
    ])
    }

    fn can_proceed(&self) -> (r: bool)
        ensures
            r == checks_pass(self@.checks),
            r == (self@.checks.root_access && self@.checks.network && self@.checks.nixos_iso
                && self@.checks.disk_space),
    {
        self.all_checks_passed()
    }

    fn can_go_back(&self) -> (r: bool)
        ensures
            !r,
    {
        false
    }
}

/// The pre-flight checks pass exactly when root access, the network, the
/// NixOS media and a usable disk all passed: a single failed check, the
/// network among them, keeps the user on the welcome screen.
pub proof fn lemma_checks_pass_needs_each(c: PreFlightChecks)
    ensures
        checks_pass(c) <==> (c.root_access && c.network && c.nixos_iso && c.disk_space),
        !c.network ==> !checks_pass(c),
        !c.root_access ==> !checks_pass(c),
        !c.nixos_iso ==> !checks_pass(c),
        !c.disk_space ==> !checks_pass(c),
{
}

/// The welcome screen leads on only on Enter, with the Continue button
/// focused and every one of the four checks passed; and then it does.
pub proof fn lemma_welcome_leads_on_only_when_ready(v: WelcomeView, key: Key)
    ensures
        welcome_action(v, key) == ScreenAction::Next <==> (key == Key::Enter && v.button.focused
            && v.checks.root_access && v.checks.network && v.checks.nixos_iso && v.checks.disk_space),
{
}

/// Whatever else the system reported, a network that is not connected
/// (or could not be checked) fails the pre-flight checks.
pub proof fn lemma_no_network_no_proceed(
    is_mock: bool,
    is_root: bool,
    network: Result<NetworkStatus, InstallerError>,
    nixos: Result<bool, InstallerError>,
    disks: Seq<Disk>,
)
    requires
        !(network matches Ok(s) && s == NetworkStatus::Connected),
    ensures
        !checks_pass(PreFlightChecks {
            root_access: is_mock || is_root,
            network: network matches Ok(s) && s == NetworkStatus::Connected,
            nixos_iso: nixos matches Ok(b) && b,
            disk_space: some_disk_installable(disks),
        }),
{
}

} // verus!
