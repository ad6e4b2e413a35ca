//! The screen that shows how the machine started and what hardware it has.

use vstd::prelude::*;
use vstd::string::*;
use crate::text::{string_views, strings_of};
use crate::ui::utils::Key;
use super::{Screen, ScreenAction};

verus! {

/// How the machine started, as this screen shows it.
#[derive(Debug, Clone, Copy, PartialEq, Eq, Structural)]
pub enum BootMode {
    /// UEFI boot
    Uefi,
    /// Legacy BIOS boot
    Bios,
    /// Could not be told
    Unknown,
}

/// The name shown for a boot mode.
pub open spec fn shown_mode_name(m: BootMode) -> Seq<char> {
    match m {
        BootMode::Uefi => "UEFI"@,
        BootMode::Bios => "Legacy BIOS"@,
        BootMode::Unknown => "Unknown"@,
    }
}

/// The description shown for a boot mode.
pub open spec fn shown_mode_description(m: BootMode) -> Seq<char> {
    match m {
        BootMode::Uefi => "Modern boot mode with GPT partition table support"@,
        BootMode::Bios => "Legacy boot mode with MBR partition table"@,
        BootMode::Unknown => "Unable to determine boot mode"@,
    }
}

impl BootMode {
    /// The name shown for the mode.
    pub fn as_str(&self) -> (r: &'static str)
        ensures
            r@ == shown_mode_name(*self),
    {
        match self {
            BootMode::Uefi => "UEFI",
            BootMode::Bios => "Legacy BIOS",
            BootMode::Unknown => "Unknown",
        }
    }

    /// What the mode means.
    pub fn description(&self) -> (r: &'static str)
        ensures
            r@ == shown_mode_description(*self),
    {
        match self {
            BootMode::Uefi => "Modern boot mode with GPT partition table support",
            BootMode::Bios => "Legacy boot mode with MBR partition table",
            BootMode::Unknown => "Unable to determine boot mode",
        }
    }
}

/// The system information screen. The amount of memory, a fractional
/// number of gigabytes, is kept by the front end that draws it.
pub struct SystemInfoScreen {
    /// How the machine started
    pub boot_mode: BootMode,
    /// Processor model
    pub cpu: String,
    /// Number of processor cores
    pub cores: usize,
    /// Architecture, such as `x86_64`
    pub arch: String,
}

/// The lines of the system information screen's help.
pub open spec fn system_info_help() -> Seq<Seq<char>> {
    seq![
        "# System Information Screen"@,
        ""@,
        "This screen displays detected system information including:"@,
        ""@,
        "- Boot Mode: UEFI or Legacy BIOS"@,
        "- CPU: Processor model and core count"@,
        "- RAM: Total system memory"@,
        "- Architecture: System architecture (x86_64, aarch64, etc.)"@,
        ""@,
        "# Boot Modes"@,
        ""@,
        "- UEFI: Modern boot mode, recommended for new systems"@,
        "  Supports GPT partition tables and Secure Boot"@,
        ""@,
        "- Legacy BIOS: Older boot mode for legacy hardware"@,
        "  Uses MBR partition tables (2TB disk limit)"@,
        ""@,
        "# Keyboard Shortcuts"@,
        ""@,
        "- Enter: Continue to disk selection"@,
        "- ← / Backspace: Go back to welcome screen"@,
        "- ?: Toggle this help panel"@,
        "- q / Esc: Quit the installer"@,
    ]
}

/// What the system information screen does on `key`: Enter leads on, Left
/// and Backspace go back, `q` and Escape quit, `?` shows the help.
pub open spec fn system_info_action(key: Key) -> ScreenAction {
    match key {
        Key::Enter => ScreenAction::Next,
        Key::Left | Key::Backspace => ScreenAction::Back,
        Key::Char('q') | Key::Esc => ScreenAction::Exit,
        Key::Char('?') => ScreenAction::ToggleHelp,
        _ => ScreenAction::Stay,
    }
}

impl SystemInfoScreen {
    /// The screen before anything was detected.
    pub fn new() -> (s: Self)
        ensures
            s.boot_mode == BootMode::Unknown,
            s.cpu@ == "Unknown CPU"@,
            s.cores == 1,
            s.arch@ == "x86_64"@,
    {
        SystemInfoScreen {
            boot_mode: BootMode::Unknown,
            cpu: String::from_str("Unknown CPU"),
            cores: 1,
            arch: String::from_str("x86_64"),
        }
    }

    /// The same screen showing `boot_mode`.
    pub fn with_boot_mode(self, boot_mode: BootMode) -> (s: Self)
        ensures
            s.boot_mode == boot_mode,
            s.cpu == self.cpu,
            s.cores == self.cores,
            s.arch == self.arch,
    {
        SystemInfoScreen { boot_mode, ..self }
    }

    /// The same screen showing the given processor and architecture.
    pub fn with_system_info(self, cpu: String, cores: usize, arch: String) -> (s: Self)
        ensures
            s.boot_mode == self.boot_mode,
            s.cpu == cpu,
            s.cores == cores,
            s.arch == arch,
    {
        SystemInfoScreen { cpu, cores, arch, ..self }
    }
}

impl Default for SystemInfoScreen {
    fn default() -> (s: Self)
        ensures
            s.boot_mode == BootMode::Unknown,
            s.cpu@ == "Unknown CPU"@,
            s.cores == 1,
            s.arch@ == "x86_64"@,
    {
        SystemInfoScreen::new()
    }
}

impl Screen for SystemInfoScreen {
    open spec fn screen_wf(&self) -> bool {
        true
    }

    fn handle_input(&mut self, key: Key) -> (action: ScreenAction)
        ensures
            action == system_info_action(key),
            *final(self) == *old(self),
    {
        match key {
            Key::Enter => ScreenAction::Next,
            Key::Left | Key::Backspace => ScreenAction::Back,
            Key::Char('q') | Key::Esc => ScreenAction::Exit,
            Key::Char('?') => ScreenAction::ToggleHelp,
            _ => ScreenAction::Stay,
        }
    }

    /// Shows the simulated machine: UEFI, eight cores of a simulated x86_64
    /// processor.
    fn on_enter(&mut self)
        ensures
            final(self).boot_mode == BootMode::Uefi,
            final(self).cpu@ == "Simulated CPU"@,
            final(self).cores == 8,
            final(self).arch@ == "x86_64"@,
    {
        self.boot_mode = BootMode::Uefi;
        self.cpu = String::from_str("Simulated CPU");
        self.cores = 8;
        self.arch = String::from_str("x86_64");
    }

    /// Nothing happens when the screen is left.
    fn on_exit(&mut self)
        ensures
            *final(self) == *old(self),
    {
    }

    fn title(&self) -> (r: &str)
        ensures
            r@ == "System Information"@,
    {
        "System Information"
    }

    fn help_content(&self) -> (r: Vec<String>)
        ensures
            string_views(r@) == system_info_help(),
    {
    strings_of(&[
        "# System Information Screen",
        "",
        "This screen displays detected system information including:",
        "",
        "- Boot Mode: UEFI or Legacy BIOS",
        "- CPU: Processor model and core count",
        "- RAM: Total system memory",
        "- Architecture: System architecture (x86_64, aarch64, etc.)",
        "",
        "# Boot Modes",
        "",
        "- UEFI: Modern boot mode, recommended for new systems",
        "  Supports GPT partition tables and Secure Boot",
        "",
        "- Legacy BIOS: Older boot mode for legacy hardware",
        "  Uses MBR partition tables (2TB disk limit)",
        "",
        "# Keyboard Shortcuts",
        "",
        "- Enter: Continue to disk selection",
        "- ← / Backspace: Go back to welcome screen",
        "- ?: Toggle this help panel",
        "- q / Esc: Quit the installer",
    ])
    }

    fn can_proceed(&self) -> (r: bool)
        ensures
            r,
    {
        true
    }

    fn can_go_back(&self) -> (r: bool)
        ensures
            r,
    {
        true
    }
}

} // verus!
