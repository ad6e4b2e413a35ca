//! The screen where the target disk is chosen.

use vstd::prelude::*;
use vstd::string::*;
use crate::error::{InstallerError, installer_error_text};
use crate::nixos::disk::{Disk, disk_installable};
use crate::text::{cat, opt_view, string_views, strings_of};
use crate::ui::utils::Key;
use super::{Screen, ScreenAction};

verus! {

/// Why the selected disk deserves a warning.
#[derive(Debug, Clone, Copy, PartialEq, Eq, Structural)]
pub enum DiskWarning {
    /// The disk is read-only
    ReadOnly,
    /// The disk is removable (USB stick, SD card)
    Removable,
    /// The disk is mounted
    Mounted,
    /// The disk is below 8 GB; holds its size in bytes
    TooSmall(u64),
}

/// The warning a disk deserves, the first that applies: read-only, then
/// removable, then mounted, then below 8 GB.
pub open spec fn warning_for(d: Disk) -> Option<DiskWarning> {
    if d.readonly {
        Some(DiskWarning::ReadOnly)
    } else if d.removable {
        Some(DiskWarning::Removable)
    } else if d.mountpoint.is_some() {
        Some(DiskWarning::Mounted)
    } else if d.size < 8_000_000_000 {
        Some(DiskWarning::TooSmall(d.size))
    } else {
        None
    }
}

/// The text of a warning that holds no number.
pub open spec fn warning_text(w: DiskWarning) -> Option<Seq<char>> {
    match w {
        DiskWarning::ReadOnly => Some("⚠ This disk is read-only and cannot be used for installation"@),
        DiskWarning::Removable => Some("⚠ This appears to be a removable disk (USB/SD card)"@),
        DiskWarning::Mounted => Some("⚠ This disk has mounted partitions"@),
        DiskWarning::TooSmall(_) => None,
    }
}

impl DiskWarning {
    /// The warning's text; `None` for a disk that is too small, whose text
    /// gives its size in fractional gigabytes and is written by the front
    /// end.
    pub fn text(&self) -> (r: Option<&'static str>)
        ensures
            match r {
                Some(t) => warning_text(*self) == Some(t@),
                None => warning_text(*self) is None,
            },
    {
        match self {
            DiskWarning::ReadOnly => Some("⚠ This disk is read-only and cannot be used for installation"),
            DiskWarning::Removable => Some("⚠ This appears to be a removable disk (USB/SD card)"),
            DiskWarning::Mounted => Some("⚠ This disk has mounted partitions"),
            DiskWarning::TooSmall(_) => None,
        }
    }
}

/// The disk selection screen.
pub struct DiskSelectionScreen {
    disks: Vec<Disk>,
    selected_index: usize,
    detected: bool,
    error_message: Option<String>,
}

/// The disk selection screen, seen from outside.
pub struct DiskSelectionView {
    pub disks: Seq<Disk>,
    pub selected: nat,
    pub detected: bool,
    pub error: Option<Seq<char>>,
}

impl View for DiskSelectionScreen {
    type V = DiskSelectionView;

    closed spec fn view(&self) -> DiskSelectionView {
        DiskSelectionView {
            disks: self.disks@,
            selected: self.selected_index as nat,
            detected: self.detected,
            error: opt_view(self.error_message),
        }
    }
}

/// Whether the selected disk exists and can take the system.
pub open spec fn selection_installable(v: DiskSelectionView) -> bool {
    v.selected < v.disks.len() && disk_installable(v.disks[v.selected as int])
}

/// The selection after moving up one row.
pub open spec fn selected_after_up(v: DiskSelectionView) -> nat {
    if v.selected > 0 { (v.selected - 1) as nat } else { v.selected }
}

/// The selection after moving down one row.
pub open spec fn selected_after_down(v: DiskSelectionView) -> nat {
    if v.selected + 1 < v.disks.len() { v.selected + 1 } else { v.selected }
}

/// The lines of the disk selection screen's help.
pub open spec fn disk_selection_help() -> Seq<Seq<char>> {
    seq![
        "# Disk Selection Screen"@,
        ""@,
        "Select the disk where NixOS will be installed."@,
        ""@,
        "⚠ WARNING: All data on the selected disk will be permanently erased!"@,
        ""@,
        "## Disk Status Indicators"@,
        ""@,
        "- ✓ Green: Disk is suitable for installation"@,
        "- ✗ Red: Disk cannot be used (too small, read-only, or mounted)"@,
        "- ► Indicates currently selected disk"@,
        ""@,
        "## Disk Requirements"@,
        ""@,
        "- Minimum 8 GB of space"@,
        "- Not read-only"@,
        "- No mounted partitions"@,
        "- Internal disk recommended (USB drives work but not recommended)"@,
        ""@,
        "## Keyboard Shortcuts"@,
        ""@,
        "- ↑/↓: Navigate disk list"@,
        "- Enter: Select disk and continue (only if disk is suitable)"@,
        "- ← / Backspace: Go back to system information"@,
        "- ?: Toggle this help panel"@,
        "- q / Esc: Quit the installer"@,
    ]
}

/// What the disk selection screen does on `key`: Up and Down move the
/// selection, Enter leads on when the selected disk can take the system,
/// Left and Backspace go back, `q` and Escape quit, `?` shows the help.
pub open spec fn disk_selection_action(v: DiskSelectionView, key: Key) -> ScreenAction {
    match key {
        Key::Enter => if selection_installable(v) { ScreenAction::Next } else { ScreenAction::Stay },
        Key::Left | Key::Backspace => ScreenAction::Back,
        Key::Char('q') | Key::Esc => ScreenAction::Exit,
        Key::Char('?') => ScreenAction::ToggleHelp,
        _ => ScreenAction::Stay,
    }
}

impl DiskSelectionScreen {
    /// The screen before detection: no disks, nothing detected yet.
    pub fn new() -> (s: Self)
        ensures
            s@.disks.len() == 0,
            s@.selected == 0,
            !s@.detected,
            s@.error is None,
    {
        DiskSelectionScreen { disks: Vec::new(), selected_index: 0, detected: false, error_message: None }
    }

    /// The selected disk, if there is one.
    pub fn selected_disk(&self) -> (r: Option<&Disk>)
        ensures
            match r {
                Some(d) => self@.selected < self@.disks.len() && *d == self@.disks[self@.selected as int],
                None => self@.selected >= self@.disks.len(),
            },
    {
        if self.selected_index < self.disks.len() {
            Some(&self.disks[self.selected_index])
        } else {
            None
        }
    }

    /// The detected disks.
    pub fn disks(&self) -> (r: &Vec<Disk>)
        ensures
            r@ == self@.disks,
    {
        &self.disks
    }

    /// The row of the selected disk.
    pub fn selected_index(&self) -> (r: usize)
        ensures
            r == self@.selected,
    {
        self.selected_index
    }

    /// Whether the disks were detected.
    pub fn detected(&self) -> (r: bool)
        ensures
            r == self@.detected,
    {
        self.detected
    }

    /// Why detection failed, if it did.
    pub fn error_message(&self) -> (r: Option<&str>)
        ensures
            match r {
                Some(m) => self@.error == Some(m@),
                None => self@.error is None,
            },
    {
        match &self.error_message {
            Some(m) => Some(m.as_str()),
            None => None,
        }
    }

    /// Moves the selection up one row, stopping at the first.
    pub fn select_previous(&mut self)
        ensures
            final(self)@ == (DiskSelectionView { selected: selected_after_up(old(self)@), ..old(self)@ }),
    {
        if self.selected_index > 0 {
            self.selected_index = self.selected_index - 1;
        }
    }

    /// Moves the selection down one row, stopping at the last.
    pub fn select_next(&mut self)
        ensures
            final(self)@ == (DiskSelectionView { selected: selected_after_down(old(self)@), ..old(self)@ }),
    {
        let last = if self.disks.len() > 0 { self.disks.len() - 1 } else { 0 };
        if self.selected_index < last {
            self.selected_index = self.selected_index + 1;
        }
    }

    /// Whether the selected disk can take the system.
    pub fn is_selection_installable(&self) -> (r: bool)
        ensures
            r == selection_installable(self@),
    {
        match self.selected_disk() {
            Some(d) => d.is_installable(),
            None => false,
        }
    }

    /// The warning the selected disk deserves, if any.
    pub fn get_disk_warning(&self) -> (r: Option<DiskWarning>)
        ensures
            r == if self@.selected < self@.disks.len() { warning_for(self@.disks[self@.selected as int]) } else { None },
    {
        let disk = match self.selected_disk() {
            Some(d) => d,
            None => return None,
        };
        if disk.readonly {
            return Some(DiskWarning::ReadOnly);
        }
        if disk.removable {
            return Some(DiskWarning::Removable);
        }
        if disk.mountpoint.is_some() {
            return Some(DiskWarning::Mounted);
        }
        if disk.size < 8_000_000_000 {
            return Some(DiskWarning::TooSmall(disk.size));
        }
        None
    }

    /// Whether the disks still have to be detected.
    pub fn needs_detection(&self) -> (r: bool)
        ensures
            r == !self@.detected,
    {
        !self.detected
    }

    /// Takes in the outcome of disk detection: the disks, with the first
    /// selected and no error; or, on failure, no disks and the reason.
    pub fn record_detection(&mut self, outcome: Result<Vec<Disk>, InstallerError>)
        ensures
            match outcome {
                Ok(d) => final(self)@ == (DiskSelectionView { disks: d@, selected: 0, detected: true, error: None }),
                Err(e) => final(self)@ == (DiskSelectionView {
                    disks: Seq::empty(),
                    error: Some("Failed to detect disks: "@ + installer_error_text(e)),
                    ..old(self)@
                }),
            },
    {
        match outcome {
            Ok(disks) => {
                self.disks = disks;
                self.selected_index = 0;
                self.detected = true;
                self.error_message = None;
            },
            Err(e) => {
                self.error_message = Some(cat("Failed to detect disks: ", e.to_string().as_str()));
                self.disks = Vec::new();
            },
        }
    }
}

impl Default for DiskSelectionScreen {
    fn default() -> (s: Self)
        ensures
            s@.disks.len() == 0,
            s@.selected == 0,
            !s@.detected,
            s@.error is None,
    {
        DiskSelectionScreen::new()
    }
}

impl Screen for DiskSelectionScreen {
    open spec fn screen_wf(&self) -> bool {
        true
    }

    fn handle_input(&mut self, key: Key) -> (action: ScreenAction)
        ensures
            action == disk_selection_action(old(self)@, key),
            final(self)@ == match key {
                Key::Up => DiskSelectionView { selected: selected_after_up(old(self)@), ..old(self)@ },
                Key::Down => DiskSelectionView { selected: selected_after_down(old(self)@), ..old(self)@ },
                _ => old(self)@,
            },
    {
        match key {
            Key::Up => {
                self.select_previous();
                ScreenAction::Stay
            },
            Key::Down => {
                self.select_next();
                ScreenAction::Stay
            },
            Key::Enter => if self.is_selection_installable() { ScreenAction::Next } else { ScreenAction::Stay },
            Key::Left | Key::Backspace => ScreenAction::Back,
            Key::Char('q') | Key::Esc => ScreenAction::Exit,
            Key::Char('?') => ScreenAction::ToggleHelp,
            _ => ScreenAction::Stay,
        }
    }

    /// Nothing happens when the screen is entered.
    fn on_enter(&mut self)
        ensures
            final(self)@ == old(self)@,
    {
    }

    /// Nothing happens when the screen is left.
    fn on_exit(&mut self)
        ensures
            final(self)@ == old(self)@,
    {
    }

    fn title(&self) -> (r: &str)
        ensures
            r@ == "Disk Selection"@,
    {
        "Disk Selection"
    }

    fn help_content(&self) -> (r: Vec<String>)
        ensures
            string_views(r@) == disk_selection_help(),
    {
    strings_of(&[
        "# Disk Selection Screen",
        "",
        "Select the disk where NixOS will be installed.",
        "",
        "⚠ WARNING: All data on the selected disk will be permanently erased!",
        "",
        "## Disk Status Indicators",
        "",
        "- ✓ Green: Disk is suitable for installation",
        "- ✗ Red: Disk cannot be used (too small, read-only, or mounted)",
        "- ► Indicates currently selected disk",
        "",
        "## Disk Requirements",
        "",
        "- Minimum 8 GB of space",
        "- Not read-only",
        "- No mounted partitions",
        "- Internal disk recommended (USB drives work but not recommended)",
        "",
        "## Keyboard Shortcuts",
        "",
        "- ↑/↓: Navigate disk list",
        "- Enter: Select disk and continue (only if disk is suitable)",
        "- ← / Backspace: Go back to system information",
        "- ?: Toggle this help panel",
        "- q / Esc: Quit the installer",
    ])
    }

    fn can_proceed(&self) -> (r: bool)
        ensures
            r == selection_installable(self@),
    {
        self.is_selection_installable()
    }

    fn can_go_back(&self) -> (r: bool)
        ensures
            r,
    {
        true
    }
}

} // verus!
