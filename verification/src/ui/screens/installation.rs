//! The screen that follows the installation: its progress, its log, and
//! how it ended.

use vstd::prelude::*;
use vstd::string::*;
use crate::nixos::install::{InstallMessage, InstallProgress, InstallStage};
use crate::text::{cat, string_views, strings_of};
use crate::ui::utils::Key;
use super::{Screen, ScreenAction};

verus! {

/// The installation screen.
pub struct InstallationScreen {
    /// The latest progress reported
    pub progress: Option<InstallProgress>,
    /// The log, oldest line first
    pub log_lines: Vec<String>,
    /// Whether the installation runs
    pub is_running: bool,
    /// Whether it succeeded
    pub is_complete: bool,
    /// Whether it failed
    pub has_error: bool,
    /// Why it failed
    pub error_message: Option<String>,
    /// The log line scrolled to
    pub scroll_position: usize,
}

/// The lines of the installation screen's help.
pub open spec fn installation_help() -> Seq<Seq<char>> {
    seq![
        "# Installation Progress Screen"@,
        ""@,
        "NixOS is being installed to your system. This process may take"@,
        "20-60 minutes depending on your internet connection and hardware."@,
        ""@,
        "## What's Happening"@,
        ""@,
        "1. Generating Configuration: Creating your system configuration files"@,
        "2. Hardware Detection: Detecting and configuring hardware"@,
        "3. Installing Packages: Downloading and building system packages"@,
        "4. Verification: Ensuring installation completed successfully"@,
        ""@,
        "## Progress Indicator"@,
        ""@,
        "The progress bar shows estimated completion:"@,
        "- 0-20%: Configuration generation"@,
        "- 20-30%: Hardware detection"@,
        "- 30-90%: Package installation (most time spent here)"@,
        "- 90-100%: Verification"@,
        ""@,
        "## Installation Log"@,
        ""@,
        "The log shows real-time output from the installation process."@,
        "Use ↑ and ↓ arrow keys to scroll through the log."@,
        ""@,
        "## Important Notes"@,
        ""@,
        "- Do not interrupt the installation once it has started"@,
        "- Keep your internet connection stable"@,
        "- The system may appear to hang during package building - this is normal"@,
        "- If installation fails, check the log for error details"@,
        ""@,
        "## After Installation"@,
        ""@,
        "Once complete, you'll be able to:"@,
        "- Review the installation summary"@,
        "- Reboot into your new NixOS system"@,
        "- Access installation logs for troubleshooting"@,
    ]
}

/// The text that says what the installation is doing.
pub open spec fn stage_text(progress: Option<InstallProgress>) -> Seq<char> {
    match progress {
        None => "Initializing..."@,
        Some(p) => match p.stage {
            InstallStage::GeneratingConfig => "Generating configuration files..."@,
            InstallStage::GeneratingHardwareConfig => "Detecting hardware configuration..."@,
            InstallStage::Installing => "Installing NixOS (this may take a while)..."@,
            InstallStage::Verifying => "Verifying installation..."@,
            InstallStage::Complete => "Installation complete!"@,
            InstallStage::Failed(e) => "Installation failed: "@ + e@,
        },
    }
}

/// What the installation screen does on `key`: Enter leads on once the
/// installation succeeded, Up and Down scroll the log, `q` and Escape quit
/// once it ended.
pub open spec fn installation_action(s: InstallationScreen, key: Key) -> ScreenAction {
    match key {
        Key::Enter => if s.is_complete { ScreenAction::Next } else { ScreenAction::Stay },
        Key::Char('q') | Key::Esc => if s.has_error || s.is_complete { ScreenAction::Exit } else { ScreenAction::Stay },
        _ => ScreenAction::Stay,
    }
}

/// The scroll position one line up, stopping at the first.
pub open spec fn scrolled_up(p: usize) -> usize {
    if p > 0 { (p - 1) as usize } else { p }
}

/// The scroll position one line down, stopping at the last.
pub open spec fn scrolled_down(p: usize, lines: nat) -> usize {
    if p + 1 < lines { (p + 1) as usize } else { p }
}

/// `new` is `old` after taking in `msg`: progress replaces the progress
/// shown; a log line is added and scrolled to; success and failure end the
/// run and say so in the log.
pub open spec fn message_applied(old: InstallationScreen, new: InstallationScreen, msg: InstallMessage) -> bool {
    match msg {
        InstallMessage::Progress(p) => {
            &&& new.progress == Some(p)
            &&& new.log_lines@ == old.log_lines@
            &&& new.is_running == old.is_running
            &&& new.is_complete == old.is_complete
            &&& new.has_error == old.has_error
            &&& new.error_message == old.error_message
            &&& new.scroll_position == old.scroll_position
        },
        InstallMessage::Log(line) => {
            &&& string_views(new.log_lines@) == string_views(old.log_lines@).push(line@)
            &&& new.scroll_position == old.log_lines@.len()
            &&& new.progress == old.progress
            &&& new.is_running == old.is_running
            &&& new.is_complete == old.is_complete
            &&& new.has_error == old.has_error
            &&& new.error_message == old.error_message
        },
        InstallMessage::Success => {
            &&& !new.is_running
            &&& new.is_complete
            &&& string_views(new.log_lines@)
                == string_views(old.log_lines@).push("✓ Installation completed successfully!"@)
            &&& new.progress == old.progress
            &&& new.has_error == old.has_error
            &&& new.error_message == old.error_message
            &&& new.scroll_position == old.scroll_position
        },
        InstallMessage::Error(e) => {
            &&& !new.is_running
            &&& new.has_error
            &&& new.error_message matches Some(m) && m@ == e@
            &&& string_views(new.log_lines@)
                == string_views(old.log_lines@).push("✗ Installation failed: "@ + e@)
            &&& new.progress == old.progress
            &&& new.is_complete == old.is_complete
            &&& new.scroll_position == old.scroll_position
        },
    }
}

impl InstallationScreen {
    /// The screen before the installation starts.
    pub fn new() -> (s: Self)
        ensures
            s.progress is None,
            s.log_lines@.len() == 0,
            !s.is_running,
            !s.is_complete,
            !s.has_error,
            s.error_message is None,
            s.scroll_position == 0,
    {
        InstallationScreen {
            progress: None,
            log_lines: Vec::new(),
            is_running: false,
            is_complete: false,
            has_error: false,
            error_message: None,
            scroll_position: 0,
        }
    }

    /// Marks the installation as started: running, neither succeeded nor
    /// failed, with a fresh log that says it starts.
    pub fn start_installation(&mut self)
        ensures
            final(self).is_running,
            !final(self).is_complete,
            !final(self).has_error,
            final(self).error_message is None,
            string_views(final(self).log_lines@) == seq!["Starting installation..."@],
            final(self).progress == old(self).progress,
            final(self).scroll_position == old(self).scroll_position,
    {
        self.is_running = true;
        self.is_complete = false;
        self.has_error = false;
        self.error_message = None;
        self.log_lines.clear();
        self.log_lines.push(String::from_str("Starting installation..."));
        assert(string_views(self.log_lines@) =~= seq!["Starting installation..."@]);
    }

    /// Takes in a message of the installation: progress replaces the
    /// progress shown; a log line is added and scrolled to; success and
    /// failure end the run and say so in the log.
    pub fn apply_message(&mut self, msg: InstallMessage)
        ensures
            message_applied(*old(self), *final(self), msg),
    {
        match msg {
            InstallMessage::Progress(progress) => {
                self.progress = Some(progress);
            },
            InstallMessage::Log(line) => {
                let ghost before = self.log_lines@;
                self.log_lines.push(line);
                self.scroll_position = self.log_lines.len() - 1;
                assert(string_views(self.log_lines@) =~= string_views(before).push(line@));
            },
            InstallMessage::Success => {
                let ghost before = self.log_lines@;
                self.is_running = false;
                self.is_complete = true;
                self.log_lines.push(String::from_str("✓ Installation completed successfully!"));
                assert(string_views(self.log_lines@) =~= string_views(before).push("✓ Installation completed successfully!"@));
            },
            InstallMessage::Error(err) => {
                let ghost before = self.log_lines@;
                let ghost text = err@;
                self.is_running = false;
                self.has_error = true;
                let line = cat("✗ Installation failed: ", err.as_str());
                self.error_message = Some(err);
                self.log_lines.push(line);
                assert(string_views(self.log_lines@) =~= string_views(before).push("✗ Installation failed: "@ + text));
            },
        }
    }

    /// Scrolls the log one line up, stopping at the first.
    pub fn scroll_up(&mut self)
        ensures
            final(self).scroll_position == scrolled_up(old(self).scroll_position),
            final(self).log_lines == old(self).log_lines,
            final(self).progress == old(self).progress,
            final(self).is_running == old(self).is_running,
            final(self).is_complete == old(self).is_complete,
            final(self).has_error == old(self).has_error,
            final(self).error_message == old(self).error_message,
    {
        if self.scroll_position > 0 {
            self.scroll_position = self.scroll_position - 1;
        }
    }

    /// Scrolls the log one line down, stopping at the last.
    pub fn scroll_down(&mut self)
        ensures
            final(self).scroll_position == scrolled_down(old(self).scroll_position, old(self).log_lines@.len()),
            final(self).log_lines == old(self).log_lines,
            final(self).progress == old(self).progress,
            final(self).is_running == old(self).is_running,
            final(self).is_complete == old(self).is_complete,
            final(self).has_error == old(self).has_error,
            final(self).error_message == old(self).error_message,
    {
        let last = if self.log_lines.len() > 0 { self.log_lines.len() - 1 } else { 0 };
        if self.scroll_position < last {
            self.scroll_position = self.scroll_position + 1;
        }
    }

    /// The log lines to show in a window `rows` lines tall, as a range of
    /// positions: from half a window above the scroll position (or the
    /// first line) for at most `rows` lines, stopping at the last line.
    pub fn visible_log_range(&self, rows: usize) -> (r: (usize, usize))
        requires
            self.scroll_position - rows / 2 <= self.log_lines@.len(),
        ensures
            r.0 == if self.scroll_position >= rows / 2 { self.scroll_position - rows / 2 } else { 0 },
            r.1 == if r.0 + rows <= self.log_lines@.len() { r.0 + rows } else { self.log_lines@.len() as int },
            r.0 <= r.1 <= self.log_lines@.len(),
    {
        let half = rows / 2;
        let start: usize = if self.scroll_position >= half { self.scroll_position - half } else { 0 };
        let len = self.log_lines.len();
        let end: usize = if rows <= len - start { start + rows } else { len };
        (start, end)
    }

    /// What the installation is doing, in words.
    pub fn stage_description(&self) -> (r: String)
        ensures
            r@ == stage_text(self.progress),
    {
        match &self.progress {
            None => String::from_str("Initializing..."),
            Some(p) => match &p.stage {
                InstallStage::GeneratingConfig => String::from_str("Generating configuration files..."),
                InstallStage::GeneratingHardwareConfig => String::from_str("Detecting hardware configuration..."),
                InstallStage::Installing => String::from_str("Installing NixOS (this may take a while)..."),
                InstallStage::Verifying => String::from_str("Verifying installation..."),
                InstallStage::Complete => String::from_str("Installation complete!"),
                InstallStage::Failed(err) => cat("Installation failed: ", err.as_str()),
            },
        }
    }

    /// The percentage shown: that of the latest progress, or 0.
    pub fn percent(&self) -> (r: u8)
        ensures
            r == match self.progress {
                Some(p) => p.percent,
                None => 0u8,
            },
    {
        match &self.progress {
            Some(p) => p.percent,
            None => 0,
        }
    }
}

impl Default for InstallationScreen {
    fn default() -> (s: Self)
        ensures
            s.progress is None,
            s.log_lines@.len() == 0,
            !s.is_running,
            !s.is_complete,
            !s.has_error,
    {
        InstallationScreen::new()
    }
}

impl Screen for InstallationScreen {
    open spec fn screen_wf(&self) -> bool {
        true
    }

    fn handle_input(&mut self, key: Key) -> (action: ScreenAction)
        ensures
            action == installation_action(*old(self), key),
            final(self).scroll_position == match key {
                Key::Up => scrolled_up(old(self).scroll_position),
                Key::Down => scrolled_down(old(self).scroll_position, old(self).log_lines@.len()),
                _ => old(self).scroll_position,
            },
            final(self).log_lines == old(self).log_lines,
            final(self).progress == old(self).progress,
            final(self).is_running == old(self).is_running,
            final(self).is_complete == old(self).is_complete,
            final(self).has_error == old(self).has_error,
            final(self).error_message == old(self).error_message,
    {
        match key {
            Key::Enter => if self.is_complete { ScreenAction::Next } else { ScreenAction::Stay },
            Key::Up => {
                self.scroll_up();
                ScreenAction::Stay
            },
            Key::Down => {
                self.scroll_down();
                ScreenAction::Stay
            },
            Key::Char('q') | Key::Esc => if self.has_error || self.is_complete {
                ScreenAction::Exit
            } else {
                ScreenAction::Stay
            },
            _ => ScreenAction::Stay,
        }
    }

    /// Nothing happens when the screen is entered.
    fn on_enter(&mut self)
        ensures
            *final(self) == *old(self),
    {
    }

    /// Nothing happens when the screen is left.
    fn on_exit(&mut self)
        ensures
            *final(self) == *old(self),
    {
    }

    fn title(&self) -> (r: &str)
        ensures
            r@ == "Installing NixOS"@,
    {
        "Installing NixOS"
    }

    fn help_content(&self) -> (r: Vec<String>)
        ensures
            string_views(r@) == installation_help(),
    {
    strings_of(&[
        "# Installation Progress Screen",
        "",
        "NixOS is being installed to your system. This process may take",
        "20-60 minutes depending on your internet connection and hardware.",
        "",
        "## What's Happening",
        "",
        "1. Generating Configuration: Creating your system configuration files",
        "2. Hardware Detection: Detecting and configuring hardware",
        "3. Installing Packages: Downloading and building system packages",
        "4. Verification: Ensuring installation completed successfully",
        "",
        "## Progress Indicator",
        "",
        "The progress bar shows estimated completion:",
        "- 0-20%: Configuration generation",
        "- 20-30%: Hardware detection",
        "- 30-90%: Package installation (most time spent here)",
        "- 90-100%: Verification",
        "",
        "## Installation Log",
        "",
        "The log shows real-time output from the installation process.",
        "Use ↑ and ↓ arrow keys to scroll through the log.",
        "",
        "## Important Notes",
        "",
        "- Do not interrupt the installation once it has started",
        "- Keep your internet connection stable",
        "- The system may appear to hang during package building - this is normal",
        "- If installation fails, check the log for error details",
        "",
        "## After Installation",
        "",
        "Once complete, you'll be able to:",
        "- Review the installation summary",
        "- Reboot into your new NixOS system",
        "- Access installation logs for troubleshooting",
    ])
    }

    fn can_proceed(&self) -> (r: bool)
        ensures
            r == self.is_complete,
    {
        self.is_complete
    }

    fn can_go_back(&self) -> (r: bool)
        ensures
            !r,
    {
        false
    }
}

} // verus!
