//! The wizard's screens, their order, and the application's state.

use vstd::prelude::*;

verus! {

/// Whether the installer works on the real system or simulates it.
#[derive(Debug, Clone, Copy, PartialEq, Eq, Structural)]
pub enum AppMode {
    /// Simulation: no system is changed
    Mock,
    /// The real system is changed
    Real,
}

/// The wizard's screens, in order.
#[derive(Debug, Clone, Copy, PartialEq, Eq, Structural)]
pub enum Screen {
    /// Welcome, with the pre-flight checks
    Welcome,
    /// The machine's boot mode and hardware
    SystemInfo,
    /// Choice of the target disk
    DiskSelection,
    /// The partition layout
    PartitionPlanning,
    /// Host, user, time zone, keymap and locale
    Configuration,
    /// Review and confirmation
    Confirmation,
    /// The installation in progress
    Installation,
    /// The end
    Complete,
}

/// The number of screens.
pub const SCREEN_COUNT: usize = 8;

/// Position of a screen in the wizard, counted from 1.
pub open spec fn position(s: Screen) -> nat {
    match s {
        Screen::Welcome => 1,
        Screen::SystemInfo => 2,
        Screen::DiskSelection => 3,
        Screen::PartitionPlanning => 4,
        Screen::Configuration => 5,
        Screen::Confirmation => 6,
        Screen::Installation => 7,
        Screen::Complete => 8,
    }
}

/// The screen after `s`, if any.
pub open spec fn following(s: Screen) -> Option<Screen> {
    match s {
        Screen::Welcome => Some(Screen::SystemInfo),
        Screen::SystemInfo => Some(Screen::DiskSelection),
        Screen::DiskSelection => Some(Screen::PartitionPlanning),
        Screen::PartitionPlanning => Some(Screen::Configuration),
        Screen::Configuration => Some(Screen::Confirmation),
        Screen::Confirmation => Some(Screen::Installation),
        Screen::Installation => Some(Screen::Complete),
        Screen::Complete => None,
    }
}

/// The screen one may go back to from `s`: none from the first screen, and
/// none once the installation has started.
pub open spec fn going_back(s: Screen) -> Option<Screen> {
    match s {
        Screen::Welcome => None,
        Screen::SystemInfo => Some(Screen::Welcome),
        Screen::DiskSelection => Some(Screen::SystemInfo),
        Screen::PartitionPlanning => Some(Screen::DiskSelection),
        Screen::Configuration => Some(Screen::PartitionPlanning),
        Screen::Confirmation => Some(Screen::Configuration),
        Screen::Installation => None,
        Screen::Complete => None,
    }
}

/// The title of a screen.
pub open spec fn screen_title(s: Screen) -> Seq<char> {
    match s {
        Screen::Welcome => "Welcome to NixOS Installation"@,
        Screen::SystemInfo => "System Information"@,
        Screen::DiskSelection => "Select Installation Disk"@,
        Screen::PartitionPlanning => "Partition Layout"@,
        Screen::Configuration => "System Configuration"@,
        Screen::Confirmation => "Review Configuration"@,
        Screen::Installation => "Installing NixOS"@,
        Screen::Complete => "Installation Complete"@,
    }
}

impl Screen {
    /// The next screen of the wizard.
    pub fn next(&self) -> (r: Option<Screen>)
        ensures
            r == following(*self),
    {
        match self {
            Screen::Welcome => Some(Screen::SystemInfo),
            Screen::SystemInfo => Some(Screen::DiskSelection),
            Screen::DiskSelection => Some(Screen::PartitionPlanning),
            Screen::PartitionPlanning => Some(Screen::Configuration),
            Screen::Configuration => Some(Screen::Confirmation),
            Screen::Confirmation => Some(Screen::Installation),
            Screen::Installation => Some(Screen::Complete),
            Screen::Complete => None,
        }
    }

    /// The screen to go back to, when going back is allowed.
    pub fn previous(&self) -> (r: Option<Screen>)
        ensures
            r == going_back(*self),
    {
        match self {
            Screen::Welcome => None,
            Screen::SystemInfo => Some(Screen::Welcome),
            Screen::DiskSelection => Some(Screen::SystemInfo),
            Screen::PartitionPlanning => Some(Screen::DiskSelection),
            Screen::Configuration => Some(Screen::PartitionPlanning),
            Screen::Confirmation => Some(Screen::Configuration),
            Screen::Installation => None,
            Screen::Complete => None,
        }
    }

    /// The screen's title.
    pub fn title(&self) -> (r: &'static str)
        ensures
            r@ == screen_title(*self),
    {
        match self {
            Screen::Welcome => "Welcome to NixOS Installation",
            Screen::SystemInfo => "System Information",
            Screen::DiskSelection => "Select Installation Disk",
            Screen::PartitionPlanning => "Partition Layout",
            Screen::Configuration => "System Configuration",
            Screen::Confirmation => "Review Configuration",
            Screen::Installation => "Installing NixOS",
            Screen::Complete => "Installation Complete",
        }
    }

    /// The screen's step and the number of steps.
    pub fn step_number(&self) -> (r: (usize, usize))
        ensures
            r.0 == position(*self),
            r.1 == SCREEN_COUNT,
    {
        let step: usize = match self {
            Screen::Welcome => 1,
            Screen::SystemInfo => 2,
            Screen::DiskSelection => 3,
            Screen::PartitionPlanning => 4,
            Screen::Configuration => 5,
            Screen::Confirmation => 6,
            Screen::Installation => 7,
            Screen::Complete => 8,
        };
        (step, SCREEN_COUNT)
    }

    /// Whether one may go back from this screen.
    pub fn can_go_back(&self) -> (r: bool)
        ensures
            r == going_back(*self).is_some(),
    {
        self.previous().is_some()
    }

    /// How far through the wizard this screen is, in whole percent.
    pub fn progress_percent(&self) -> (r: u16)
        ensures
            r == position(*self) * 100 / (SCREEN_COUNT as nat),
    {
        let (step, total) = self.step_number();
        (step * 100 / total) as u16
    }
}

/// The hints shown in the footer of a screen: going back where it is
/// allowed, going on where there is a next screen, help, quitting, and a
/// mark in simulation.
pub open spec fn footer_hint_texts(s: Screen, is_mock: bool) -> Seq<Seq<char>> {
    (if going_back(s).is_some() { seq!["← Back"@] } else { seq![] })
        + (if following(s).is_some() { seq!["↵ Next"@] } else { seq![] })
        + seq!["? Help"@, "q Quit"@]
        + (if is_mock { seq!["[MOCK MODE]"@] } else { seq![] })
}

/// The hints shown in the footer of `screen`.
pub fn footer_hints(screen: Screen, is_mock: bool) -> (r: Vec<&'static str>)
    ensures
        r@.map_values(|h: &'static str| h@) == footer_hint_texts(screen, is_mock),
{
    let mut r: Vec<&'static str> = Vec::new();
    if screen.can_go_back() {
        r.push("← Back");
    }
    if screen.next().is_some() {
        r.push("↵ Next");
    }
    r.push("? Help");
    r.push("q Quit");
    if is_mock {
        r.push("[MOCK MODE]");
    }
    assert(r@.map_values(|h: &'static str| h@) =~= footer_hint_texts(screen, is_mock));
    r
}

/// The application's state.
#[derive(Debug)]
pub struct App {
    /// Simulation or real system
    pub mode: AppMode,
    /// The screen shown
    pub current_screen: Screen,
    /// Whether the application is to end
    pub should_exit: bool,
    /// Whether actions are only shown, not done
    pub dry_run: bool,
    /// Whether the help panel is shown
    pub help_visible: bool,
}

impl App {
    /// An application on the first screen.
    pub fn new(mode: AppMode, dry_run: bool) -> (a: Self)
        ensures
            a.mode == mode,
            a.current_screen == Screen::Welcome,
            !a.should_exit,
            a.dry_run == dry_run,
            !a.help_visible,
    {
        App { mode, current_screen: Screen::Welcome, should_exit: false, dry_run, help_visible: false }
    }

    /// Moves to the next screen; stays on the last one.
    pub fn next_screen(&mut self) -> (r: Result<(), crate::error::InstallerError>)
        ensures
            r is Ok,
            final(self).current_screen == match following(old(self).current_screen) {
                Some(n) => n,
                None => old(self).current_screen,
            },
            final(self).mode == old(self).mode,
            final(self).should_exit == old(self).should_exit,
            final(self).dry_run == old(self).dry_run,
            final(self).help_visible == old(self).help_visible,
    {
        if let Some(next) = self.current_screen.next() {
            self.current_screen = next;
        }
        Ok(())
    }

    /// Moves back one screen where that is allowed; stays otherwise.
    pub fn previous_screen(&mut self) -> (r: Result<(), crate::error::InstallerError>)
        ensures
            r is Ok,
            final(self).current_screen == match going_back(old(self).current_screen) {
                Some(p) => p,
                None => old(self).current_screen,
            },
            final(self).mode == old(self).mode,
            final(self).should_exit == old(self).should_exit,
            final(self).dry_run == old(self).dry_run,
            final(self).help_visible == old(self).help_visible,
    {
        if let Some(prev) = self.current_screen.previous() {
            self.current_screen = prev;
        }
        Ok(())
    }

    /// Asks the application to end.
    pub fn exit(&mut self)
        ensures
            final(self).should_exit,
            final(self).mode == old(self).mode,
            final(self).current_screen == old(self).current_screen,
            final(self).dry_run == old(self).dry_run,
            final(self).help_visible == old(self).help_visible,
    {
        self.should_exit = true;
    }

    /// Whether the application simulates the system.
    pub fn is_mock(&self) -> (r: bool)
        ensures
            r == (self.mode == AppMode::Mock),
    {
        match self.mode {
            AppMode::Mock => true,
            AppMode::Real => false,
        }
    }

    /// Shows the help panel if hidden, hides it if shown.
    pub fn toggle_help(&mut self)
        ensures
            final(self).help_visible == !old(self).help_visible,
            final(self).mode == old(self).mode,
            final(self).current_screen == old(self).current_screen,
            final(self).should_exit == old(self).should_exit,
            final(self).dry_run == old(self).dry_run,
    {
        self.help_visible = !self.help_visible;
    }
}

/// Going forward then back returns to the screen one started from, on
/// every screen from which one may go back after moving forward.
pub proof fn lemma_back_undoes_next(s: Screen)
    requires
        following(s) matches Some(n) && going_back(n).is_some(),
    ensures
        going_back(following(s)->0) == Some(s),
{
}

/// Going back then forward returns to the screen one started from.
pub proof fn lemma_next_undoes_back(s: Screen)
    requires
        going_back(s).is_some(),
    ensures
        following(going_back(s)->0) == Some(s),
{
}

/// Each next screen has the step after the current one, and only the last
/// screen has no next.
pub proof fn lemma_steps_follow_order(s: Screen)
    ensures
        1 <= position(s) <= SCREEN_COUNT,
        following(s) matches Some(n) ==> position(n) == position(s) + 1,
        following(s).is_none() <==> position(s) == SCREEN_COUNT,
{
}

/// Once the installation has started, there is no going back.
pub proof fn lemma_no_way_back_after_install_starts(s: Screen)
    requires
        position(s) >= position(Screen::Installation),
    ensures
        going_back(s).is_none(),
{
}

} // verus!
