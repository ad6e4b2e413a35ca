//! The wizard's screens: what each one holds, how it answers keys, and
//! what it allows next. Drawing them is left to the terminal front end.

use vstd::prelude::*;
use crate::ui::utils::Key;

pub mod configuration;
pub mod confirmation;
pub mod disk_selection;
pub mod installation;
pub mod partition_planning;
pub mod success;
pub mod system_info;
pub mod welcome;

pub use configuration::ConfigurationScreen;
pub use confirmation::ConfirmationScreen;
pub use disk_selection::DiskSelectionScreen;
pub use installation::InstallationScreen;
pub use partition_planning::PartitionPlanningScreen;
pub use success::SuccessScreen;
pub use system_info::SystemInfoScreen;
pub use welcome::WelcomeScreen;

verus! {

/// What the wizard is to do after a key press on a screen.
#[derive(Debug, Clone, Copy, PartialEq, Eq, Structural)]
pub enum ScreenAction {
    /// Nothing: stay on the screen
    Stay,
    /// Go on to the next screen
    Next,
    /// Go back to the previous screen
    Back,
    /// Leave the installer
    Exit,
    /// Show or hide the help
    ToggleHelp,
}

/// The keys every screen understands the same way: `q` and Escape quit,
/// `?` shows or hides the help.
pub open spec fn standard_action(key: Key) -> Option<ScreenAction> {
    match key {
        Key::Char('q') | Key::Esc => Some(ScreenAction::Exit),
        Key::Char('?') => Some(ScreenAction::ToggleHelp),
        _ => None,
    }
}

/// The keys that go back on screens that allow it: Left and Backspace.
pub open spec fn back_action(key: Key) -> Option<ScreenAction> {
    match key {
        Key::Left | Key::Backspace => Some(ScreenAction::Back),
        _ => None,
    }
}

/// A screen of the wizard.
pub trait Screen {
    /// The rules the screen keeps from one call to the next.
    spec fn screen_wf(&self) -> bool;

    /// Answers a key press with what the wizard is to do.
    fn handle_input(&mut self, key: Key) -> (action: ScreenAction)
        requires
            old(self).screen_wf(),
        ensures
            final(self).screen_wf(),
    ;

    /// Called when the screen is entered.
    fn on_enter(&mut self)
        requires
            old(self).screen_wf(),
        ensures
            final(self).screen_wf(),
    {
    }

    /// Called when the screen is left.
    fn on_exit(&mut self)
        requires
            old(self).screen_wf(),
        ensures
            final(self).screen_wf(),
    {
    }

    /// The lines of the screen's help.
    fn help_content(&self) -> (r: Vec<String>)
        default_ensures
            r@.len() == 0,
    {
        Vec::new()
    }

    /// The screen's title.
    fn title(&self) -> &str;

    /// Whether the wizard may go on from this screen.
    fn can_proceed(&self) -> (r: bool)
        default_ensures
            r,
    {
        true
    }

    /// Whether the screen allows going back.
    fn can_go_back(&self) -> (r: bool)
        default_ensures
            r,
    {
        true
    }

    /// The action of a key every screen understands the same way, if it is
    /// one.
    fn handle_standard_input(&self, key: Key) -> (r: Option<ScreenAction>)
        ensures
            r == standard_action(key),
    {
        match key {
            Key::Char('q') | Key::Esc => Some(ScreenAction::Exit),
            Key::Char('?') => Some(ScreenAction::ToggleHelp),
            _ => None,
        }
    }

    /// The action of a key that goes back, if it is one.
    fn handle_back_input(&self, key: Key) -> (r: Option<ScreenAction>)
        ensures
            r == back_action(key),
    {
        match key {
            Key::Left | Key::Backspace => Some(ScreenAction::Back),
            _ => None,
        }
    }
}

} // verus!
