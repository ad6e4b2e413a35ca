//! The review screen: the configuration is shown once more, and the
//! installation starts only after the user types DELETE.

use vstd::prelude::*;
use vstd::string::*;
use crate::config::InstallConfig;
use crate::text::{same_text, string_views, strings_of};
use crate::ui::components::{Focusable, InputField, Interactive};
use crate::ui::components::input::{InputView, typed};
use crate::ui::utils::Key;
use crate::ui::utils::input::{input_event_of, keycode_to_input_event};
use super::{Screen, ScreenAction, back_action, standard_action};

verus! {

/// The confirmation screen.
pub struct ConfirmationScreen {
    config: Option<InstallConfig>,
    confirm_input: InputField,
    confirmed: bool,
}

/// The confirmation screen, seen from outside.
#[verifier::ext_equal]
pub struct ConfirmView {
    pub config: Option<InstallConfig>,
    pub input: InputView,
    pub confirmed: bool,
}

impl View for ConfirmationScreen {
    type V = ConfirmView;

    closed spec fn view(&self) -> ConfirmView {
        ConfirmView { config: self.config, input: self.confirm_input@, confirmed: self.confirmed }
    }
}

/// The rules the screen keeps: the field has no check and no message, its
/// cursor lies within its value, and the screen counts as confirmed exactly
/// when the field holds `DELETE`.
pub open spec fn confirm_ok(v: ConfirmView) -> bool {
    &&& v.input.cursor <= v.input.value.len()
    &&& !v.input.has_validator
    &&& v.input.error is None
    &&& v.confirmed == (v.input.value == "DELETE"@)
}

/// The lines of the confirmation screen's help.
pub open spec fn confirmation_help() -> Seq<Seq<char>> {
    seq![
        "# Review Configuration Screen"@,
        ""@,
        "This screen displays all the configuration you have entered."@,
        "Please review carefully before proceeding."@,
        ""@,
        "# Confirmation Required"@,
        ""@,
        "You must type DELETE (all caps) to confirm that you understand"@,
        "all data on the selected disk will be permanently erased."@,
        ""@,
        "# What Happens Next"@,
        ""@,
        "If you confirm, the installer will:"@,
        ""@,
        "1. Format the selected disk"@,
        "2. Create partitions (EFI/Boot, Swap, Root)"@,
        "3. Install NixOS base system"@,
        "4. Configure the bootloader"@,
        "5. Set up your user account"@,
        "6. Apply system settings"@,
        ""@,
        "# Keyboard Shortcuts"@,
        ""@,
        "- Type DELETE then Enter: Confirm and begin installation"@,
        "- ← / Backspace: Go back to configuration"@,
        "- ?: Toggle this help panel"@,
        "- q / Esc: Quit the installer"@,
    ]
}

/// What the confirmation screen does on `key`, as the action given and the
/// screen after it: the keys every screen knows, then Left and Backspace go
/// back; Enter leads on once confirmed; any other key goes to the field.
pub open spec fn confirmation_step(v: ConfirmView, key: Key, new: ConfirmView, action: ScreenAction) -> bool {
    if standard_action(key) is Some {
        action == standard_action(key)->0 && new == v
    } else if back_action(key) is Some {
        action == ScreenAction::Back && new == v
    } else if key == Key::Enter {
        action == (if v.confirmed { ScreenAction::Next } else { ScreenAction::Stay }) && new == v
    } else {
        action == ScreenAction::Stay && match input_event_of(key) {
            None => new == v,
            Some(e) => new == (ConfirmView {
                input: typed(v.input, e),
                confirmed: typed(v.input, e).value == "DELETE"@,
                ..v
            }),
        }
    }
}

impl ConfirmationScreen {
    /// The rules of `confirm_ok` hold of this screen.
    pub open spec fn wf(&self) -> bool {
        confirm_ok(self@)
    }

    /// The screen before a configuration is handed to it.
    pub fn new() -> (s: Self)
        ensures
            s.wf(),
            s@.config is None,
            s@.input.label == "Type DELETE to confirm"@,
            s@.input.value.len() == 0,
            !s@.confirmed,
    {
        let s = ConfirmationScreen {
            config: None,
            confirm_input: InputField::new("Type DELETE to confirm"),
            confirmed: false,
        };
        proof {
            reveal_strlit("DELETE");
        }
        s
    }

    /// Hands the configuration to review; the confirmation starts over.
    pub fn set_config(&mut self, config: InstallConfig)
        requires
            old(self).wf(),
        ensures
            final(self).wf(),
            final(self)@.config == Some(config),
            final(self)@.input.value.len() == 0,
            final(self)@.input.label == old(self)@.input.label,
            !final(self)@.confirmed,
    {
        self.config = Some(config);
        self.confirm_input.set_value("");
        self.confirmed = false;
        proof {
            reveal_strlit("");
            reveal_strlit("DELETE");
        }
    }

    /// The configuration under review, if any.
    pub fn get_config(&self) -> (r: Option<&InstallConfig>)
        ensures
            match r {
                Some(c) => self@.config == Some(*c),
                None => self@.config is None,
            },
    {
        match &self.config {
            Some(c) => Some(c),
            None => None,
        }
    }

    /// The field DELETE is typed into.
    pub fn confirm_input(&self) -> (r: &InputField)
        ensures
            r@ == self@.input,
    {
        &self.confirm_input
    }

    /// Whether DELETE was typed.
    pub fn is_confirmed(&self) -> (r: bool)
        ensures
            r == self@.confirmed,
    {
        self.confirmed
    }

    /// Gives the field the focus, as it has whenever the screen is drawn.
    pub fn focus_input(&mut self)
        requires
            old(self).wf(),
        ensures
            final(self).wf(),
            final(self)@ == (ConfirmView { input: InputView { focused: true, ..old(self)@.input }, ..old(self)@ }),
    {
        self.confirm_input.set_focused(true);
        assert(self.confirm_input@ =~= InputView { focused: true, ..old(self)@.input });
        assert(self@ =~= ConfirmView { input: InputView { focused: true, ..old(self)@.input }, ..old(self)@ });
    }

    /// Counts the screen as confirmed exactly when the field holds DELETE.
    fn check_confirmation(&mut self)
        ensures
            final(self)@ == (ConfirmView { confirmed: old(self)@.input.value == "DELETE"@, ..old(self)@ }),
    {
        let value = self.confirm_input.value();
        self.confirmed = same_text(value.as_str(), "DELETE");
        assert(self@ =~= ConfirmView { confirmed: old(self)@.input.value == "DELETE"@, ..old(self)@ });
    }
}

impl Default for ConfirmationScreen {
    fn default() -> (s: Self)
        ensures
            s.wf(),
            s@.config is None,
            !s@.confirmed,
    {
        ConfirmationScreen::new()
    }
}

impl Screen for ConfirmationScreen {
    open spec fn screen_wf(&self) -> bool {
        self.wf()
    }

    fn handle_input(&mut self, key: Key) -> (action: ScreenAction)
        ensures
            confirmation_step(old(self)@, key, final(self)@, action),
    {
        if let Some(action) = self.handle_standard_input(key) {
            return action;
        }
        if let Some(action) = self.handle_back_input(key) {
            return action;
        }
        match key {
            Key::Enter => {
                if self.confirmed {
                    ScreenAction::Next
                } else {
                    ScreenAction::Stay
                }
            },
            _ => {
                if let Some(event) = keycode_to_input_event(key) {
                    self.confirm_input.handle_input(event);
                    self.check_confirmation();
                    assert(self@ =~= ConfirmView {
                        input: typed(old(self)@.input, event),
                        confirmed: typed(old(self)@.input, event).value == "DELETE"@,
                        ..old(self)@
                    });
                }
                ScreenAction::Stay
            },
        }
    }

    /// Nothing happens when the screen is entered.
    fn on_enter(&mut self)
        ensures
            final(self)@ == old(self)@,
    {
    }

    /// Nothing happens when the screen is left.
    fn on_exit(&mut self)
        ensures
            final(self)@ == old(self)@,
    {
    }

    fn title(&self) -> (r: &str)
        ensures
            r@ == "Review Configuration"@,
    {
        "Review Configuration"
    }

    fn help_content(&self) -> (r: Vec<String>)
        ensures
            string_views(r@) == confirmation_help(),
    {
    strings_of(&[
        "# Review Configuration Screen",
        "",
        "This screen displays all the configuration you have entered.",
        "Please review carefully before proceeding.",
        "",
        "# Confirmation Required",
        "",
        "You must type DELETE (all caps) to confirm that you understand",
        "all data on the selected disk will be permanently erased.",
        "",
        "# What Happens Next",
        "",
        "If you confirm, the installer will:",
        "",
        "1. Format the selected disk",
        "2. Create partitions (EFI/Boot, Swap, Root)",
        "3. Install NixOS base system",
        "4. Configure the bootloader",
        "5. Set up your user account",
        "6. Apply system settings",
        "",
        "# Keyboard Shortcuts",
        "",
        "- Type DELETE then Enter: Confirm and begin installation",
        "- ← / Backspace: Go back to configuration",
        "- ?: Toggle this help panel",
        "- q / Esc: Quit the installer",
    ])
    }

    fn can_proceed(&self) -> (r: bool)
        ensures
            r == (self@.config is Some && self@.confirmed),
    {
        self.config.is_some() && self.confirmed
    }

    fn can_go_back(&self) -> (r: bool)
        ensures
            r,
    {
        true
    }
}

} // verus!
