//! A Yes/No confirmation dialog. It opens with "No" focused.

use vstd::prelude::*;
use vstd::string::*;
use super::{Focusable, InputEvent, Interactive};

verus! {

/// How serious the question is.
#[derive(Debug, Clone, Copy, PartialEq, Eq, Structural)]
pub enum DialogType {
    /// An ordinary confirmation
    Confirm,
    /// A confirmation that deserves care
    Warning,
    /// A confirmation of something destructive
    Danger,
}

/// What a dialog is, seen from outside.
pub struct DialogView {
    pub title: Seq<char>,
    pub message: Seq<char>,
    pub focused_button: nat,
    pub focused: bool,
    pub dialog_type: DialogType,
}

/// A Yes/No dialog: button 0 is "Yes", button 1 is "No".
pub struct ConfirmDialog {
    title: String,
    message: String,
    focused_button: usize,
    focused: bool,
    dialog_type: DialogType,
}

impl View for ConfirmDialog {
    type V = DialogView;

    closed spec fn view(&self) -> DialogView {
        DialogView {
            title: self.title@,
            message: self.message@,
            focused_button: self.focused_button as nat,
            focused: self.focused,
            dialog_type: self.dialog_type,
        }
    }
}

impl ConfirmDialog {
    /// The focused button is "Yes" (0) or "No" (1).
    pub open spec fn wf(&self) -> bool {
        self@.focused_button <= 1
    }

    /// A focused confirmation dialog with "No" selected.
    pub fn new(title: &str, message: &str) -> (d: Self)
        ensures
            d.wf(),
            d@.title == title@,
            d@.message == message@,
            d@.focused_button == 1,
            d@.focused,
            d@.dialog_type == DialogType::Confirm,
    {
        ConfirmDialog {
            title: String::from_str(title),
            message: String::from_str(message),
            focused_button: 1,
            focused: true,
            dialog_type: DialogType::Confirm,
        }
    }

    /// The same dialog with another type.
    pub fn with_type(self, dialog_type: DialogType) -> (d: Self)
        ensures
            d@.dialog_type == dialog_type,
            d@.title == self@.title,
            d@.message == self@.message,
            d@.focused_button == self@.focused_button,
            d@.focused == self@.focused,
    {
        ConfirmDialog { dialog_type, ..self }
    }

    /// A warning dialog with "No" selected.
    pub fn warning(title: &str, message: &str) -> (d: Self)
        ensures
            d.wf(),
            d@.title == title@,
            d@.message == message@,
            d@.focused_button == 1,
            d@.focused,
            d@.dialog_type == DialogType::Warning,
    {
        Self::new(title, message).with_type(DialogType::Warning)
    }

    /// A danger dialog with "No" selected.
    pub fn danger(title: &str, message: &str) -> (d: Self)
        ensures
            d.wf(),
            d@.title == title@,
            d@.message == message@,
            d@.focused_button == 1,
            d@.focused,
            d@.dialog_type == DialogType::Danger,
    {
        Self::new(title, message).with_type(DialogType::Danger)
    }

    /// Whether "Yes" is focused.
    pub fn is_yes_focused(&self) -> (r: bool)
        ensures
            r == (self@.focused_button == 0),
    {
        self.focused_button == 0
    }

    /// The focused button: 0 for "Yes", 1 for "No".
    pub fn focused_button(&self) -> (r: usize)
        ensures
            r == self@.focused_button,
    {
        self.focused_button
    }

    /// The dialog's type.
    pub fn dialog_type(&self) -> (r: DialogType)
        ensures
            r == self@.dialog_type,
    {
        self.dialog_type
    }

    /// The title.
    pub fn title(&self) -> (r: &str)
        ensures
            r@ == self@.title,
    {
        self.title.as_str()
    }

    /// The message.
    pub fn message(&self) -> (r: &str)
        ensures
            r@ == self@.message,
    {
        self.message.as_str()
    }
}

impl Focusable for ConfirmDialog {
    fn is_focused(&self) -> (r: bool)
        ensures
            r == self@.focused,
    {
        self.focused
    }

    fn set_focused(&mut self, focused: bool)
        ensures
            final(self)@.focused == focused,
            final(self)@.title == old(self)@.title,
            final(self)@.message == old(self)@.message,
            final(self)@.focused_button == old(self)@.focused_button,
            final(self)@.dialog_type == old(self)@.dialog_type,
    {
        self.focused = focused;
    }
}

impl Interactive for ConfirmDialog {
    open spec fn interactive_wf(&self) -> bool {
        self.wf()
    }

    /// Left, Right and Tab switch between the buttons, Escape selects "No",
    /// Enter is taken without change; other keys are not taken.
    fn handle_input(&mut self, event: InputEvent) -> (handled: bool)
        ensures
            handled == match event {
                InputEvent::Left | InputEvent::Right | InputEvent::Tab | InputEvent::Enter
                | InputEvent::Escape => true,
                _ => false,
            },
            final(self)@.focused_button == match event {
                InputEvent::Left | InputEvent::Right | InputEvent::Tab => (1 - old(self)@.focused_button) as nat,
                InputEvent::Escape => 1,
                _ => old(self)@.focused_button,
            },
            final(self)@.title == old(self)@.title,
            final(self)@.message == old(self)@.message,
            final(self)@.focused == old(self)@.focused,
            final(self)@.dialog_type == old(self)@.dialog_type,
    {
        match event {
            InputEvent::Left | InputEvent::Right | InputEvent::Tab => {
                self.focused_button = 1 - self.focused_button;
                true
            },
            InputEvent::Enter => true,
            InputEvent::Escape => {
                self.focused_button = 1;
                true
            },
            _ => false,
        }
    }
}

} // verus!
