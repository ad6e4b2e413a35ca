//! Reusable components: their state and how they answer keyboard input.
//! Drawing them is left to the terminal front end.

use vstd::prelude::*;

pub mod button;
pub mod filterable_select;
pub mod checkbox;
pub mod dialog;
pub mod help;
pub mod input;
pub mod message;
pub mod progress;
pub mod select;

pub use button::{Button, ButtonStyle};
pub use checkbox::{CheckboxItem, CheckboxList};
pub use dialog::{ConfirmDialog, DialogType};
pub use filterable_select::FilterableSelectList;
pub use help::HelpPanel;
pub use input::{InputField, InputValidator, NoValidator};
pub use message::{MessageType, StatusMessage};
pub use progress::{ProgressBar, Spinner};
pub use select::SelectList;









verus! {

/// Components that can hold the keyboard focus.
pub trait Focusable {
    /// Whether the component holds the focus.
    fn is_focused(&self) -> bool;

    /// Gives or takes the focus.
    fn set_focused(&mut self, focused: bool);

    /// Called when the focus arrives.
    fn on_focus(&mut self) {
    }

    /// Called when the focus leaves.
    fn on_blur(&mut self) {
    }
}

/// Components whose value can be checked.
pub trait Validatable {
    /// `None` when the value is acceptable, else the reason it is not.
    fn validate(&self) -> Option<String>;

    /// Whether `validate` finds nothing wrong.
    fn is_valid(&self) -> (r: bool)
        ensures
            exists|v: Option<String>| call_ensures(Self::validate, (self,), v) && r == (v is None),
    {
        let v = self.validate();
        v.is_none()
    }
}

/// A key press, as the components see it.
#[derive(Debug, Clone, Copy, PartialEq, Eq, Structural)]
pub enum InputEvent {
    /// A printable character
    Char(char),
    /// Enter
    Enter,
    /// Escape
    Escape,
    /// Backspace
    Backspace,
    /// Delete
    Delete,
    /// Left arrow
    Left,
    /// Right arrow
    Right,
    /// Up arrow
    Up,
    /// Down arrow
    Down,
    /// Tab
    Tab,
    /// Home
    Home,
    /// End
    End,
}

/// Components that answer key presses.
pub trait Interactive: Focusable {
    /// The internal rules the component keeps from one key press to the next.
    spec fn interactive_wf(&self) -> bool;

    /// Handles one key press; `true` when the component used it.
    fn handle_input(&mut self, event: InputEvent) -> (handled: bool)
        requires
            old(self).interactive_wf(),
        ensures
            final(self).interactive_wf(),
    ;
}

} // verus!
