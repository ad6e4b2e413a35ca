//! A push button.

use vstd::prelude::*;
use vstd::string::*;
use super::{Focusable, InputEvent, Interactive};

verus! {

/// How a button looks.
#[derive(Debug, Clone, Copy, PartialEq, Eq, Structural)]
pub enum ButtonStyle {
    /// Primary action
    Primary,
    /// Secondary action
    Secondary,
    /// Dangerous action
    Danger,
    /// Successful action
    Success,
}

/// A push button that can hold the focus and be disabled.
pub struct Button {
    label: String,
    focused: bool,
    enabled: bool,
    style: ButtonStyle,
}

/// What a button is, seen from outside.
#[verifier::ext_equal]
pub struct ButtonView {
    pub label: Seq<char>,
    pub focused: bool,
    pub enabled: bool,
    pub style: ButtonStyle,
}

impl View for Button {
    type V = ButtonView;

    closed spec fn view(&self) -> ButtonView {
        ButtonView { label: self.label@, focused: self.focused, enabled: self.enabled, style: self.style }
    }
}

impl Button {
    /// A new enabled, unfocused primary button.
    pub fn new(label: &str) -> (b: Self)
        ensures
            b@.label == label@,
            !b@.focused,
            b@.enabled,
            b@.style == ButtonStyle::Primary,
    {
        Button { label: String::from_str(label), focused: false, enabled: true, style: ButtonStyle::Primary }
    }

    /// The same button with another style.
    pub fn with_style(self, style: ButtonStyle) -> (b: Self)
        ensures
            b@.style == style,
            b@.label == self@.label,
            b@.focused == self@.focused,
            b@.enabled == self@.enabled,
    {
        Button { style, ..self }
    }

    /// Enables or disables the button.
    pub fn set_enabled(&mut self, enabled: bool)
        ensures
            final(self)@.enabled == enabled,
            final(self)@.label == old(self)@.label,
            final(self)@.focused == old(self)@.focused,
            final(self)@.style == old(self)@.style,
    {
        self.enabled = enabled;
    }

    /// The label.
    pub fn label(&self) -> (r: &str)
        ensures
            r@ == self@.label,
    {
        self.label.as_str()
    }

    /// The style.
    pub fn style(&self) -> (r: ButtonStyle)
        ensures
            r == self@.style,
    {
        self.style
    }

    /// Whether the button is enabled.
    pub fn is_enabled(&self) -> (r: bool)
        ensures
            r == self@.enabled,
    {
        self.enabled
    }
}

impl Focusable for Button {
    fn is_focused(&self) -> (r: bool)
        ensures
            r == self@.focused,
    {
        self.focused
    }

    fn set_focused(&mut self, focused: bool)
        ensures
            final(self)@.focused == focused,
            final(self)@.label == old(self)@.label,
            final(self)@.enabled == old(self)@.enabled,
            final(self)@.style == old(self)@.style,
    {
        self.focused = focused;
    }
}

impl Interactive for Button {
    open spec fn interactive_wf(&self) -> bool {
        true
    }

    /// A button takes Enter and nothing else; its state does not change.
    fn handle_input(&mut self, event: InputEvent) -> (r: bool)
        ensures
            r == (event == InputEvent::Enter),
            final(self)@ == old(self)@,
    {
        match event {
            InputEvent::Enter => true,
            _ => false,
        }
    }
}

} // verus!
