//! A one-line status message: success, warning, error or information.

use vstd::prelude::*;
use vstd::string::*;

verus! {

/// Kind of a status message.
#[derive(Debug, Clone, Copy, PartialEq, Eq, Structural)]
pub enum MessageType {
    /// Something went well
    Success,
    /// Something deserves attention
    Warning,
    /// Something failed
    Error,
    /// Plain information
    Info,
}

/// The icon shown before a message of each kind.
pub open spec fn message_icon(t: MessageType) -> Seq<char> {
    match t {
        MessageType::Success => "✓"@,
        MessageType::Warning => "⚠"@,
        MessageType::Error => "✗"@,
        MessageType::Info => "ℹ"@,
    }
}

impl MessageType {
    /// The icon shown before the message.
    pub fn icon(&self) -> (r: &'static str)
        ensures
            r@ == message_icon(*self),
    {
        match self {
            MessageType::Success => "✓",
            MessageType::Warning => "⚠",
            MessageType::Error => "✗",
            MessageType::Info => "ℹ",
        }
    }
}

/// A status message.
pub struct StatusMessage {
    /// Message text
    pub text: String,
    /// Its kind
    pub message_type: MessageType,
    /// Whether a border is drawn around it
    pub show_border: bool,
}

impl StatusMessage {
    /// A message of the given kind, without border.
    pub fn new(message_type: MessageType, text: &str) -> (m: Self)
        ensures
            m.text@ == text@,
            m.message_type == message_type,
            !m.show_border,
    {
        StatusMessage { text: String::from_str(text), message_type, show_border: false }
    }

    /// The same message with a border.
    pub fn with_border(self) -> (m: Self)
        ensures
            m.show_border,
            m.text == self.text,
            m.message_type == self.message_type,
    {
        StatusMessage { show_border: true, ..self }
    }

    /// A success message.
    pub fn success(text: &str) -> (m: Self)
        ensures
            m.text@ == text@,
            m.message_type == MessageType::Success,
            !m.show_border,
    {
        Self::new(MessageType::Success, text)
    }

    /// A warning message.
    pub fn warning(text: &str) -> (m: Self)
        ensures
            m.text@ == text@,
            m.message_type == MessageType::Warning,
            !m.show_border,
    {
        Self::new(MessageType::Warning, text)
    }

    /// An error message.
    pub fn error(text: &str) -> (m: Self)
        ensures
            m.text@ == text@,
            m.message_type == MessageType::Error,
            !m.show_border,
    {
        Self::new(MessageType::Error, text)
    }

    /// An information message.
    pub fn info(text: &str) -> (m: Self)
        ensures
            m.text@ == text@,
            m.message_type == MessageType::Info,
            !m.show_border,
    {
        Self::new(MessageType::Info, text)
    }
}

} // verus!
