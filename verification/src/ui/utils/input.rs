//! Keys as the terminal reports them, and their translation into the
//! events that components take.

use vstd::prelude::*;
use crate::ui::components::InputEvent;
use crate::ui::components::input::{InputView, typed};

verus! {

/// A key as the terminal reports it.
#[derive(Debug, Clone, Copy, PartialEq, Eq, Structural)]
pub enum Key {
    /// A printable character
    Char(char),
    /// Enter
    Enter,
    /// Escape
    Esc,
    /// Backspace
    Backspace,
    /// Delete
    Delete,
    /// Left arrow
    Left,
    /// Right arrow
    Right,
    /// Up arrow
    Up,
    /// Down arrow
    Down,
    /// Home
    Home,
    /// End
    End,
    /// Page up
    PageUp,
    /// Page down
    PageDown,
    /// Tab
    Tab,
    /// Shift+Tab
    BackTab,
    /// Insert
    Insert,
    /// A function key
    F(u8),
    /// No key
    Null,
    /// Any other key
    Other,
}

/// The event a component gets for a key, if any: characters, Backspace,
/// Delete, Left, Right, Home, End and Tab pass through, Shift+Tab counts as
/// Tab, and no other key reaches a component.
pub open spec fn input_event_of(key: Key) -> Option<InputEvent> {
    match key {
        Key::Char(c) => Some(InputEvent::Char(c)),
        Key::Backspace => Some(InputEvent::Backspace),
        Key::Delete => Some(InputEvent::Delete),
        Key::Left => Some(InputEvent::Left),
        Key::Right => Some(InputEvent::Right),
        Key::Home => Some(InputEvent::Home),
        Key::End => Some(InputEvent::End),
        Key::Tab | Key::BackTab => Some(InputEvent::Tab),
        _ => None,
    }
}

/// The event a component gets for `key`, if any.
pub fn keycode_to_input_event(key: Key) -> (r: Option<InputEvent>)
    ensures
        r == input_event_of(key),
        key == Key::Delete ==> r == Some(InputEvent::Delete),
        key == Key::Backspace ==> r == Some(InputEvent::Backspace),
        key matches Key::Char(c) ==> r == Some(InputEvent::Char(c)),
{
    match key {
        Key::Char(c) => Some(InputEvent::Char(c)),
        Key::Backspace => Some(InputEvent::Backspace),
        Key::Delete => Some(InputEvent::Delete),
        Key::Left => Some(InputEvent::Left),
        Key::Right => Some(InputEvent::Right),
        Key::Home => Some(InputEvent::Home),
        Key::End => Some(InputEvent::End),
        Key::Tab => Some(InputEvent::Tab),
        Key::BackTab => Some(InputEvent::Tab),
        _ => None,
    }
}

/// Each editing key reaches a component as the event of the same name:
/// a character as that character, Backspace as Backspace, Delete as Delete,
/// the arrows Left and Right, Home and End as themselves, and Tab and
/// Shift+Tab as Tab; Enter, Escape, Up and Down reach no component.
pub proof fn lemma_keys_keep_their_meaning(c: char)
    ensures
        input_event_of(Key::Char(c)) == Some(InputEvent::Char(c)),
        input_event_of(Key::Backspace) == Some(InputEvent::Backspace),
        input_event_of(Key::Delete) == Some(InputEvent::Delete),
        input_event_of(Key::Left) == Some(InputEvent::Left),
        input_event_of(Key::Right) == Some(InputEvent::Right),
        input_event_of(Key::Home) == Some(InputEvent::Home),
        input_event_of(Key::End) == Some(InputEvent::End),
        input_event_of(Key::Tab) == Some(InputEvent::Tab),
        input_event_of(Key::BackTab) == Some(InputEvent::Tab),
        input_event_of(Key::Enter) is None,
        input_event_of(Key::Esc) is None,
        input_event_of(Key::Up) is None,
        input_event_of(Key::Down) is None,
{
}

/// In an enabled text field without a validator, the Delete key removes the
/// character at the cursor and leaves the cursor where it is, and the
/// Backspace key removes the character before the cursor and moves it back
/// by one; Delete at the end and Backspace at the start change nothing.
pub proof fn lemma_delete_and_backspace_keys(v: InputView)
    requires
        v.enabled,
        v.cursor <= v.value.len(),
    ensures
        v.cursor < v.value.len() ==> {
            &&& typed(v, input_event_of(Key::Delete)->0).value
                == v.value.subrange(0, v.cursor as int) + v.value.subrange(v.cursor + 1int, v.value.len() as int)
            &&& typed(v, input_event_of(Key::Delete)->0).cursor == v.cursor
        },
        v.cursor == v.value.len() ==> typed(v, input_event_of(Key::Delete)->0) == v,
        v.cursor > 0 ==> {
            &&& typed(v, input_event_of(Key::Backspace)->0).value
                == v.value.subrange(0, v.cursor - 1) + v.value.subrange(v.cursor as int, v.value.len() as int)
            &&& typed(v, input_event_of(Key::Backspace)->0).cursor == v.cursor - 1
        },
        v.cursor == 0 ==> typed(v, input_event_of(Key::Backspace)->0) == v,
{
    if v.cursor < v.value.len() {
        assert(v.value.remove(v.cursor as int)
            =~= v.value.subrange(0, v.cursor as int) + v.value.subrange(v.cursor + 1int, v.value.len() as int));
    }
    if v.cursor > 0 {
        assert(v.value.remove(v.cursor - 1)
            =~= v.value.subrange(0, v.cursor - 1) + v.value.subrange(v.cursor as int, v.value.len() as int));
    }
}

} // verus!
