//! A one-line text field with a cursor, an optional length limit, an
//! optional check of its value, and a masked mode for passwords.
//! Positions and lengths are counted in characters.

use vstd::prelude::*;
use vstd::string::*;
use crate::text::{chars_of, string_of, opt_view};
use super::{Focusable, InputEvent, Interactive, Validatable};

verus! {

/// A check of a field's value: `None` when the value is acceptable, else the
/// reason it is not.
pub trait InputValidator {
    /// Whether `verdict` is an answer this validator gives for `value`
    /// (`None`: the value is acceptable). A validator that does not say
    /// more admits every answer.
    open spec fn answers(&self, value: Seq<char>, verdict: Option<Seq<char>>) -> bool {
        true
    }

    /// Checks `value`.
    fn check(&self, value: &str) -> (r: Option<String>)
        ensures
            self.answers(value@, opt_view(r)),
    ;
}

/// The validator of a field that checks nothing: it accepts every value.
pub struct NoValidator;

impl InputValidator for NoValidator {
    open spec fn answers(&self, value: Seq<char>, verdict: Option<Seq<char>>) -> bool {
        verdict is None
    }

    fn check(&self, _value: &str) -> (r: Option<String>) {
        None
    }
}

/// What a text field is, seen from outside.
#[verifier::ext_equal]
pub struct InputView {
    pub label: Seq<char>,
    pub value: Seq<char>,
    pub cursor: nat,
    pub focused: bool,
    pub enabled: bool,
    pub has_validator: bool,
    /// Whether an error (`None`: no error) is what the field's check gives
    /// for a value: its validator's answer, or `None` without a validator
    pub answers: spec_fn(Seq<char>, Option<Seq<char>>) -> bool,
    pub error: Option<Seq<char>>,
    pub placeholder: Option<Seq<char>>,
    pub max_length: Option<nat>,
    pub password: bool,
}

/// `v` with `c` inserted before position `at`.
pub open spec fn insert_at(v: Seq<char>, at: nat, c: char) -> Seq<char> {
    v.insert(at as int, c)
}

/// Whether a character may be typed: there is no limit, or the value is
/// shorter than it.
pub open spec fn has_room(v: InputView) -> bool {
    match v.max_length {
        Some(max) => v.value.len() < max,
        None => true,
    }
}

/// A text field, checked by a validator of type `V` once it has one.
pub struct InputField<V = NoValidator> {
    label: String,
    value: Vec<char>,
    cursor: usize,
    focused: bool,
    enabled: bool,
    validator: Option<V>,
    error: Option<String>,
    placeholder: Option<String>,
    max_length: Option<usize>,
    password: bool,
}

impl<V: InputValidator> View for InputField<V> {
    type V = InputView;

    closed spec fn view(&self) -> InputView {
        InputView {
            label: self.label@,
            value: self.value@,
            cursor: self.cursor as nat,
            focused: self.focused,
            enabled: self.enabled,
            has_validator: self.validator is Some,
            answers: |value: Seq<char>, verdict: Option<Seq<char>>| match self.validator {
                Some(v) => v.answers(value, verdict),
                None => verdict is None,
            },
            error: opt_view(self.error),
            placeholder: opt_view(self.placeholder),
            max_length: match self.max_length { Some(m) => Some(m as nat), None => None },
            password: self.password,
        }
    }
}

/// The field's error is what its check gives for its value.
pub open spec fn checked(v: InputView) -> bool {
    (v.answers)(v.value, v.error)
}

/// The fields of a text field's view other than value, cursor, error and focus.
pub open spec fn same_setup(a: InputView, b: InputView) -> bool {
    &&& a.label == b.label
    &&& a.enabled == b.enabled
    &&& a.has_validator == b.has_validator
    &&& a.answers == b.answers
    &&& a.placeholder == b.placeholder
    &&& a.max_length == b.max_length
    &&& a.password == b.password
}

impl InputField<NoValidator> {
    /// An empty, enabled, unfocused field with no limit and no check.
    pub fn new(label: &str) -> (f: Self)
        ensures
            f.wf(),
            f@.label == label@,
            f@.value.len() == 0,
            f@.cursor == 0,
            !f@.focused,
            f@.enabled,
            !f@.has_validator,
            f@.error is None,
            f@.placeholder is None,
            f@.max_length is None,
            !f@.password,
    {
        InputField {
            label: String::from_str(label),
            value: Vec::new(),
            cursor: 0,
            focused: false,
            enabled: true,
            validator: None,
            error: None,
            placeholder: None,
            max_length: None,
            password: false,
        }
    }
}

impl<V: InputValidator> InputField<V> {
    /// The cursor is never past the end of the value.
    pub open spec fn wf(&self) -> bool {
        self@.cursor <= self@.value.len()
    }

    /// The same field holding `value`, with the cursor at its end.
    pub fn with_value(self, value: &str) -> (f: Self)
        ensures
            f.wf(),
            f@.value == value@,
            f@.cursor == value@.len(),
            f@.error == self@.error,
            f@.focused == self@.focused,
            same_setup(f@, self@),
    {
        let v = chars_of(value);
        let n = v.len();
        InputField { value: v, cursor: n, ..self }
    }

    /// The same field with a placeholder shown while it is empty.
    pub fn with_placeholder(self, placeholder: &str) -> (f: Self)
        ensures
            f@.placeholder == Some(placeholder@),
            f@.value == self@.value,
            f@.cursor == self@.cursor,
            f@.label == self@.label,
            f@.max_length == self@.max_length,
            f@.password == self@.password,
            f@.has_validator == self@.has_validator,
            f@.enabled == self@.enabled,
            f@.focused == self@.focused,
            f@.error == self@.error,
    {
        InputField { placeholder: Some(String::from_str(placeholder)), ..self }
    }

    /// The same field, refusing characters once the value is `max_length` long.
    pub fn with_max_length(self, max_length: usize) -> (f: Self)
        ensures
            f@.max_length == Some(max_length as nat),
            f@.value == self@.value,
            f@.cursor == self@.cursor,
            f@.label == self@.label,
            f@.placeholder == self@.placeholder,
            f@.password == self@.password,
            f@.has_validator == self@.has_validator,
            f@.enabled == self@.enabled,
            f@.focused == self@.focused,
            f@.error == self@.error,
    {
        InputField { max_length: Some(max_length), ..self }
    }

    /// The same field, shown masked.
    pub fn password(self) -> (f: Self)
        ensures
            f@.password,
            f@.value == self@.value,
            f@.cursor == self@.cursor,
            f@.label == self@.label,
            f@.placeholder == self@.placeholder,
            f@.max_length == self@.max_length,
            f@.has_validator == self@.has_validator,
            f@.enabled == self@.enabled,
            f@.focused == self@.focused,
            f@.error == self@.error,
    {
        InputField { password: true, ..self }
    }

    /// The same field, checked by `validator` from now on.
    pub fn with_validator<W: InputValidator>(self, validator: W) -> (f: InputField<W>)
        ensures
            f@.has_validator,
            forall|v: Seq<char>, e: Option<Seq<char>>| #[trigger] (f@.answers)(v, e) == validator.answers(v, e),
            f@.value == self@.value,
            f@.cursor == self@.cursor,
            f@.label == self@.label,
            f@.placeholder == self@.placeholder,
            f@.max_length == self@.max_length,
            f@.password == self@.password,
            f@.enabled == self@.enabled,
            f@.focused == self@.focused,
            f@.error == self@.error,
    {
        InputField {
            label: self.label,
            value: self.value,
            cursor: self.cursor,
            focused: self.focused,
            enabled: self.enabled,
            validator: Some(validator),
            error: self.error,
            placeholder: self.placeholder,
            max_length: self.max_length,
            password: self.password,
        }
    }

    /// Enables or disables the field.
    pub fn set_enabled(&mut self, enabled: bool)
        ensures
            final(self)@.enabled == enabled,
            final(self)@.value == old(self)@.value,
            final(self)@.cursor == old(self)@.cursor,
            final(self)@.label == old(self)@.label,
            final(self)@.placeholder == old(self)@.placeholder,
            final(self)@.max_length == old(self)@.max_length,
            final(self)@.password == old(self)@.password,
            final(self)@.has_validator == old(self)@.has_validator,
            final(self)@.focused == old(self)@.focused,
            final(self)@.error == old(self)@.error,
    {
        self.enabled = enabled;
    }

    /// The value.
    pub fn value(&self) -> (r: String)
        ensures
            r@ == self@.value,
    {
        string_of(&self.value)
    }

    /// The label.
    pub fn label(&self) -> (r: &str)
        ensures
            r@ == self@.label,
    {
        self.label.as_str()
    }

    /// The cursor position.
    pub fn cursor(&self) -> (r: usize)
        ensures
            r == self@.cursor,
    {
        self.cursor
    }

    /// The message of the last check, if it failed.
    pub fn error(&self) -> (r: Option<String>)
        ensures
            opt_view(r) == self@.error,
    {
        match &self.error {
            Some(e) => Some(e.clone()),
            None => None,
        }
    }

    /// Whether the field is enabled.
    pub fn is_enabled(&self) -> (r: bool)
        ensures
            r == self@.enabled,
    {
        self.enabled
    }

    /// Whether the field is shown masked.
    pub fn is_password(&self) -> (r: bool)
        ensures
            r == self@.password,
    {
        self.password
    }

    /// Whether a placeholder is set.
    pub fn has_placeholder(&self) -> (r: bool)
        ensures
            r == self@.placeholder is Some,
    {
        self.placeholder.is_some()
    }

    /// Replaces the value; the cursor stays where it was unless that is past
    /// the new end, and the value is checked again.
    pub fn set_value(&mut self, value: &str)
        ensures
            final(self).wf(),
            final(self)@.value == value@,
            final(self)@.cursor == if old(self)@.cursor <= value@.len() { old(self)@.cursor } else { value@.len() },
            !final(self)@.has_validator ==> final(self)@.error is None,
            checked(final(self)@),
            final(self)@.focused == old(self)@.focused,
            same_setup(final(self)@, old(self)@),
    {
        let v = chars_of(value);
        let n = v.len();
        self.value = v;
        if self.cursor > n {
            self.cursor = n;
        }
        self.revalidate();
    }

    /// Empties the field and forgets the last check's message.
    pub fn clear(&mut self)
        ensures
            final(self).wf(),
            final(self)@.value.len() == 0,
            final(self)@.cursor == 0,
            final(self)@.error is None,
            final(self)@.focused == old(self)@.focused,
            same_setup(final(self)@, old(self)@),
    {
        self.value.clear();
        self.cursor = 0;
        self.error = None;
    }

    /// Checks the value again and keeps the result.
    pub fn revalidate(&mut self)
        ensures
            final(self)@.value == old(self)@.value,
            final(self)@.cursor == old(self)@.cursor,
            final(self)@.focused == old(self)@.focused,
            same_setup(final(self)@, old(self)@),
            !final(self)@.has_validator ==> final(self)@.error is None,
            checked(final(self)@),
    {
        let e = self.validate();
        self.error = e;
    }

    /// Inserts `c` at the cursor unless the length limit is reached.
    fn insert_char(&mut self, c: char)
        requires
            old(self).wf(),
        ensures
            final(self).wf(),
            has_room(old(self)@) ==> {
                &&& final(self)@.value == insert_at(old(self)@.value, old(self)@.cursor, c)
                &&& final(self)@.cursor == old(self)@.cursor + 1
            },
            !has_room(old(self)@) ==> final(self)@ == old(self)@,
            !final(self)@.has_validator && has_room(old(self)@) ==> final(self)@.error is None,
            has_room(old(self)@) ==> checked(final(self)@),
            final(self)@.focused == old(self)@.focused,
            same_setup(final(self)@, old(self)@),
    {
        match self.max_length {
            Some(max) => {
                if self.value.len() >= max {
                    return;
                }
            },
            None => {},
        }
        self.value.insert(self.cursor, c);
        let _n = self.value.len();
        self.cursor = self.cursor + 1;
        self.revalidate();
    }

    /// Removes the character before the cursor, if any.
    fn delete_char(&mut self)
        requires
            old(self).wf(),
        ensures
            final(self).wf(),
            old(self)@.cursor > 0 ==> {
                &&& final(self)@.value == old(self)@.value.remove(old(self)@.cursor - 1)
                &&& final(self)@.cursor == old(self)@.cursor - 1
            },
            old(self)@.cursor == 0 ==> final(self)@ == old(self)@,
            !final(self)@.has_validator && old(self)@.cursor > 0 ==> final(self)@.error is None,
            old(self)@.cursor > 0 ==> checked(final(self)@),
            final(self)@.focused == old(self)@.focused,
            same_setup(final(self)@, old(self)@),
    {
        if self.cursor > 0 {
            let _ = self.value.remove(self.cursor - 1);
            self.cursor = self.cursor - 1;
            self.revalidate();
        }
    }

    /// Removes the character at the cursor, if any.
    fn delete_char_forward(&mut self)
        requires
            old(self).wf(),
        ensures
            final(self).wf(),
            old(self)@.cursor < old(self)@.value.len() ==> {
                &&& final(self)@.value == old(self)@.value.remove(old(self)@.cursor as int)
                &&& final(self)@.cursor == old(self)@.cursor
            },
            old(self)@.cursor == old(self)@.value.len() ==> final(self)@ == old(self)@,
            !final(self)@.has_validator && old(self)@.cursor < old(self)@.value.len() ==> final(self)@.error is None,
            old(self)@.cursor < old(self)@.value.len() ==> checked(final(self)@),
            final(self)@.focused == old(self)@.focused,
            same_setup(final(self)@, old(self)@),
    {
        if self.cursor < self.value.len() {
            let _ = self.value.remove(self.cursor);
            self.revalidate();
        }
    }

    /// Text to show: bullets for a masked non-empty value, the placeholder
    /// (or nothing) for an empty one, else the value.
    pub fn display_text(&self) -> (r: String)
        ensures
            r@ == display_of(self@),
    {
        if self.password && self.value.len() > 0 {
            let n = self.value.len();
            let mut v: Vec<char> = Vec::new();
            let mut i: usize = 0;
            while i < n
                invariant
                    i <= n,
                    v@ == Seq::new(i as nat, |k: int| '•'),
                decreases n - i,
            {
                v.push('•');
                i = i + 1;
                assert(v@ =~= Seq::new(i as nat, |k: int| '•'));
            }
            string_of(&v)
        } else if self.value.len() == 0 {
            match &self.placeholder {
                Some(p) => p.clone(),
                None => String::new(),
            }
        } else {
            string_of(&self.value)
        }
    }
}

/// What a field shows.
pub open spec fn display_of(v: InputView) -> Seq<char> {
    if v.password && v.value.len() > 0 {
        Seq::new(v.value.len(), |k: int| '•')
    } else if v.value.len() == 0 {
        match v.placeholder {
            Some(p) => p,
            None => Seq::empty(),
        }
    } else {
        v.value
    }
}

impl<V: InputValidator> Validatable for InputField<V> {
    /// The validator's verdict on the value; `None` when there is no validator.
    fn validate(&self) -> (r: Option<String>)
        ensures
            !self@.has_validator ==> r is None,
            (self@.answers)(self@.value, opt_view(r)),
    {
        match &self.validator {
            Some(v) => {
                let s = string_of(&self.value);
                v.check(s.as_str())
            },
            None => None,
        }
    }

    /// Whether `validate` finds nothing wrong (the trait's contract ties the
    /// result to an answer `validate` gives).
    fn is_valid(&self) -> (r: bool)
        ensures
            !self@.has_validator ==> r,
            r ==> (self@.answers)(self@.value, None),
            !r ==> exists|e: Seq<char>| (self@.answers)(self@.value, Some(e)),
    {
        let v = self.validate();
        proof {
            if v is Some {
                assert((self@.answers)(self@.value, Some(v->0@)));
            }
        }
        v.is_none()
    }
}

impl<V: InputValidator> Focusable for InputField<V> {
    fn is_focused(&self) -> (r: bool)
        ensures
            r == self@.focused,
    {
        self.focused
    }

    /// Gives or takes the focus; taking it checks the value again.
    fn set_focused(&mut self, focused: bool)
        ensures
            final(self)@.focused == focused,
            final(self)@.value == old(self)@.value,
            final(self)@.cursor == old(self)@.cursor,
            same_setup(final(self)@, old(self)@),
            focused ==> final(self)@.error == old(self)@.error,
            !focused && !final(self)@.has_validator ==> final(self)@.error is None,
            !focused ==> checked(final(self)@),
    {
        self.focused = focused;
        if focused {
            self.on_focus();
        } else {
            self.on_blur();
        }
    }

    fn on_focus(&mut self)
        ensures
            final(self)@ == old(self)@,
    {
    }

    fn on_blur(&mut self)
        ensures
            final(self)@.value == old(self)@.value,
            final(self)@.cursor == old(self)@.cursor,
            final(self)@.focused == old(self)@.focused,
            same_setup(final(self)@, old(self)@),
            !final(self)@.has_validator ==> final(self)@.error is None,
            checked(final(self)@),
    {
        self.revalidate();
    }
}

/// Whether `event` changes the value of the field `v`: a character with
/// room for it, Backspace after the start, Delete before the end.
pub open spec fn edits(v: InputView, event: InputEvent) -> bool {
    match event {
        InputEvent::Char(_) => has_room(v),
        InputEvent::Backspace => v.cursor > 0,
        InputEvent::Delete => v.cursor < v.value.len(),
        _ => false,
    }
}

/// The view of a field without a validator after it handles `event`.
pub open spec fn typed(v: InputView, event: InputEvent) -> InputView {
    if !v.enabled {
        v
    } else {
        match event {
            InputEvent::Char(c) => if has_room(v) {
                InputView { value: insert_at(v.value, v.cursor, c), cursor: v.cursor + 1, error: None, ..v }
            } else {
                v
            },
            InputEvent::Backspace => if v.cursor > 0 {
                InputView { value: v.value.remove(v.cursor - 1), cursor: (v.cursor - 1) as nat, error: None, ..v }
            } else {
                v
            },
            InputEvent::Delete => if v.cursor < v.value.len() {
                InputView { value: v.value.remove(v.cursor as int), error: None, ..v }
            } else {
                v
            },
            InputEvent::Left => InputView { cursor: if v.cursor > 0 { (v.cursor - 1) as nat } else { 0 }, ..v },
            InputEvent::Right => InputView {
                cursor: if v.cursor < v.value.len() { v.cursor + 1 } else { v.cursor },
                ..v
            },
            InputEvent::Home => InputView { cursor: 0, ..v },
            InputEvent::End => InputView { cursor: v.value.len(), ..v },
            _ => v,
        }
    }
}

impl<V: InputValidator> Interactive for InputField<V> {
    open spec fn interactive_wf(&self) -> bool {
        self.wf()
    }

    /// A disabled field takes nothing. Otherwise a character is inserted at
    /// the cursor (unless the limit is reached), Backspace and Delete remove
    /// the character before or at the cursor, and Left, Right, Home and End
    /// move the cursor; these are taken, and any other key is not.
    fn handle_input(&mut self, event: InputEvent) -> (handled: bool)
        ensures
            handled == (old(self)@.enabled && match event {
                InputEvent::Char(_) | InputEvent::Backspace | InputEvent::Delete | InputEvent::Left
                | InputEvent::Right | InputEvent::Home | InputEvent::End => true,
                _ => false,
            }),
            !handled ==> final(self)@ == old(self)@,
            final(self)@.focused == old(self)@.focused,
            same_setup(final(self)@, old(self)@),
            !old(self)@.has_validator ==> final(self)@ == typed(old(self)@, event),
            handled && edits(old(self)@, event) ==> checked(final(self)@),
            handled ==> match event {
                InputEvent::Char(c) => if has_room(old(self)@) {
                    final(self)@.value == insert_at(old(self)@.value, old(self)@.cursor, c)
                        && final(self)@.cursor == old(self)@.cursor + 1
                } else {
                    final(self)@ == old(self)@
                },
                InputEvent::Backspace => if old(self)@.cursor > 0 {
                    final(self)@.value == old(self)@.value.remove(old(self)@.cursor - 1)
                        && final(self)@.cursor == old(self)@.cursor - 1
                } else {
                    final(self)@ == old(self)@
                },
                InputEvent::Delete => if old(self)@.cursor < old(self)@.value.len() {
                    final(self)@.value == old(self)@.value.remove(old(self)@.cursor as int)
                        && final(self)@.cursor == old(self)@.cursor
                } else {
                    final(self)@ == old(self)@
                },
                InputEvent::Left => final(self)@.value == old(self)@.value && final(self)@.error == old(self)@.error
                    && final(self)@.cursor == if old(self)@.cursor > 0 { (old(self)@.cursor - 1) as nat } else { 0 },
                InputEvent::Right => final(self)@.value == old(self)@.value && final(self)@.error == old(self)@.error
                    && final(self)@.cursor == if old(self)@.cursor < old(self)@.value.len() {
                        old(self)@.cursor + 1
                    } else {
                        old(self)@.cursor
                    },
                InputEvent::Home => final(self)@.value == old(self)@.value && final(self)@.error == old(self)@.error
                    && final(self)@.cursor == 0,
                InputEvent::End => final(self)@.value == old(self)@.value && final(self)@.error == old(self)@.error
                    && final(self)@.cursor == old(self)@.value.len(),
                _ => true,
            },
    {
        if !self.enabled {
            return false;
        }
        match event {
            InputEvent::Char(c) => {
                self.insert_char(c);
                true
            },
            InputEvent::Backspace => {
                self.delete_char();
                true
            },
            InputEvent::Delete => {
                self.delete_char_forward();
                true
            },
            InputEvent::Left => {
                self.move_cursor_left();
                true
            },
            InputEvent::Right => {
                self.move_cursor_right();
                true
            },
            InputEvent::Home => {
                self.move_cursor_home();
                true
            },
            InputEvent::End => {
                self.move_cursor_end();
                true
            },
            _ => false,
        }
    }
}

impl<V: InputValidator> InputField<V> {
    /// Moves the cursor one character left, stopping at the start.
    pub fn move_cursor_left(&mut self)
        requires
            old(self).wf(),
        ensures
            final(self).wf(),
            final(self)@.cursor == if old(self)@.cursor > 0 { (old(self)@.cursor - 1) as nat } else { 0 },
            final(self)@.value == old(self)@.value,
            final(self)@.error == old(self)@.error,
            final(self)@.focused == old(self)@.focused,
            same_setup(final(self)@, old(self)@),
    {
        if self.cursor > 0 {
            self.cursor = self.cursor - 1;
        }
    }

    /// Moves the cursor one character right, stopping at the end.
    pub fn move_cursor_right(&mut self)
        requires
            old(self).wf(),
        ensures
            final(self).wf(),
            final(self)@.cursor == if old(self)@.cursor < old(self)@.value.len() {
                old(self)@.cursor + 1
            } else {
                old(self)@.cursor
            },
            final(self)@.value == old(self)@.value,
            final(self)@.error == old(self)@.error,
            final(self)@.focused == old(self)@.focused,
            same_setup(final(self)@, old(self)@),
    {
        if self.cursor < self.value.len() {
            self.cursor = self.cursor + 1;
        }
    }

    /// Moves the cursor to the start.
    pub fn move_cursor_home(&mut self)
        ensures
            final(self).wf(),
            final(self)@.cursor == 0,
            final(self)@.value == old(self)@.value,
            final(self)@.error == old(self)@.error,
            final(self)@.focused == old(self)@.focused,
            same_setup(final(self)@, old(self)@),
    {
        self.cursor = 0;
    }

    /// Moves the cursor to the end.
    pub fn move_cursor_end(&mut self)
        ensures
            final(self).wf(),
            final(self)@.cursor == old(self)@.value.len(),
            final(self)@.value == old(self)@.value,
            final(self)@.error == old(self)@.error,
            final(self)@.focused == old(self)@.focused,
            same_setup(final(self)@, old(self)@),
    {
        self.cursor = self.value.len();
    }
}

/// Typing a character and then pressing Backspace gives back the value and
/// the cursor as they were.
pub proof fn lemma_backspace_undoes_typing(value: Seq<char>, cursor: nat, c: char)
    requires
        cursor <= value.len(),
    ensures
        insert_at(value, cursor, c).remove(cursor as int) == value,
        ((cursor + 1) - 1) as nat == cursor,
{
    assert(insert_at(value, cursor, c).remove(cursor as int) =~= value);
}

/// Typing never makes a value longer than its limit, when it was within it.
pub proof fn lemma_typing_respects_limit(before: InputView, after: InputView, c: char)
    requires
        before.cursor <= before.value.len(),
        before.max_length matches Some(max) && before.value.len() <= max,
        has_room(before) ==> after.value == insert_at(before.value, before.cursor, c),
        !has_room(before) ==> after == before,
    ensures
        after.value.len() <= before.max_length->0,
{
}

} // verus!
