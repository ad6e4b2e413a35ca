//! A list of check boxes moved through with the arrow keys and toggled with
//! Space or Enter.

use vstd::prelude::*;
use vstd::string::*;
use super::{Focusable, InputEvent, Interactive};

verus! {

/// A check box.
pub struct CheckboxItem {
    /// Display label
    pub label: String,
    /// Optional description
    pub description: Option<String>,
    /// Whether it is checked
    pub checked: bool,
    /// Whether it can be toggled
    pub enabled: bool,
}

impl CheckboxItem {
    /// An unchecked, enabled item without description.
    pub fn new(label: &str) -> (it: Self)
        ensures
            it.label@ == label@,
            it.description is None,
            !it.checked,
            it.enabled,
    {
        CheckboxItem { label: String::from_str(label), description: None, checked: false, enabled: true }
    }

    /// The same item, checked or not.
    pub fn checked(self, checked: bool) -> (it: Self)
        ensures
            it.checked == checked,
            it.label == self.label,
            it.description == self.description,
            it.enabled == self.enabled,
    {
        CheckboxItem { checked, ..self }
    }

    /// The same item with a description.
    pub fn with_description(self, description: &str) -> (it: Self)
        ensures
            it.description matches Some(d) && d@ == description@,
            it.label == self.label,
            it.checked == self.checked,
            it.enabled == self.enabled,
    {
        CheckboxItem { description: Some(String::from_str(description)), ..self }
    }
}

/// What a check box list is, seen from outside.
pub struct CheckboxView {
    pub title: Seq<char>,
    pub items: Seq<CheckboxItem>,
    pub focused_index: nat,
    pub focused: bool,
    pub enabled: bool,
}

/// A list of check boxes.
pub struct CheckboxList {
    title: String,
    items: Vec<CheckboxItem>,
    focused_index: usize,
    focused: bool,
    enabled: bool,
}

impl View for CheckboxList {
    type V = CheckboxView;

    closed spec fn view(&self) -> CheckboxView {
        CheckboxView {
            title: self.title@,
            items: self.items@,
            focused_index: self.focused_index as nat,
            focused: self.focused,
            enabled: self.enabled,
        }
    }
}

/// The items among the first `n` that are checked, in order.
pub open spec fn checked_prefix(items: Seq<CheckboxItem>, n: int) -> Seq<CheckboxItem>
    decreases n,
{
    if n <= 0 {
        Seq::empty()
    } else if items[n - 1].checked {
        checked_prefix(items, n - 1).push(items[n - 1])
    } else {
        checked_prefix(items, n - 1)
    }
}

/// The items with the item at `i` toggled, when it exists and is enabled.
pub open spec fn toggled(items: Seq<CheckboxItem>, i: int) -> Seq<CheckboxItem> {
    if 0 <= i < items.len() && items[i].enabled {
        items.update(i, CheckboxItem { checked: !items[i].checked, ..items[i] })
    } else {
        items
    }
}

impl CheckboxList {
    /// An empty, enabled, unfocused list.
    pub fn new(title: &str) -> (l: Self)
        ensures
            l@.title == title@,
            l@.items.len() == 0,
            l@.focused_index == 0,
            !l@.focused,
            l@.enabled,
    {
        CheckboxList { title: String::from_str(title), items: Vec::new(), focused_index: 0, focused: false, enabled: true }
    }

    /// The same list with one more item at the end.
    pub fn add_item(self, item: CheckboxItem) -> (l: Self)
        ensures
            l@.items == self@.items.push(item),
            l@.title == self@.title,
            l@.focused_index == self@.focused_index,
            l@.focused == self@.focused,
            l@.enabled == self@.enabled,
    {
        let mut l = self;
        l.items.push(item);
        l
    }

    /// The same list with its items replaced.
    pub fn with_items(self, items: Vec<CheckboxItem>) -> (l: Self)
        ensures
            l@.items == items@,
            l@.title == self@.title,
            l@.focused_index == self@.focused_index,
            l@.focused == self@.focused,
            l@.enabled == self@.enabled,
    {
        CheckboxList { items, ..self }
    }

    /// The checked items, in order.
    pub fn checked_items(&self) -> (r: Vec<&CheckboxItem>)
        ensures
            r@.len() == checked_prefix(self@.items, self@.items.len() as int).len(),
            forall|k: int| 0 <= k < r@.len() ==> *r@[k] == checked_prefix(self@.items, self@.items.len() as int)[k],
    {
        let mut r: Vec<&CheckboxItem> = Vec::new();
        let mut i: usize = 0;
        while i < self.items.len()
            invariant
                i <= self@.items.len(),
                r@.len() == checked_prefix(self@.items, i as int).len(),
                forall|k: int| 0 <= k < r@.len() ==> *r@[k] == checked_prefix(self@.items, i as int)[k],
            decreases self@.items.len() - i,
        {
            if self.items[i].checked {
                r.push(&self.items[i]);
            }
            i = i + 1;
        }
        r
    }

    /// The items.
    pub fn items(&self) -> (r: &Vec<CheckboxItem>)
        ensures
            r@ == self@.items,
    {
        &self.items
    }

    /// Index of the item under the cursor.
    pub fn focused_index(&self) -> (r: usize)
        ensures
            r == self@.focused_index,
    {
        self.focused_index
    }

    /// The title.
    pub fn title(&self) -> (r: &str)
        ensures
            r@ == self@.title,
    {
        self.title.as_str()
    }

    /// Whether the list is enabled.
    pub fn is_enabled(&self) -> (r: bool)
        ensures
            r == self@.enabled,
    {
        self.enabled
    }

    /// Toggles the item under the cursor when it exists and is enabled.
    fn toggle_current(&mut self)
        ensures
            final(self)@.items == toggled(old(self)@.items, old(self)@.focused_index as int),
            final(self)@.title == old(self)@.title,
            final(self)@.focused_index == old(self)@.focused_index,
            final(self)@.focused == old(self)@.focused,
            final(self)@.enabled == old(self)@.enabled,
    {
        let i = self.focused_index;
        if i < self.items.len() && self.items[i].enabled {
            let mut item = self.items.remove(i);
            item.checked = !item.checked;
            self.items.insert(i, item);
            assert(self@.items =~= toggled(old(self)@.items, i as int));
        }
    }
}

impl Focusable for CheckboxList {
    fn is_focused(&self) -> (r: bool)
        ensures
            r == self@.focused,
    {
        self.focused
    }

    fn set_focused(&mut self, focused: bool)
        ensures
            final(self)@.focused == focused,
            final(self)@.items == old(self)@.items,
            final(self)@.title == old(self)@.title,
            final(self)@.focused_index == old(self)@.focused_index,
            final(self)@.enabled == old(self)@.enabled,
    {
        self.focused = focused;
    }
}

impl Interactive for CheckboxList {
    open spec fn interactive_wf(&self) -> bool {
        true
    }

    /// A disabled list takes nothing. Otherwise Up and Down move the cursor
    /// (stopping at the ends), Space and Enter toggle the item under it.
    fn handle_input(&mut self, event: InputEvent) -> (handled: bool)
        ensures
            handled == (old(self)@.enabled && match event {
                InputEvent::Up | InputEvent::Down | InputEvent::Enter => true,
                InputEvent::Char(c) => c == ' ',
                _ => false,
            }),
            final(self)@.title == old(self)@.title,
            final(self)@.focused == old(self)@.focused,
            final(self)@.enabled == old(self)@.enabled,
            final(self)@.items == if handled && (event == InputEvent::Enter || event == InputEvent::Char(' ')) {
                toggled(old(self)@.items, old(self)@.focused_index as int)
            } else {
                old(self)@.items
            },
            final(self)@.focused_index == if handled && event == InputEvent::Up && old(self)@.focused_index > 0 {
                (old(self)@.focused_index - 1) as nat
            } else if handled && event == InputEvent::Down && old(self)@.focused_index + 1 < old(self)@.items.len() {
                old(self)@.focused_index + 1
            } else {
                old(self)@.focused_index
            },
    {
        if !self.enabled {
            return false;
        }
        match event {
            InputEvent::Up => {
                if self.focused_index > 0 {
                    self.focused_index = self.focused_index - 1;
                }
                true
            },
            InputEvent::Down => {
                let n = self.items.len();
                let last: usize = if n > 0 { n - 1 } else { 0 };
                if self.focused_index < last {
                    self.focused_index = self.focused_index + 1;
                }
                true
            },
            InputEvent::Enter => {
                self.toggle_current();
                true
            },
            InputEvent::Char(c) => {
                if c == ' ' {
                    self.toggle_current();
                    true
                } else {
                    false
                }
            },
            _ => false,
        }
    }
}

/// Toggling the same check box twice leaves the items as they were.
pub proof fn lemma_toggle_twice(items: Seq<CheckboxItem>, i: int)
    ensures
        toggled(toggled(items, i), i) == items,
{
    if 0 <= i < items.len() && items[i].enabled {
        assert(toggled(toggled(items, i), i) =~= items);
    }
}

} // verus!
