//! A single-choice list moved through with the arrow keys; disabled items
//! are stepped over.

use vstd::prelude::*;
use vstd::string::*;
use super::{Focusable, InputEvent, Interactive};

verus! {

/// An item of a selection list.
pub struct SelectItem<T> {
    /// Display label
    pub label: String,
    /// Optional description
    pub description: Option<String>,
    /// Associated value
    pub value: T,
    /// Whether the item can be selected by moving onto it
    pub enabled: bool,
}

impl<T> SelectItem<T> {
    /// An enabled item without description.
    pub fn new(label: &str, value: T) -> (it: Self)
        ensures
            it.label@ == label@,
            it.description is None,
            it.value == value,
            it.enabled,
    {
        SelectItem { label: String::from_str(label), description: None, value, enabled: true }
    }

    /// The same item with a description.
    pub fn with_description(self, description: &str) -> (it: Self)
        ensures
            it.description matches Some(d) && d@ == description@,
            it.label == self.label,
            it.value == self.value,
            it.enabled == self.enabled,
    {
        SelectItem { description: Some(String::from_str(description)), ..self }
    }

    /// The same item, enabled or not.
    pub fn with_enabled(self, enabled: bool) -> (it: Self)
        ensures
            it.enabled == enabled,
            it.label == self.label,
            it.description == self.description,
            it.value == self.value,
    {
        SelectItem { enabled, ..self }
    }
}

/// Moving up from just below `j`: the nearest enabled item at or above `j`,
/// stopping at the first item.
pub open spec fn stop_upward(enabled: Seq<bool>, j: int) -> int
    decreases j,
{
    if j <= 0 {
        0
    } else if enabled[j] {
        j
    } else {
        stop_upward(enabled, j - 1)
    }
}

/// Moving down to `j`: the nearest enabled item at or below `j`, stopping at
/// the last item `last`.
pub open spec fn stop_downward(enabled: Seq<bool>, j: int, last: int) -> int
    decreases last - j,
{
    if j >= last {
        j
    } else if enabled[j] {
        j
    } else {
        stop_downward(enabled, j + 1, last)
    }
}

/// Where Up leaves the selection.
pub open spec fn after_up(enabled: Seq<bool>, selected: int) -> int {
    if selected > 0 { stop_upward(enabled, selected - 1) } else { selected }
}

/// Where Down leaves the selection.
pub open spec fn after_down(enabled: Seq<bool>, selected: int) -> int {
    if selected < enabled.len() - 1 { stop_downward(enabled, selected + 1, enabled.len() - 1) } else { selected }
}

/// What a selection list is, seen from outside.
pub struct SelectView<T> {
    pub title: Seq<char>,
    pub items: Seq<SelectItem<T>>,
    pub selected: nat,
    pub focused: bool,
    pub enabled: bool,
    pub show_descriptions: bool,
}

/// A single-choice list.
pub struct SelectList<T> {
    title: String,
    items: Vec<SelectItem<T>>,
    selected: usize,
    focused: bool,
    enabled: bool,
    show_descriptions: bool,
}

impl<T> View for SelectList<T> {
    type V = SelectView<T>;

    closed spec fn view(&self) -> SelectView<T> {
        SelectView {
            title: self.title@,
            items: self.items@,
            selected: self.selected as nat,
            focused: self.focused,
            enabled: self.enabled,
            show_descriptions: self.show_descriptions,
        }
    }
}

/// Which items are enabled.
pub open spec fn enabled_flags<T>(items: Seq<SelectItem<T>>) -> Seq<bool> {
    items.map_values(|it: SelectItem<T>| it.enabled)
}

proof fn lemma_stop_upward_bounds(enabled: Seq<bool>, j: int)
    requires
        0 <= j < enabled.len(),
    ensures
        0 <= stop_upward(enabled, j) <= j,
        stop_upward(enabled, j) == 0 || enabled[stop_upward(enabled, j)],
    decreases j,
{
    if j > 0 && !enabled[j] {
        lemma_stop_upward_bounds(enabled, j - 1);
    }
}

proof fn lemma_stop_downward_bounds(enabled: Seq<bool>, j: int, last: int)
    requires
        0 <= j <= last < enabled.len(),
    ensures
        j <= stop_downward(enabled, j, last) <= last,
        stop_downward(enabled, j, last) == last || enabled[stop_downward(enabled, j, last)],
    decreases last - j,
{
    if j < last && !enabled[j] {
        lemma_stop_downward_bounds(enabled, j + 1, last);
    }
}

impl<T> SelectList<T> {
    /// The selection is at most the number of items.
    pub open spec fn wf(&self) -> bool {
        self@.selected <= self@.items.len()
    }

    /// An empty, enabled, unfocused list.
    pub fn new(title: &str) -> (l: Self)
        ensures
            l.wf(),
            l@.title == title@,
            l@.items.len() == 0,
            l@.selected == 0,
            !l@.focused,
            l@.enabled,
            !l@.show_descriptions,
    {
        SelectList {
            title: String::from_str(title),
            items: Vec::new(),
            selected: 0,
            focused: false,
            enabled: true,
            show_descriptions: false,
        }
    }

    /// The same list with one more item at the end.
    pub fn add_item(self, item: SelectItem<T>) -> (l: Self)
        ensures
            l@.items == self@.items.push(item),
            l@.selected == self@.selected,
            l@.title == self@.title,
            l@.focused == self@.focused,
            l@.enabled == self@.enabled,
            l@.show_descriptions == self@.show_descriptions,
            self.wf() ==> l.wf(),
    {
        let mut l = self;
        l.items.push(item);
        l
    }

    /// The same list with its items replaced; the selection index is kept.
    pub fn with_items(self, items: Vec<SelectItem<T>>) -> (l: Self)
        ensures
            l@.items == items@,
            l@.selected == self@.selected,
            l@.title == self@.title,
            l@.focused == self@.focused,
            l@.enabled == self@.enabled,
            l@.show_descriptions == self@.show_descriptions,
    {
        SelectList { items, ..self }
    }

    /// The same list, showing descriptions or not.
    pub fn show_descriptions(self, show: bool) -> (l: Self)
        ensures
            l@.show_descriptions == show,
            l@.items == self@.items,
            l@.selected == self@.selected,
            l@.title == self@.title,
            l@.focused == self@.focused,
            l@.enabled == self@.enabled,
    {
        SelectList { show_descriptions: show, ..self }
    }

    /// The selected item, if the selection points at one.
    pub fn selected(&self) -> (r: Option<&SelectItem<T>>)
        ensures
            self@.selected < self@.items.len() ==> r == Some(&self@.items[self@.selected as int]),
            self@.selected >= self@.items.len() ==> r is None,
    {
        if self.selected < self.items.len() {
            Some(&self.items[self.selected])
        } else {
            None
        }
    }

    /// Index of the selection.
    pub fn selected_index(&self) -> (r: usize)
        ensures
            r == self@.selected,
    {
        self.selected
    }

    /// Selects `index` when it is an index of an item; otherwise nothing changes.
    pub fn set_selected(&mut self, index: usize)
        ensures
            final(self)@.selected == if index < old(self)@.items.len() { index as nat } else { old(self)@.selected },
            final(self)@.items == old(self)@.items,
            final(self)@.title == old(self)@.title,
            final(self)@.focused == old(self)@.focused,
            final(self)@.enabled == old(self)@.enabled,
            final(self)@.show_descriptions == old(self)@.show_descriptions,
            old(self).wf() ==> final(self).wf(),
    {
        if index < self.items.len() {
            self.selected = index;
        }
    }

    /// Number of items.
    pub fn len(&self) -> (r: usize)
        ensures
            r == self@.items.len(),
    {
        self.items.len()
    }

    /// Whether there are no items.
    pub fn is_empty(&self) -> (r: bool)
        ensures
            r == (self@.items.len() == 0),
    {
        self.items.len() == 0
    }

    /// The title.
    pub fn title(&self) -> (r: &str)
        ensures
            r@ == self@.title,
    {
        self.title.as_str()
    }

    /// The `k`-th item.
    pub fn item(&self, k: usize) -> (r: &SelectItem<T>)
        requires
            k < self@.items.len(),
        ensures
            *r == self@.items[k as int],
    {
        &self.items[k]
    }

    /// Whether descriptions are shown.
    pub fn shows_descriptions(&self) -> (r: bool)
        ensures
            r == self@.show_descriptions,
    {
        self.show_descriptions
    }

    /// Whether the list is enabled.
    pub fn is_enabled(&self) -> (r: bool)
        ensures
            r == self@.enabled,
    {
        self.enabled
    }

    /// Moves up to the nearest enabled item, or to the first item.
    fn move_up(&mut self)
        requires
            old(self).wf(),
        ensures
            final(self).wf(),
            final(self)@.selected == after_up(enabled_flags(old(self)@.items), old(self)@.selected as int),
            final(self)@.items == old(self)@.items,
            final(self)@.title == old(self)@.title,
            final(self)@.focused == old(self)@.focused,
            final(self)@.enabled == old(self)@.enabled,
            final(self)@.show_descriptions == old(self)@.show_descriptions,
    {
        let ghost en = enabled_flags(self@.items);
        if self.selected > 0 {
            self.selected = self.selected - 1;
            while self.selected > 0 && !self.items[self.selected].enabled
                invariant
                    en == enabled_flags(self@.items),
                    self@.items == old(self)@.items,
                    self@.title == old(self)@.title,
                    self@.focused == old(self)@.focused,
                    self@.enabled == old(self)@.enabled,
                    self@.show_descriptions == old(self)@.show_descriptions,
                    self.selected < self@.items.len(),
                    stop_upward(en, self.selected as int) == stop_upward(en, old(self)@.selected - 1),
                decreases self.selected,
            {
                self.selected = self.selected - 1;
            }
        }
    }

    /// Moves down to the nearest enabled item, or to the last item.
    fn move_down(&mut self)
        requires
            old(self).wf(),
        ensures
            final(self).wf(),
            final(self)@.selected == after_down(enabled_flags(old(self)@.items), old(self)@.selected as int),
            final(self)@.items == old(self)@.items,
            final(self)@.title == old(self)@.title,
            final(self)@.focused == old(self)@.focused,
            final(self)@.enabled == old(self)@.enabled,
            final(self)@.show_descriptions == old(self)@.show_descriptions,
    {
        let ghost en = enabled_flags(self@.items);
        let n = self.items.len();
        let last: usize = if n > 0 { n - 1 } else { 0 };
        if self.selected < last {
            self.selected = self.selected + 1;
            while self.selected < n - 1 && !self.items[self.selected].enabled
                invariant
                    en == enabled_flags(self@.items),
                    n == self@.items.len(),
                    n >= 1,
                    self@.items == old(self)@.items,
                    self@.title == old(self)@.title,
                    self@.focused == old(self)@.focused,
                    self@.enabled == old(self)@.enabled,
                    self@.show_descriptions == old(self)@.show_descriptions,
                    self.selected <= n - 1,
                    stop_downward(en, self.selected as int, n - 1) == stop_downward(en, old(self)@.selected + 1int, n - 1),
                decreases n - self.selected,
            {
                self.selected = self.selected + 1;
            }
        }
    }
}

/// After Up or Down the selection rests on an enabled item, or at the first
/// or last item.
pub proof fn lemma_moves_rest_on_enabled(enabled: Seq<bool>, selected: int)
    requires
        0 <= selected < enabled.len(),
    ensures
        0 <= after_up(enabled, selected) < enabled.len(),
        0 <= after_down(enabled, selected) < enabled.len(),
        after_up(enabled, selected) == selected || after_up(enabled, selected) == 0
            || enabled[after_up(enabled, selected)],
        after_down(enabled, selected) == selected || after_down(enabled, selected) == enabled.len() - 1
            || enabled[after_down(enabled, selected)],
{
    if selected > 0 {
        lemma_stop_upward_bounds(enabled, selected - 1);
    }
    if selected < enabled.len() - 1 {
        lemma_stop_downward_bounds(enabled, selected + 1, enabled.len() - 1);
    }
}

impl<T> Focusable for SelectList<T> {
    fn is_focused(&self) -> (r: bool)
        ensures
            r == self@.focused,
    {
        self.focused
    }

    fn set_focused(&mut self, focused: bool)
        ensures
            final(self)@.focused == focused,
            final(self)@.items == old(self)@.items,
            final(self)@.selected == old(self)@.selected,
            final(self)@.title == old(self)@.title,
            final(self)@.enabled == old(self)@.enabled,
            final(self)@.show_descriptions == old(self)@.show_descriptions,
    {
        self.focused = focused;
    }
}

impl<T> Interactive for SelectList<T> {
    open spec fn interactive_wf(&self) -> bool {
        self.wf()
    }

    /// A disabled list takes nothing; otherwise Up and Down move the selection
    /// and Enter is taken without change.
    fn handle_input(&mut self, event: InputEvent) -> (handled: bool)
        ensures
            handled == (old(self)@.enabled && match event {
                InputEvent::Up | InputEvent::Down | InputEvent::Enter => true,
                _ => false,
            }),
            final(self)@.items == old(self)@.items,
            final(self)@.title == old(self)@.title,
            final(self)@.focused == old(self)@.focused,
            final(self)@.enabled == old(self)@.enabled,
            final(self)@.show_descriptions == old(self)@.show_descriptions,
            final(self)@.selected == if handled && event == InputEvent::Up {
                after_up(enabled_flags(old(self)@.items), old(self)@.selected as int) as nat
            } else if handled && event == InputEvent::Down {
                after_down(enabled_flags(old(self)@.items), old(self)@.selected as int) as nat
            } else {
                old(self)@.selected
            },
    {
        if !self.enabled {
            return false;
        }
        match event {
            InputEvent::Up => {
                self.move_up();
                true
            },
            InputEvent::Down => {
                self.move_down();
                true
            },
            InputEvent::Enter => true,
            _ => false,
        }
    }
}

} // verus!
