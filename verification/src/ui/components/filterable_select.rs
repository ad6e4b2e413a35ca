//! A list the user narrows by typing: only the items whose label contains the
//! typed text, ignoring case, stay visible and selectable.

use vstd::prelude::*;
use vstd::string::*;
use crate::text::{chars_of, lowercase_of, occurs, occurs_in, string_of, to_lowercase};
use super::{Focusable, InputEvent, Interactive};

verus! {

/// An item of a filterable list.
pub struct SelectItem<T> {
    /// Display label
    pub label: String,
    /// Associated value
    pub value: T,
}

/// Whether a label is kept by a query: the query, lowercased, occurs in the
/// label, lowercased.
pub open spec fn label_matches(label: Seq<char>, query: Seq<char>) -> bool {
    occurs_in(lowercase_of(label), lowercase_of(query))
}

/// Indices, in increasing order, of the first `n` labels that the query keeps.
pub open spec fn matching_prefix(labels: Seq<Seq<char>>, query: Seq<char>, n: int) -> Seq<usize>
    decreases n,
{
    if n <= 0 {
        Seq::empty()
    } else if label_matches(labels[n - 1], query) {
        matching_prefix(labels, query, n - 1).push((n - 1) as usize)
    } else {
        matching_prefix(labels, query, n - 1)
    }
}

/// The indices shown for a query: all of them when the query is empty, else
/// those of the labels that it keeps, in order.
pub open spec fn filter_indices(labels: Seq<Seq<char>>, query: Seq<char>) -> Seq<usize> {
    if query.len() == 0 {
        Seq::new(labels.len(), |i: int| i as usize)
    } else {
        matching_prefix(labels, query, labels.len() as int)
    }
}

/// What a filterable list is, seen from outside.
#[verifier::ext_equal]
pub struct FilterableView<T> {
    pub title: Seq<char>,
    pub labels: Seq<Seq<char>>,
    pub values: Seq<T>,
    pub query: Seq<char>,
    pub filtered: Seq<usize>,
    pub selected: nat,
    pub scroll_offset: nat,
    pub max_visible: nat,
    pub focused: bool,
    pub enabled: bool,
}

/// The rows a list drawn `height` rows tall shows: four rows go to the
/// border, the query line and the status line, and at least three rows are
/// always shown.
pub open spec fn rows_for_height(height: u16) -> nat {
    if height >= 7 { (height - 4) as nat } else { 3 }
}

/// The rules every filterable list keeps: the visible indices are exactly
/// those the query keeps; the selection points into them (or is 0 when none
/// is visible); at least one row is visible; the first visible row is not
/// below the selection.
pub open spec fn well_formed<T>(v: FilterableView<T>) -> bool {
    &&& selection_ok(v)
    &&& v.scroll_offset <= v.selected
}

/// The rules of `well_formed` but the one on the scroll offset.
pub open spec fn selection_ok<T>(v: FilterableView<T>) -> bool {
    &&& v.labels.len() == v.values.len()
    &&& v.labels.len() <= usize::MAX
    &&& v.filtered == filter_indices(v.labels, v.query)
    &&& (v.filtered.len() == 0 ==> v.selected == 0)
    &&& (v.filtered.len() > 0 ==> v.selected < v.filtered.len())
    &&& v.max_visible >= 1
}

/// Position in the visible list of the selected item, clamped to the list.
pub open spec fn clamped_position<T>(v: FilterableView<T>) -> int {
    if v.selected < v.filtered.len() { v.selected as int } else { v.filtered.len() - 1 }
}

/// The selection after moving, with the scroll offset updated so that the
/// selection stays in the visible window.
pub open spec fn scrolled_to(selected: nat, scroll: nat, max_visible: nat) -> nat {
    if selected < scroll {
        selected
    } else if selected >= scroll + max_visible {
        (selected - (max_visible - 1)) as nat
    } else {
        scroll
    }
}

/// The list `v` after Up: the selection moves one visible item up (staying
/// on the first), scrolled to it; nothing changes when no item is visible.
pub open spec fn moved_up<T>(v: FilterableView<T>) -> FilterableView<T> {
    if v.filtered.len() == 0 {
        v
    } else {
        let s: nat = if v.selected > 0 { (v.selected - 1) as nat } else { 0 };
        FilterableView { selected: s, scroll_offset: scrolled_to(s, v.scroll_offset, v.max_visible), ..v }
    }
}

/// The list `v` after Down: the selection moves one visible item down
/// (staying on the last), scrolled to it; nothing changes when no item is
/// visible.
pub open spec fn moved_down<T>(v: FilterableView<T>) -> FilterableView<T> {
    if v.filtered.len() == 0 {
        v
    } else {
        let s: nat = if v.selected + 1 < v.filtered.len() { v.selected + 1 } else { (v.filtered.len() - 1) as nat };
        FilterableView { selected: s, scroll_offset: scrolled_to(s, v.scroll_offset, v.max_visible), ..v }
    }
}

/// A list with a search query that narrows the items shown.
pub struct FilterableSelectList<T> {
    title: String,
    items: Vec<SelectItem<T>>,
    filtered_indices: Vec<usize>,
    query: Vec<char>,
    selected: usize,
    focused: bool,
    enabled: bool,
    scroll_offset: usize,
    max_visible: usize,
}

impl<T> View for FilterableSelectList<T> {
    type V = FilterableView<T>;

    closed spec fn view(&self) -> FilterableView<T> {
        FilterableView {
            title: self.title@,
            labels: self.items@.map_values(|it: SelectItem<T>| it.label@),
            values: self.items@.map_values(|it: SelectItem<T>| it.value),
            query: self.query@,
            filtered: self.filtered_indices@,
            selected: self.selected as nat,
            scroll_offset: self.scroll_offset as nat,
            max_visible: self.max_visible as nat,
            focused: self.focused,
            enabled: self.enabled,
        }
    }
}

/// Every index the filter yields for the first `n` labels is below `n`.
proof fn lemma_matching_bounded(labels: Seq<Seq<char>>, query: Seq<char>, n: int)
    requires
        0 <= n <= labels.len(),
        labels.len() <= usize::MAX,
    ensures
        forall|k: int| 0 <= k < matching_prefix(labels, query, n).len()
            ==> (#[trigger] matching_prefix(labels, query, n)[k]) < n,
    decreases n,
{
    if n > 0 {
        lemma_matching_bounded(labels, query, n - 1);
        let prev = matching_prefix(labels, query, n - 1);
        let cur = matching_prefix(labels, query, n);
        assert forall|k: int| 0 <= k < cur.len() implies (#[trigger] cur[k]) < n by {
            if k < prev.len() {
                assert(cur[k] == prev[k]);
            }
        }
    }
}

/// Every index the filter yields is an index of a label.
pub proof fn lemma_filter_bounded(labels: Seq<Seq<char>>, query: Seq<char>)
    requires
        labels.len() <= usize::MAX,
    ensures
        forall|k: int| 0 <= k < filter_indices(labels, query).len()
            ==> (#[trigger] filter_indices(labels, query)[k]) < labels.len(),
{
    if query.len() != 0 {
        lemma_matching_bounded(labels, query, labels.len() as int);
    }
}

/// The first `n` labels give no match exactly when the query keeps none of
/// them.
proof fn lemma_matching_empty(labels: Seq<Seq<char>>, query: Seq<char>, n: int)
    requires
        0 <= n <= labels.len(),
    ensures
        matching_prefix(labels, query, n).len() == 0
            <==> forall|i: int| 0 <= i < n ==> !label_matches(#[trigger] labels[i], query),
    decreases n,
{
    if n > 0 {
        lemma_matching_empty(labels, query, n - 1);
        if !label_matches(labels[n - 1], query) {
            assert forall|i: int| 0 <= i < n - 1 && !label_matches(#[trigger] labels[i], query)
                implies 0 <= i < n && !label_matches(labels[i], query) by {}
        }
    }
}

/// Nothing is visible exactly when no label is kept: for an empty query
/// only when there are no items, otherwise when no label contains the
/// query, letter case aside.
pub proof fn lemma_nothing_visible(labels: Seq<Seq<char>>, query: Seq<char>)
    ensures
        filter_indices(labels, query).len() == 0
            <==> !exists|i: int| 0 <= i < labels.len()
                && (query.len() == 0 || label_matches(#[trigger] labels[i], query)),
{
    if query.len() != 0 {
        lemma_matching_empty(labels, query, labels.len() as int);
        assert(filter_indices(labels, query) == matching_prefix(labels, query, labels.len() as int));
    } else {
        assert(filter_indices(labels, query).len() == labels.len());
        if labels.len() > 0 {
            let l0 = labels[0];
            assert(0 <= 0 < labels.len() && (query.len() == 0 || label_matches(l0, query)));
        }
    }
}

/// A list filled with items and not yet filtered or moved selects its
/// first item.
pub proof fn lemma_fresh_list_selects_first<T>(v: FilterableView<T>)
    requires
        well_formed(v),
        v.query.len() == 0,
        v.selected == 0,
        v.labels.len() > 0,
    ensures
        v.filtered.len() > 0,
        v.filtered[clamped_position(v)] == 0,
        v.values[v.filtered[clamped_position(v)] as int] == v.values[0],
{
}

/// Every index the filter yields, for a non-empty query, is that of a label
/// the query keeps.
pub proof fn lemma_filter_matches(labels: Seq<Seq<char>>, query: Seq<char>, n: int)
    requires
        0 <= n <= labels.len(),
        labels.len() <= usize::MAX,
    ensures
        forall|k: int| 0 <= k < matching_prefix(labels, query, n).len()
            ==> label_matches(labels[#[trigger] matching_prefix(labels, query, n)[k] as int], query),
    decreases n,
{
    if n > 0 {
        lemma_filter_matches(labels, query, n - 1);
        let prev = matching_prefix(labels, query, n - 1);
        let cur = matching_prefix(labels, query, n);
        assert forall|k: int| 0 <= k < cur.len() implies label_matches(labels[#[trigger] cur[k] as int], query) by {
            if k < prev.len() {
                assert(cur[k] == prev[k]);
            }
        }
    }
}

impl<T> FilterableSelectList<T> {
    /// The rules of `well_formed` hold of this list.
    pub open spec fn wf(&self) -> bool {
        well_formed(self@)
    }

    /// An empty, enabled, unfocused list showing eight rows.
    pub fn new(title: &str) -> (l: Self)
        ensures
            l.wf(),
            l@.title == title@,
            l@.labels.len() == 0,
            l@.query.len() == 0,
            l@.selected == 0,
            l@.scroll_offset == 0,
            l@.max_visible == 8,
            !l@.focused,
            l@.enabled,
    {
        let l = FilterableSelectList {
            title: String::from_str(title),
            items: Vec::new(),
            filtered_indices: Vec::new(),
            query: Vec::new(),
            selected: 0,
            focused: false,
            enabled: true,
            scroll_offset: 0,
            max_visible: 8,
        };
        assert(l@.filtered =~= filter_indices(l@.labels, l@.query));
        l
    }

    /// Recomputes the visible indices from the query and selects the first.
    fn update_filter(&mut self)
        requires
            old(self)@.labels.len() == old(self)@.values.len(),
            old(self)@.labels.len() <= usize::MAX,
            old(self)@.max_visible >= 1,
        ensures
            final(self).wf(),
            final(self)@.filtered == filter_indices(old(self)@.labels, old(self)@.query),
            final(self)@.selected == 0,
            final(self)@.scroll_offset == 0,
            final(self)@.labels == old(self)@.labels,
            final(self)@.values == old(self)@.values,
            final(self)@.query == old(self)@.query,
            final(self)@.title == old(self)@.title,
            final(self)@.focused == old(self)@.focused,
            final(self)@.enabled == old(self)@.enabled,
            final(self)@.max_visible == old(self)@.max_visible,
    {
        let ghost labels = self@.labels;
        let n = self.items.len();
        let mut out: Vec<usize> = Vec::new();
        if self.query.len() == 0 {
            let mut i: usize = 0;
            while i < n
                invariant
                    n == self.items@.len(),
                    labels == self@.labels,
                    labels.len() == n,
                    i <= n,
                    out@ == Seq::new(i as nat, |k: int| k as usize),
                decreases n - i,
            {
                out.push(i);
                i = i + 1;
                assert(out@ =~= Seq::new(i as nat, |k: int| k as usize));
            }
        } else {
            let q = string_of(&self.query);
            let ql = to_lowercase(q.as_str());
            let qv = chars_of(ql.as_str());
            let mut i: usize = 0;
            while i < n
                invariant
                    n == self.items@.len(),
                    labels == self@.labels,
                    labels.len() == n,
                    qv@ == lowercase_of(self@.query),
                    i <= n,
                    out@ == matching_prefix(labels, self@.query, i as int),
                decreases n - i,
            {
                let ll = to_lowercase(self.items[i].label.as_str());
                let lv = chars_of(ll.as_str());
                assert(self.items@[i as int].label@ == labels[i as int]);
                if occurs(&lv, &qv) {
                    out.push(i);
                }
                i = i + 1;
            }
        }
        self.filtered_indices = out;
        self.selected = 0;
        self.scroll_offset = 0;
    }

    /// The same list with one more item at the end; the filter is recomputed
    /// and the first visible item selected.
    pub fn add_item(self, label: String, value: T) -> (l: Self)
        requires
            self.wf(),
            self@.labels.len() < usize::MAX,
        ensures
            l.wf(),
            l@.labels == self@.labels.push(label@),
            l@.values == self@.values.push(value),
            l@.query == self@.query,
            l@.filtered == filter_indices(l@.labels, l@.query),
            l@.selected == 0,
            l@.scroll_offset == 0,
            l@.title == self@.title,
            l@.focused == self@.focused,
            l@.enabled == self@.enabled,
            l@.max_visible == self@.max_visible,
    {
        let mut l = self;
        l.items.push(SelectItem { label, value });
        proof {
            assert(l@.labels =~= self@.labels.push(label@));
            assert(l@.values =~= self@.values.push(value));
        }
        l.update_filter();
        l
    }

    /// The same list with its items replaced by `items` (label, value pairs,
    /// in order); the filter is recomputed and the first visible item selected.
    pub fn with_items(self, items: Vec<(String, T)>) -> (l: Self)
        requires
            self.wf(),
        ensures
            l.wf(),
            l@.labels == items@.map_values(|p: (String, T)| p.0@),
            l@.values == items@.map_values(|p: (String, T)| p.1),
            l@.query == self@.query,
            l@.filtered == filter_indices(l@.labels, l@.query),
            l@.selected == 0,
            l@.scroll_offset == 0,
            l@.title == self@.title,
            l@.focused == self@.focused,
            l@.enabled == self@.enabled,
            l@.max_visible == self@.max_visible,
    {
        let mut l = self;
        let ghost src = items@;
        let total = items.len();
        let mut rest = items;
        let mut built: Vec<SelectItem<T>> = Vec::new();
        let mut k: usize = 0;
        while rest.len() > 0
            invariant
                total == src.len(),
                k + rest@.len() == total,
                rest@ == src.subrange(k as int, src.len() as int),
                built@.len() == k,
                forall|j: int| 0 <= j < k ==> (#[trigger] built@[j]).label@ == src[j].0@ && built@[j].value == src[j].1,
            decreases rest@.len(),
        {
            let (label, value) = rest.remove(0);
            built.push(SelectItem { label, value });
            k = k + 1;
            assert(rest@ =~= src.subrange(k as int, src.len() as int));
        }
        l.items = built;
        proof {
            assert(l@.labels =~= src.map_values(|p: (String, T)| p.0@));
            assert(l@.values =~= src.map_values(|p: (String, T)| p.1));
        }
        l.update_filter();
        l
    }

    /// The value of the selected visible item, or `None` when no item is visible.
    pub fn selected_value(&self) -> (r: Option<&T>)
        requires
            self.wf(),
        ensures
            self@.filtered.len() == 0 ==> r is None,
            self@.filtered.len() > 0 ==> r == Some(&self@.values[self@.filtered[clamped_position(self@)] as int]),
            r is None <==> !exists|i: int| 0 <= i < self@.labels.len()
                && (self@.query.len() == 0 || label_matches(#[trigger] self@.labels[i], self@.query)),
            r is Some ==> self@.query.len() == 0
                || label_matches(self@.labels[self@.filtered[clamped_position(self@)] as int], self@.query),
    {
        proof {
            lemma_nothing_visible(self@.labels, self@.query);
        }
        if self.filtered_indices.len() == 0 {
            return None;
        }
        proof {
            lemma_filter_bounded(self@.labels, self@.query);
            if self@.query.len() != 0 {
                lemma_filter_matches(self@.labels, self@.query, self@.labels.len() as int);
            }
        }
        let last = self.filtered_indices.len() - 1;
        let pos = if self.selected < last { self.selected } else { last };
        let item_idx = self.filtered_indices[pos];
        proof {
            let lab = self@.labels[item_idx as int];
            assert(0 <= item_idx < self@.labels.len()
                && (self@.query.len() == 0 || label_matches(lab, self@.query)));
        }
        Some(&self.items[item_idx].value)
    }

    /// The label of the selected visible item, or `None` when no item is visible.
    pub fn selected_label(&self) -> (r: Option<&str>)
        requires
            self.wf(),
        ensures
            self@.filtered.len() == 0 ==> r is None,
            self@.filtered.len() > 0 ==> r is Some
                && r->0@ == self@.labels[self@.filtered[clamped_position(self@)] as int],
            r is Some ==> self@.query.len() == 0 || label_matches(r->0@, self@.query),
    {
        if self.filtered_indices.len() == 0 {
            return None;
        }
        proof {
            lemma_filter_bounded(self@.labels, self@.query);
            if self@.query.len() != 0 {
                lemma_filter_matches(self@.labels, self@.query, self@.labels.len() as int);
            }
        }
        let last = self.filtered_indices.len() - 1;
        let pos = if self.selected < last { self.selected } else { last };
        let item_idx = self.filtered_indices[pos];
        Some(self.items[item_idx].label.as_str())
    }

    /// Keeps the selection inside the visible window.
    fn adjust_scroll(&mut self)
        requires
            selection_ok(old(self)@),
        ensures
            final(self).wf(),
            final(self)@.scroll_offset == scrolled_to(old(self)@.selected, old(self)@.scroll_offset, old(self)@.max_visible),
            final(self)@.scroll_offset <= final(self)@.selected < final(self)@.scroll_offset + final(self)@.max_visible,
            final(self)@.selected == old(self)@.selected,
            final(self)@.labels == old(self)@.labels,
            final(self)@.values == old(self)@.values,
            final(self)@.query == old(self)@.query,
            final(self)@.filtered == old(self)@.filtered,
            final(self)@.title == old(self)@.title,
            final(self)@.focused == old(self)@.focused,
            final(self)@.enabled == old(self)@.enabled,
            final(self)@.max_visible == old(self)@.max_visible,
    {
        if self.selected < self.scroll_offset {
            self.scroll_offset = self.selected;
        } else if self.selected - self.scroll_offset >= self.max_visible {
            self.scroll_offset = self.selected - (self.max_visible - 1);
        }
    }

    /// Selects the first item whose label equals `label`, when it is visible.
    pub fn set_selected_by_label(&mut self, label: &str)
        requires
            old(self).wf(),
        ensures
            final(self).wf(),
            ({
                let v = old(self)@;
                let found = exists|i: int| 0 <= i < v.labels.len() && v.labels[i] == label@;
                let first = choose|i: int| 0 <= i < v.labels.len() && v.labels[i] == label@
                    && forall|j: int| 0 <= j < i ==> v.labels[j] != label@;
                if found && v.filtered.contains(first as usize) {
                    &&& v.filtered[final(self)@.selected as int] == first as usize
                    &&& final(self)@.scroll_offset == scrolled_to(final(self)@.selected, v.scroll_offset, v.max_visible)
                    &&& v.labels[v.filtered[final(self)@.selected as int] as int] == label@
                    &&& final(self)@.scroll_offset <= final(self)@.selected
                        < final(self)@.scroll_offset + final(self)@.max_visible
                } else {
                    &&& final(self)@.selected == v.selected
                    &&& final(self)@.scroll_offset == v.scroll_offset
                }
            }),
            final(self)@.labels == old(self)@.labels,
            final(self)@.values == old(self)@.values,
            final(self)@.query == old(self)@.query,
            final(self)@.filtered == old(self)@.filtered,
            final(self)@.title == old(self)@.title,
            final(self)@.focused == old(self)@.focused,
            final(self)@.enabled == old(self)@.enabled,
            final(self)@.max_visible == old(self)@.max_visible,
    {
        let ghost v = self@;
        let found = self.first_with_label(label);
        match found {
            None => {
                return;
            },
            Some(i) => {
                let ghost first = choose|k: int| 0 <= k < v.labels.len() && v.labels[k] == label@
                    && forall|j: int| 0 <= j < k ==> v.labels[j] != label@;
                assert(first == i) by {
                    if first < i {
                    } else if first > i {
                        assert(v.labels[i as int] != label@);
                    }
                }
                match self.visible_position_of(i) {
                    None => {
                        return;
                    },
                    Some(p) => {
                        self.selected = p;
                        self.adjust_scroll();
                    },
                }
            },
        }
    }

    /// Index of the first item labelled `label`.
    fn first_with_label(&self, label: &str) -> (r: Option<usize>)
        requires
            self.wf(),
        ensures
            r is None ==> forall|k: int| 0 <= k < self@.labels.len() ==> self@.labels[k] != label@,
            r matches Some(i) ==> i < self@.labels.len() && self@.labels[i as int] == label@
                && forall|j: int| 0 <= j < i ==> self@.labels[j] != label@,
    {
        let target = String::from_str(label);
        let n = self.items.len();
        let mut i: usize = 0;
        while i < n
            invariant
                n == self.items@.len(),
                self@.labels.len() == n,
                target@ == label@,
                i <= n,
                forall|j: int| 0 <= j < i ==> self@.labels[j] != label@,
            decreases n - i,
        {
            assert(self.items@[i as int].label@ == self@.labels[i as int]);
            if self.items[i].label == target {
                return Some(i);
            }
            i = i + 1;
        }
        None
    }

    /// Position among the visible items of the item at index `idx`.
    fn visible_position_of(&self, idx: usize) -> (r: Option<usize>)
        requires
            self.wf(),
        ensures
            r is None ==> !self@.filtered.contains(idx),
            r matches Some(p) ==> p < self@.filtered.len() && self@.filtered[p as int] == idx,
    {
        let m = self.filtered_indices.len();
        let mut p: usize = 0;
        while p < m
            invariant
                m == self@.filtered.len(),
                self.filtered_indices@ == self@.filtered,
                p <= m,
                forall|j: int| 0 <= j < p ==> self@.filtered[j] != idx,
            decreases m - p,
        {
            if self.filtered_indices[p] == idx {
                return Some(p);
            }
            p = p + 1;
        }
        None
    }

    /// Moves the selection one visible item up.
    fn select_previous(&mut self)
        requires
            old(self).wf(),
        ensures
            final(self).wf(),
            final(self)@ == moved_up(old(self)@),
            old(self)@.filtered.len() == 0 ==> final(self)@ == old(self)@,
            old(self)@.filtered.len() > 0 ==> {
                &&& final(self)@.selected == if old(self)@.selected > 0 { (old(self)@.selected - 1) as nat } else { 0 }
                &&& final(self)@.scroll_offset == scrolled_to(final(self)@.selected, old(self)@.scroll_offset, old(self)@.max_visible)
            },
            final(self)@.labels == old(self)@.labels,
            final(self)@.values == old(self)@.values,
            final(self)@.query == old(self)@.query,
            final(self)@.filtered == old(self)@.filtered,
            final(self)@.title == old(self)@.title,
            final(self)@.focused == old(self)@.focused,
            final(self)@.enabled == old(self)@.enabled,
            final(self)@.max_visible == old(self)@.max_visible,
    {
        if self.filtered_indices.len() > 0 {
            self.selected = if self.selected > 0 { self.selected - 1 } else { 0 };
            self.adjust_scroll();
        }
    }

    /// Moves the selection one visible item down, stopping at the last.
    fn select_next(&mut self)
        requires
            old(self).wf(),
        ensures
            final(self).wf(),
            final(self)@ == moved_down(old(self)@),
            old(self)@.filtered.len() == 0 ==> final(self)@ == old(self)@,
            old(self)@.filtered.len() > 0 ==> {
                &&& final(self)@.selected == if old(self)@.selected + 1 < old(self)@.filtered.len() {
                        old(self)@.selected + 1
                    } else {
                        (old(self)@.filtered.len() - 1) as nat
                    }
                &&& final(self)@.scroll_offset == scrolled_to(final(self)@.selected, old(self)@.scroll_offset, old(self)@.max_visible)
            },
            final(self)@.labels == old(self)@.labels,
            final(self)@.values == old(self)@.values,
            final(self)@.query == old(self)@.query,
            final(self)@.filtered == old(self)@.filtered,
            final(self)@.title == old(self)@.title,
            final(self)@.focused == old(self)@.focused,
            final(self)@.enabled == old(self)@.enabled,
            final(self)@.max_visible == old(self)@.max_visible,
    {
        if self.filtered_indices.len() > 0 {
            let max = self.filtered_indices.len() - 1;
            self.selected = if self.selected < max { self.selected + 1 } else { max };
            self.adjust_scroll();
        }
    }

    /// Sets the number of visible rows for a list drawn `height` rows tall
    /// (see `rows_for_height`).
    pub fn fit_to_height(&mut self, height: u16)
        requires
            old(self).wf(),
        ensures
            final(self).wf(),
            final(self)@.max_visible == rows_for_height(height),
            final(self)@.labels == old(self)@.labels,
            final(self)@.values == old(self)@.values,
            final(self)@.query == old(self)@.query,
            final(self)@.filtered == old(self)@.filtered,
            final(self)@.selected == old(self)@.selected,
            final(self)@.scroll_offset == old(self)@.scroll_offset,
            final(self)@.title == old(self)@.title,
            final(self)@.focused == old(self)@.focused,
            final(self)@.enabled == old(self)@.enabled,
    {
        let rows: usize = if height >= 7 { (height - 4) as usize } else { 3 };
        self.max_visible = rows;
    }

    /// The title.
    pub fn title(&self) -> (r: &str)
        ensures
            r@ == self@.title,
    {
        self.title.as_str()
    }

    /// The search query.
    pub fn query(&self) -> (r: String)
        ensures
            r@ == self@.query,
    {
        string_of(&self.query)
    }

    /// Number of items shown for the current query.
    pub fn visible_count(&self) -> (r: usize)
        ensures
            r == self@.filtered.len(),
    {
        self.filtered_indices.len()
    }

    /// Label of the `k`-th visible item.
    pub fn visible_label(&self, k: usize) -> (r: &str)
        requires
            self.wf(),
            k < self@.filtered.len(),
        ensures
            r@ == self@.labels[self@.filtered[k as int] as int],
    {
        proof {
            lemma_filter_bounded(self@.labels, self@.query);
        }
        let idx = self.filtered_indices[k];
        self.items[idx].label.as_str()
    }

    /// Position of the selection among the visible items.
    pub fn selected_position(&self) -> (r: usize)
        ensures
            r == self@.selected,
    {
        self.selected
    }

    /// First visible row.
    pub fn scroll_offset(&self) -> (r: usize)
        ensures
            r == self@.scroll_offset,
    {
        self.scroll_offset
    }

    /// Number of rows shown.
    pub fn max_visible(&self) -> (r: usize)
        ensures
            r == self@.max_visible,
    {
        self.max_visible
    }

    /// Whether the list is enabled.
    pub fn is_enabled(&self) -> (r: bool)
        ensures
            r == self@.enabled,
    {
        self.enabled
    }
}


impl<T> FilterableSelectList<T> {
    /// Empties the query and shows every item again.
    fn clear_query(&mut self)
        requires
            old(self).wf(),
        ensures
            final(self).wf(),
            final(self)@.query.len() == 0,
            final(self)@.selected == 0,
            final(self)@.scroll_offset == 0,
            final(self)@.labels == old(self)@.labels,
            final(self)@.values == old(self)@.values,
            final(self)@.title == old(self)@.title,
            final(self)@.focused == old(self)@.focused,
            final(self)@.enabled == old(self)@.enabled,
            final(self)@.max_visible == old(self)@.max_visible,
    {
        self.query.clear();
        self.update_filter();
    }

    /// Appends a character to the query and filters again.
    fn add_char_to_query(&mut self, c: char)
        requires
            old(self).wf(),
        ensures
            final(self).wf(),
            final(self)@.query == old(self)@.query.push(c),
            final(self)@.selected == 0,
            final(self)@.scroll_offset == 0,
            final(self)@.labels == old(self)@.labels,
            final(self)@.values == old(self)@.values,
            final(self)@.title == old(self)@.title,
            final(self)@.focused == old(self)@.focused,
            final(self)@.enabled == old(self)@.enabled,
            final(self)@.max_visible == old(self)@.max_visible,
    {
        self.query.push(c);
        self.update_filter();
    }

    /// Removes the query's last character, if any, and filters again.
    fn remove_char_from_query(&mut self)
        requires
            old(self).wf(),
        ensures
            final(self).wf(),
            final(self)@.query == if old(self)@.query.len() > 0 { old(self)@.query.drop_last() } else { old(self)@.query },
            final(self)@.selected == 0,
            final(self)@.scroll_offset == 0,
            final(self)@.labels == old(self)@.labels,
            final(self)@.values == old(self)@.values,
            final(self)@.title == old(self)@.title,
            final(self)@.focused == old(self)@.focused,
            final(self)@.enabled == old(self)@.enabled,
            final(self)@.max_visible == old(self)@.max_visible,
    {
        let _ = self.query.pop();
        proof {
            if old(self)@.query.len() > 0 {
                assert(self@.query =~= old(self)@.query.drop_last());
            }
        }
        self.update_filter();
    }
}

impl<T> Focusable for FilterableSelectList<T> {
    fn is_focused(&self) -> (r: bool)
        ensures
            r == self@.focused,
    {
        self.focused
    }

    fn set_focused(&mut self, focused: bool)
        ensures
            final(self)@.focused == focused,
            final(self)@.labels == old(self)@.labels,
            final(self)@.values == old(self)@.values,
            final(self)@.query == old(self)@.query,
            final(self)@.filtered == old(self)@.filtered,
            final(self)@.selected == old(self)@.selected,
            final(self)@.scroll_offset == old(self)@.scroll_offset,
            final(self)@.max_visible == old(self)@.max_visible,
            final(self)@.title == old(self)@.title,
            final(self)@.enabled == old(self)@.enabled,
    {
        self.focused = focused;
    }
}

/// The list `v` with the query `query`: filtered again, the first visible
/// item selected, scrolled to the top.
pub open spec fn requeried<T>(v: FilterableView<T>, query: Seq<char>) -> FilterableView<T> {
    FilterableView { query, filtered: filter_indices(v.labels, query), selected: 0, scroll_offset: 0, ..v }
}

impl<T> Interactive for FilterableSelectList<T> {
    open spec fn interactive_wf(&self) -> bool {
        self.wf()
    }

    /// A disabled list takes nothing. Otherwise a character extends the
    /// query, Backspace shortens it, Escape empties it (each refilters and
    /// selects the first visible item), Up and Down move the selection, and
    /// any other key is left alone.
    fn handle_input(&mut self, event: InputEvent) -> (handled: bool)
        ensures
            handled == (old(self)@.enabled && match event {
                InputEvent::Char(_) | InputEvent::Backspace | InputEvent::Up | InputEvent::Down
                | InputEvent::Escape => true,
                _ => false,
            }),
            !handled ==> final(self)@ == old(self)@,
            final(self)@.labels == old(self)@.labels,
            final(self)@.values == old(self)@.values,
            handled ==> match event {
                InputEvent::Char(c) => final(self)@ == requeried(old(self)@, old(self)@.query.push(c)),
                InputEvent::Backspace => final(self)@ == requeried(old(self)@, if old(self)@.query.len() > 0 {
                    old(self)@.query.drop_last()
                } else {
                    old(self)@.query
                }),
                InputEvent::Escape => final(self)@ == requeried(old(self)@, Seq::empty()),
                InputEvent::Up => final(self)@ == moved_up(old(self)@),
                InputEvent::Down => final(self)@ == moved_down(old(self)@),
                _ => true,
            },
            handled ==> match event {
                InputEvent::Char(c) => final(self)@.query == old(self)@.query.push(c) && final(self)@.selected == 0,
                InputEvent::Backspace => final(self)@.query == (if old(self)@.query.len() > 0 {
                    old(self)@.query.drop_last()
                } else {
                    old(self)@.query
                }) && final(self)@.selected == 0,
                InputEvent::Escape => final(self)@.query.len() == 0 && final(self)@.selected == 0,
                InputEvent::Up => final(self)@.query == old(self)@.query
                    && (old(self)@.filtered.len() > 0 ==> final(self)@.selected
                        == if old(self)@.selected > 0 { (old(self)@.selected - 1) as nat } else { 0 }),
                InputEvent::Down => final(self)@.query == old(self)@.query
                    && (old(self)@.filtered.len() > 0 ==> final(self)@.selected
                        == if old(self)@.selected + 1 < old(self)@.filtered.len() {
                            old(self)@.selected + 1
                        } else {
                            (old(self)@.filtered.len() - 1) as nat
                        }),
                _ => true,
            },
    {
        if !self.enabled {
            return false;
        }
        match event {
            InputEvent::Char(c) => {
                self.add_char_to_query(c);
                assert(self@ =~= requeried(old(self)@, old(self)@.query.push(c)));
                true
            },
            InputEvent::Backspace => {
                self.remove_char_from_query();
                assert(self@ =~= requeried(old(self)@, if old(self)@.query.len() > 0 {
                    old(self)@.query.drop_last()
                } else {
                    old(self)@.query
                }));
                true
            },
            InputEvent::Up => {
                self.select_previous();
                true
            },
            InputEvent::Down => {
                self.select_next();
                true
            },
            InputEvent::Escape => {
                self.clear_query();
                assert(self@ =~= requeried(old(self)@, Seq::empty()));
                true
            },
            _ => false,
        }
    }
}

} // verus!
