//! A help panel that can be shown and hidden.

use vstd::prelude::*;
use vstd::string::*;

verus! {

/// What a help panel is, seen from outside.
pub struct HelpView {
    pub title: Seq<char>,
    pub content: Seq<Seq<char>>,
    pub visible: bool,
}

/// A help panel: a title and lines of text, hidden at first.
pub struct HelpPanel {
    title: String,
    content: Vec<String>,
    visible: bool,
}

impl View for HelpPanel {
    type V = HelpView;

    closed spec fn view(&self) -> HelpView {
        HelpView {
            title: self.title@,
            content: self.content@.map_values(|l: String| l@),
            visible: self.visible,
        }
    }
}

impl HelpPanel {
    /// A hidden, empty panel.
    pub fn new(title: &str) -> (h: Self)
        ensures
            h@.title == title@,
            h@.content.len() == 0,
            !h@.visible,
    {
        let h = HelpPanel { title: String::from_str(title), content: Vec::new(), visible: false };
        assert(h@.content =~= Seq::<Seq<char>>::empty());
        h
    }

    /// The same panel with one more line.
    pub fn add_line(self, line: &str) -> (h: Self)
        ensures
            h@.content == self@.content.push(line@),
            h@.title == self@.title,
            h@.visible == self@.visible,
    {
        let mut h = self;
        h.content.push(String::from_str(line));
        assert(h@.content =~= self@.content.push(line@));
        h
    }

    /// The same panel with its lines replaced.
    pub fn with_content(self, lines: Vec<String>) -> (h: Self)
        ensures
            h@.content == lines@.map_values(|l: String| l@),
            h@.title == self@.title,
            h@.visible == self@.visible,
    {
        HelpPanel { content: lines, ..self }
    }

    /// Shows or hides the panel.
    pub fn set_visible(&mut self, visible: bool)
        ensures
            final(self)@.visible == visible,
            final(self)@.title == old(self)@.title,
            final(self)@.content == old(self)@.content,
    {
        self.visible = visible;
    }

    /// Shows a hidden panel, hides a shown one.
    pub fn toggle(&mut self)
        ensures
            final(self)@.visible == !old(self)@.visible,
            final(self)@.title == old(self)@.title,
            final(self)@.content == old(self)@.content,
    {
        self.visible = !self.visible;
    }

    /// Whether the panel is shown.
    pub fn is_visible(&self) -> (r: bool)
        ensures
            r == self@.visible,
    {
        self.visible
    }

    /// The lines.
    pub fn content(&self) -> (r: &Vec<String>)
        ensures
            r@.map_values(|l: String| l@) == self@.content,
    {
        &self.content
    }

    /// The title.
    pub fn title(&self) -> (r: &str)
        ensures
            r@ == self@.title,
    {
        self.title.as_str()
    }
}

} // verus!
