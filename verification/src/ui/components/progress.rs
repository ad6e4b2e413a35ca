//! A progress bar and a spinner.

use vstd::prelude::*;
use vstd::string::*;
use crate::text::{decimal, u64_to_decimal};
use crate::ui::layout::ThemeColor;

verus! {

/// A progress bar: a percentage (at most 100), an optional label and a colour.
pub struct ProgressBar {
    percent: u16,
    label: Option<String>,
    color: ThemeColor,
}

/// What a progress bar is, seen from outside.
pub struct ProgressView {
    pub percent: nat,
    pub label: Option<Seq<char>>,
    pub color: ThemeColor,
}

impl View for ProgressBar {
    type V = ProgressView;

    closed spec fn view(&self) -> ProgressView {
        ProgressView {
            percent: self.percent as nat,
            label: match self.label { Some(l) => Some(l@), None => None },
            color: self.color,
        }
    }
}

/// `p`, but no more than 100.
pub open spec fn clamp_percent(p: nat) -> nat {
    if p > 100 { 100 } else { p }
}

impl ProgressBar {
    /// A bar at `percent` (100 when more is given), unlabelled, in the success colour.
    pub fn new(percent: u16) -> (b: Self)
        ensures
            b@.percent == clamp_percent(percent as nat),
            b@.label is None,
            b@.color == ThemeColor::Success,
    {
        let p = if percent > 100 { 100 } else { percent };
        ProgressBar { percent: p, label: None, color: ThemeColor::Success }
    }

    /// The same bar with a label.
    pub fn with_label(self, label: &str) -> (b: Self)
        ensures
            b@.label == Some(label@),
            b@.percent == self@.percent,
            b@.color == self@.color,
    {
        ProgressBar { label: Some(String::from_str(label)), ..self }
    }

    /// The same bar in another colour.
    pub fn with_color(self, color: ThemeColor) -> (b: Self)
        ensures
            b@.color == color,
            b@.percent == self@.percent,
            b@.label == self@.label,
    {
        ProgressBar { color, ..self }
    }

    /// Sets the percentage, 100 when more is given.
    pub fn set_percent(&mut self, percent: u16)
        ensures
            final(self)@.percent == clamp_percent(percent as nat),
            final(self)@.label == old(self)@.label,
            final(self)@.color == old(self)@.color,
    {
        self.percent = if percent > 100 { 100 } else { percent };
    }

    /// The percentage.
    pub fn percent(&self) -> (r: u16)
        ensures
            r == self@.percent,
    {
        self.percent
    }

    /// The colour.
    pub fn color(&self) -> (r: ThemeColor)
        ensures
            r == self@.color,
    {
        self.color
    }

    /// The text drawn on the bar: its label, or the percentage followed by `%`.
    pub fn label_text(&self) -> (r: String)
        ensures
            r@ == match self@.label {
                Some(l) => l,
                None => decimal(self@.percent) + "%"@,
            },
    {
        match &self.label {
            Some(l) => l.clone(),
            None => u64_to_decimal(self.percent as u64).concat("%"),
        }
    }
}

/// The spinner's frames, in order.
pub open spec fn spinner_frame(i: nat) -> Seq<char> {
    if i == 0 { "⠋"@ } else if i == 1 { "⠙"@ } else if i == 2 { "⠹"@ } else if i == 3 { "⠸"@ }
    else if i == 4 { "⠼"@ } else if i == 5 { "⠴"@ } else if i == 6 { "⠦"@ } else if i == 7 { "⠧"@ }
    else if i == 8 { "⠇"@ } else { "⠏"@ }
}

/// A spinner cycling through ten frames.
pub struct Spinner {
    frame: usize,
}

impl View for Spinner {
    type V = nat;

    closed spec fn view(&self) -> nat {
        self.frame as nat
    }
}

impl Default for Spinner {
    fn default() -> (s: Self)
        ensures
            s@ == 0,
    {
        Spinner { frame: 0 }
    }
}

impl Spinner {
    /// The frame index is below ten.
    pub open spec fn wf(&self) -> bool {
        self@ < 10
    }

    /// A spinner on its first frame.
    pub fn new() -> (s: Self)
        ensures
            s.wf(),
            s@ == 0,
    {
        Spinner { frame: 0 }
    }

    /// Advances to the next frame, wrapping after the tenth.
    pub fn tick(&mut self)
        requires
            old(self).wf(),
        ensures
            final(self).wf(),
            final(self)@ == (old(self)@ + 1) % 10,
    {
        self.frame = (self.frame + 1) % 10;
    }

    /// The current frame.
    pub fn current(&self) -> (r: &'static str)
        requires
            self.wf(),
        ensures
            r@ == spinner_frame(self@),
    {
        let i = self.frame;
        if i == 0 { "⠋" } else if i == 1 { "⠙" } else if i == 2 { "⠹" } else if i == 3 { "⠸" }
        else if i == 4 { "⠼" } else if i == 5 { "⠴" } else if i == 6 { "⠦" } else if i == 7 { "⠧" }
        else if i == 8 { "⠇" } else { "⠏" }
    }
}

/// Consecutive frames differ, and ten ticks come back to the same frame.
pub proof fn lemma_spinner_cycle(frame: nat)
    requires
        frame < 10,
    ensures
        spinner_frame(frame) != spinner_frame((frame + 1) % 10),
        (frame + 10) % 10 == frame,
{
    reveal_strlit("⠋");
    reveal_strlit("⠙");
    reveal_strlit("⠹");
    reveal_strlit("⠸");
    reveal_strlit("⠼");
    reveal_strlit("⠴");
    reveal_strlit("⠦");
    reveal_strlit("⠧");
    reveal_strlit("⠇");
    reveal_strlit("⠏");
    assert(spinner_frame(frame)[0] != spinner_frame((frame + 1) % 10)[0]);
}

} // verus!
