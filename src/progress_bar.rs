//! A plain progress bar: no timer, and the label is not followed by a clear
//! to the end of the line.

use vstd::prelude::*;
use vstd::string::StringExecFns;
use crate::color::{Color, Style, color_code, style_code};
use crate::pb::{info_line, info_line_string, DEFAULT_WIDTH};
use crate::text::{decimal, decimal_string, normalize, push_track, set_good_size, track};

verus! {

/// What a plain bar holds, as plain values.
pub struct PlainState {
    pub max: nat,
    pub progress: nat,
    pub width: nat,
    pub action: Seq<char>,
    pub color: Color,
    pub style: Style,
}

/// One frame of a plain bar.
pub open spec fn plain_frame(s: PlainState) -> Seq<char> {
    style_code(s.style) + color_code(s.color) + s.action + "\x1B[0m"@ + " ["@ + track(
        s.max,
        s.width,
        s.progress,
    ) + "] "@ + decimal(s.progress) + "/"@ + decimal(s.max) + "\n\x1B[1A"@
}

/// A bar in a terminal, without ETA.
pub struct ProgressBar {
    max: usize,
    progression: usize,
    width: usize,
    action: String,
    action_color: Color,
    action_style: Style,
}

impl View for ProgressBar {
    type V = PlainState;

    closed spec fn view(&self) -> PlainState {
        PlainState {
            max: self.max as nat,
            progress: self.progression as nat,
            width: self.width as nat,
            action: self.action@,
            color: self.action_color,
            style: self.action_style,
        }
    }
}

impl ProgressBar {
    /// A bar over `max` units: progress 0, width 50, no label.
    pub fn new(max: usize) -> (r: Self)
        ensures
            r@ == (PlainState {
                max: max as nat,
                progress: 0,
                width: DEFAULT_WIDTH as nat,
                action: Seq::empty(),
                color: Color::Black,
                style: Style::Normal,
            }),
    {
        ProgressBar {
            max,
            progression: 0,
            width: DEFAULT_WIDTH,
            action: String::new(),
            action_color: Color::Black,
            action_style: Style::Normal,
        }
    }

    /// The units done.
    pub fn progression(&self) -> (r: usize)
        ensures
            r == self@.progress,
    {
        self.progression
    }

    /// Sets the width of the track, and gives the new frame.
    pub fn set_width(&mut self, w: usize) -> (r: String)
        ensures
            final(self)@ == (PlainState { width: w as nat, ..old(self)@ }),
            r@ == plain_frame(final(self)@),
    {
        self.width = w;
        self.display()
    }

    /// Sets the progress, and gives the new frame.
    pub fn set_progression(&mut self, p: usize) -> (r: String)
        ensures
            final(self)@ == (PlainState { progress: p as nat, ..old(self)@ }),
            r@ == plain_frame(final(self)@),
    {
        self.progression = p;
        self.display()
    }

    /// Adds one unit of progress, and gives the new frame.
    pub fn inc(&mut self) -> (r: String)
        requires
            old(self)@.progress < usize::MAX,
        ensures
            final(self)@ == (PlainState { progress: old(self)@.progress + 1, ..old(self)@ }),
            r@ == plain_frame(final(self)@),
    {
        self.progression = self.progression + 1;
        self.display()
    }

    /// Sets the action label (brought to twelve characters), its color and
    /// its style, and gives the new frame.
    pub fn set_action(&mut self, a: &str, c: Color, s: Style) -> (r: String)
        ensures
            final(self)@ == (PlainState {
                action: normalize(a@),
                color: c,
                style: s,
                ..old(self)@
            }),
            r@ == plain_frame(final(self)@),
    {
        self.action = set_good_size(a);
        self.action_color = c;
        self.action_style = s;
        self.display()
    }

    /// Gives an info line followed by the frame. The bar does not change.
    pub fn print_info(&mut self, info_name: &str, text: &str, info_color: Color, info_style: Style) -> (r: String)
        ensures
            final(self)@ == old(self)@,
            r@ == info_line(info_name@, text@, info_color, info_style) + plain_frame(old(self)@),
    {
        let mut r = info_line_string(info_name, text, info_color, info_style);
        let f = self.display();
        r.append(f.as_str());
        r
    }

    /// The frame of the bar.
    pub fn display(&self) -> (r: String)
        ensures
            r@ == plain_frame(self@),
    {
        let mut out = String::from_str(self.action_style.code());
        out.append(self.action_color.code());
        out.append(self.action.as_str());
        out.append("\x1B[0m");
        out.append(" [");
        push_track(&mut out, self.max, self.width, self.progression);
        out.append("] ");
        let p = decimal_string(self.progression as u128);
        out.append(p.as_str());
        out.append("/");
        let m = decimal_string(self.max as u128);
        out.append(m.as_str());
        out.append("\n\x1B[1A");
        assert(out@ =~= plain_frame(self@));
        out
    }
}

} // verus!
