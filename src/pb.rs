//! The progress bar: its state, and the text that each change of it writes
//! to the terminal.

use vstd::prelude::*;
use vstd::string::StringExecFns;
use std::time::{Duration, Instant};
use crate::color::{Color, Style, color_code, style_code};
use crate::eta::{eta_suffix, push_eta};
use crate::text::{decimal, decimal_string, normalize, push_track, set_good_size, track};

verus! {

#[verifier::external_type_specification]
#[verifier::external_body]
pub struct ExInstant(std::time::Instant);

/// Relies on `Instant::now`: the instant of the call. Nothing is known of it.
#[verifier::external_body]
fn now() -> Instant {
    Instant::now()
}

/// Relies on `Instant::elapsed`: the time since `start`. Nothing is known of it.
#[verifier::external_body]
fn elapsed_since(start: &Instant) -> Duration {
    start.elapsed()
}

/// Relies on `Duration::as_millis`: the whole milliseconds of a duration.
/// What a duration holds is not visible here, so nothing is stated.
#[verifier::external_body]
fn whole_millis(d: &Duration) -> u128 {
    d.as_millis()
}

/// Default width of the track, in cells.
pub const DEFAULT_WIDTH: usize = 50;

/// What a progress bar holds, as plain values.
pub struct BarState {
    pub max: nat,
    pub progress: nat,
    pub width: nat,
    /// The action label, already brought to twelve characters (or empty).
    pub action: Seq<char>,
    pub color: Color,
    pub style: Style,
    /// The instant the timer started, if a timer runs; frames then carry
    /// an ETA.
    pub start: Option<Instant>,
}

/// The state of a fresh bar over `max` units, with the timer `start`.
pub open spec fn fresh(max: nat, start: Option<Instant>) -> BarState {
    BarState {
        max,
        progress: 0,
        width: DEFAULT_WIDTH as nat,
        action: Seq::empty(),
        color: Color::Black,
        style: Style::Normal,
        start,
    }
}

/// One frame of the bar, when `elapsed` milliseconds have passed since the
/// timer started: the styled label, the track, `progress/max`, the ETA if
/// the timer runs, then a line feed and a move back up one line, so that
/// the next frame overwrites this one.
pub open spec fn frame(s: BarState, elapsed: nat) -> Seq<char> {
    style_code(s.style) + color_code(s.color) + s.action + "\x1B[0m\x1B[K"@ + " ["@ + track(
        s.max,
        s.width,
        s.progress,
    ) + "] "@ + decimal(s.progress) + "/"@ + decimal(s.max) + (if s.start is Some {
        eta_suffix(s.max, s.progress, elapsed)
    } else {
        Seq::empty()
    }) + "\n\x1B[1A"@
}

/// Whether `out` is a frame of the bar in state `s`, for some time spent.
pub open spec fn is_frame(s: BarState, out: Seq<char>) -> bool {
    exists|e: nat| e <= u64::MAX && out == #[trigger] frame(s, e)
}

/// A tagged info line: the styled tag of twelve characters, the text, a
/// clear to the end of the line, and a line feed.
pub open spec fn info_line(tag: Seq<char>, text: Seq<char>, c: Color, s: Style) -> Seq<char> {
    style_code(s) + color_code(c) + normalize(tag) + "\x1B[0m "@ + text + "\x1B[K\n"@
}

/// Whether `out` is an info line followed by a frame of the bar in state `s`.
pub open spec fn is_info_output(
    s: BarState,
    tag: Seq<char>,
    text: Seq<char>,
    c: Color,
    st: Style,
    out: Seq<char>,
) -> bool {
    exists|f: Seq<char>| is_frame(s, f) && out == info_line(tag, text, c, st) + f
}

/// Writes an info line (see `info_line`).
pub fn info_line_string(tag: &str, text: &str, c: Color, s: Style) -> (r: String)
    ensures
        r@ == info_line(tag@, text@, c, s),
{
    let mut r = String::from_str(s.code());
    r.append(c.code());
    let label = set_good_size(tag);
    r.append(label.as_str());
    r.append("\x1B[0m ");
    r.append(text);
    r.append("\x1B[K\n");
    r
}

/// A frame is the same at any time when no timer runs.
pub proof fn lemma_frame_without_timer(s: BarState, e: nat)
    requires
        s.start is None,
    ensures
        frame(s, e) == frame(s, 0),
{
}

/// A bar in a terminal, with an optional ETA.
pub struct ProgressBar {
    max: usize,
    progression: usize,
    width: usize,
    action: String,
    action_color: Color,
    action_style: Style,
    start: Option<Instant>,
}

impl View for ProgressBar {
    type V = BarState;

    closed spec fn view(&self) -> BarState {
        BarState {
            max: self.max as nat,
            progress: self.progression as nat,
            width: self.width as nat,
            action: self.action@,
            color: self.action_color,
            style: self.action_style,
            start: self.start,
        }
    }
}

/// The time spent in milliseconds, held to what the ETA arithmetic takes.
fn clamp_millis(ms: u128) -> (r: u64)
    ensures
        r == if ms > u64::MAX as u128 { u64::MAX } else { ms as u64 },
{
    if ms > u64::MAX as u128 {
        u64::MAX
    } else {
        ms as u64
    }
}

impl ProgressBar {
    /// A bar over `max` units: progress 0, width 50, no label, no ETA.
    pub fn new(max: usize) -> (r: Self)
        ensures
            r@ == fresh(max as nat, None),
    {
        ProgressBar {
            max,
            progression: 0,
            width: DEFAULT_WIDTH,
            action: String::new(),
            action_color: Color::Black,
            action_style: Style::Normal,
            start: None,
        }
    }

    /// Like `new`, with the timer started now, so that frames carry an ETA.
    pub fn new_with_eta(max: usize) -> (r: Self)
        ensures
            r@ == fresh(max as nat, r@.start),
            r@.start is Some,
    {
        let mut r = ProgressBar::new(max);
        r.start = Some(now());
        r
    }

    /// The number of units.
    pub fn max(&self) -> (r: usize)
        ensures
            r == self@.max,
    {
        self.max
    }

    /// The units done.
    pub fn progression(&self) -> (r: usize)
        ensures
            r == self@.progress,
    {
        self.progression
    }

    /// The width of the track, in cells.
    pub fn width(&self) -> (r: usize)
        ensures
            r == self@.width,
    {
        self.width
    }

    /// The action label, as shown.
    pub fn action(&self) -> (r: &str)
        ensures
            r@ == self@.action,
    {
        self.action.as_str()
    }

    /// Whether frames carry an ETA.
    pub fn has_eta(&self) -> (r: bool)
        ensures
            r == self@.start is Some,
    {
        self.start.is_some()
    }

    /// The frame for `elapsed_ms` milliseconds since the timer started.
    pub fn render(&self, elapsed_ms: u64) -> (r: String)
        ensures
            r@ == frame(self@, elapsed_ms as nat),
    {
        let mut out = String::from_str(self.action_style.code());
        out.append(self.action_color.code());
        out.append(self.action.as_str());
        out.append("\x1B[0m\x1B[K");
        out.append(" [");
        push_track(&mut out, self.max, self.width, self.progression);
        out.append("] ");
        let p = decimal_string(self.progression as u128);
        out.append(p.as_str());
        out.append("/");
        let m = decimal_string(self.max as u128);
        out.append(m.as_str());
        if self.start.is_some() {
            push_eta(&mut out, self.max, self.progression, elapsed_ms);
        }
        out.append("\n\x1B[1A");
        assert(out@ =~= frame(self@, elapsed_ms as nat));
        out
    }

    /// The frame for now. Rendering changes nothing in the bar.
    pub fn display(&self) -> (r: String)
        ensures
            is_frame(self@, r@),
            self@.start is None ==> r@ == frame(self@, 0),
    {
        let ms: u64 = match &self.start {
            Some(start) => {
                let d = elapsed_since(start);
                clamp_millis(whole_millis(&d))
            },
            None => 0,
        };
        let r = self.render(ms);
        proof {
            if self@.start is None {
                lemma_frame_without_timer(self@, ms as nat);
            }
        }
        r
    }

    /// Sets the width of the track, and gives the new frame.
    pub fn set_width(&mut self, w: usize) -> (r: String)
        ensures
            final(self)@ == (BarState { width: w as nat, ..old(self)@ }),
            is_frame(final(self)@, r@),
    {
        self.width = w;
        self.display()
    }

    /// Sets the progress, restarts the timer if there is one, and gives the
    /// new frame.
    pub fn set_progression(&mut self, p: usize) -> (r: String)
        ensures
            final(self)@ == (BarState { progress: p as nat, start: final(self)@.start, ..old(self)@ }),
            final(self)@.start is Some == old(self)@.start is Some,
            is_frame(final(self)@, r@),
    {
        self.progression = p;
        if self.start.is_some() {
            self.start = Some(now());
        }
        self.display()
    }

    /// Sets the number of units, and gives the new frame.
    pub fn set_max(&mut self, m: usize) -> (r: String)
        ensures
            final(self)@ == (BarState { max: m as nat, ..old(self)@ }),
            is_frame(final(self)@, r@),
    {
        self.max = m;
        self.display()
    }

    /// Adds one unit of progress, and gives the new frame. The timer goes on.
    pub fn inc(&mut self) -> (r: String)
        requires
            old(self)@.progress < usize::MAX,
        ensures
            final(self)@ == (BarState { progress: old(self)@.progress + 1, ..old(self)@ }),
            is_frame(final(self)@, r@),
    {
        self.progression = self.progression + 1;
        self.display()
    }

    /// Resets the progress to 0 and starts the timer now.
    pub fn enable_eta(&mut self)
        ensures
            final(self)@ == (BarState { progress: 0, start: final(self)@.start, ..old(self)@ }),
            final(self)@.start is Some,
    {
        self.progression = 0;
        self.start = Some(now());
    }

    /// Stops the timer: frames carry no ETA.
    pub fn disable_eta(&mut self)
        ensures
            final(self)@ == (BarState { start: None, ..old(self)@ }),
    {
        self.start = None;
    }

    /// Sets the action label (brought to twelve characters), its color and
    /// its style, and gives the new frame.
    pub fn set_action(&mut self, a: &str, c: Color, s: Style) -> (r: String)
        ensures
            final(self)@ == (BarState {
                action: normalize(a@),
                color: c,
                style: s,
                ..old(self)@
            }),
            is_frame(final(self)@, r@),
    {
        self.action = set_good_size(a);
        self.action_color = c;
        self.action_style = s;
        self.display()
    }

    /// Gives an info line followed by the frame, which is drawn again below
    /// it. The bar does not change.
    pub fn print_info(&mut self, info_name: &str, text: &str, info_color: Color, info_style: Style) -> (r: String)
        ensures
            final(self)@ == old(self)@,
            is_info_output(old(self)@, info_name@, text@, info_color, info_style, r@),
    {
        let mut r = info_line_string(info_name, text, info_color, info_style);
        let ghost line = r@;
        let f = self.display();
        r.append(f.as_str());
        assert(r@ == line + f@);
        r
    }

    /// Gives a last info line, resets the progress to 0, and draws no frame.
    pub fn print_final_info(&mut self, info_name: &str, text: &str, info_color: Color, info_style: Style) -> (r: String)
        ensures
            final(self)@ == (BarState { progress: 0, ..old(self)@ }),
            r@ == info_line(info_name@, text@, info_color, info_style),
    {
        let r = info_line_string(info_name, text, info_color, info_style);
        self.progression = 0;
        r
    }

    /// Resets the progress to 0 and gives a line feed, so that what follows
    /// is written below the bar.
    pub fn finalize(&mut self) -> (r: String)
        ensures
            final(self)@ == (BarState { progress: 0, ..old(self)@ }),
            r@ == "\n"@,
    {
        self.progression = 0;
        String::from_str("\n")
    }
}

} // verus!
