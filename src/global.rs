//! The registry: a slot that holds at most one active bar, and the calls
//! that act on the bar in it, or report that there is none.

use vstd::prelude::*;
use crate::color::{Color, Style};
use crate::pb::{info_line, is_frame, is_info_output, fresh, BarState, ProgressBar};
use crate::text::normalize;

verus! {

/// What goes wrong when a call reaches the registry.
#[derive(Debug, Clone, Copy, PartialEq, Eq, Structural)]
pub enum BarError {
    /// The slot holds no bar.
    NoActiveBar,
}

/// Whether the slot holds a fresh bar over `max` units, whose timer runs
/// exactly when `eta` holds.
pub open spec fn holds_fresh(slot: Option<BarState>, max: nat, eta: bool) -> bool {
    match slot {
        Some(s) => s == fresh(max, s.start) && (s.start is Some) == eta,
        None => false,
    }
}

/// The slot after `finalize_progress_bar`: empty, whatever it held.
pub open spec fn slot_after_finalize(slot: Option<BarState>) -> Option<BarState> {
    None
}

/// How a call on the bar in a slot ends: with the bar's output, or with
/// `NoActiveBar` when the slot is empty.
pub open spec fn reaches_bar<T>(slot: Option<BarState>, r: Result<T, BarError>) -> bool {
    match slot {
        Some(_) => r is Ok,
        None => r == Err::<T, BarError>(BarError::NoActiveBar),
    }
}

/// The slot that holds at most one active bar.
pub struct Registry {
    slot: Option<ProgressBar>,
}

impl View for Registry {
    type V = Option<BarState>;

    closed spec fn view(&self) -> Option<BarState> {
        match self.slot {
            Some(b) => Some(b@),
            None => None,
        }
    }
}

impl Registry {
    /// An empty registry.
    pub fn new() -> (r: Self)
        ensures
            r@ is None,
    {
        Registry { slot: None }
    }

    /// The active bar, if any.
    pub fn bar(&self) -> (r: Option<&ProgressBar>)
        ensures
            match r {
                Some(b) => self@ == Some(b@),
                None => self@ is None,
            },
    {
        match &self.slot {
            Some(b) => Some(b),
            None => None,
        }
    }
}

/// Whether a bar is active.
pub fn has_progress_bar(reg: &Registry) -> (r: bool)
    ensures
        r == reg@ is Some,
{
    reg.slot.is_some()
}

/// Makes `progress_bar` the active bar, in place of any other.
pub fn set_progress_bar(reg: &mut Registry, progress_bar: ProgressBar)
    ensures
        final(reg)@ == Some(progress_bar@),
{
    reg.slot = Some(progress_bar);
}

/// Makes a fresh bar over `max` units the active bar.
pub fn init_progress_bar(reg: &mut Registry, max: usize)
    ensures
        holds_fresh(final(reg)@, max as nat, false),
{
    let progress_bar = ProgressBar::new(max);
    set_progress_bar(reg, progress_bar);
}

/// Makes a fresh bar over `max` units, with its timer started, the active
/// bar.
pub fn init_progress_bar_with_eta(reg: &mut Registry, max: usize)
    ensures
        holds_fresh(final(reg)@, max as nat, true),
{
    let progress_bar = ProgressBar::new_with_eta(max);
    set_progress_bar(reg, progress_bar);
}

/// Former name of `set_progress_bar_progress`.
pub fn set_progress_bar_progression(reg: &mut Registry, progress: usize) -> (r: Result<String, BarError>)
    ensures
        reaches_bar(old(reg)@, r),
        final(reg)@ == match old(reg)@ {
            Some(s) => Some(BarState { progress: progress as nat, start: final(reg)@->0.start, ..s }),
            None => None,
        },
        old(reg)@ matches Some(s) ==> (final(reg)@->0.start is Some == s.start is Some),
        r is Ok ==> is_frame(final(reg)@->0, r->Ok_0@),
{
    set_progress_bar_progress(reg, progress)
}

/// Sets the progress of the active bar (see `ProgressBar::set_progression`).
pub fn set_progress_bar_progress(reg: &mut Registry, progress: usize) -> (r: Result<String, BarError>)
    ensures
        reaches_bar(old(reg)@, r),
        final(reg)@ == match old(reg)@ {
            Some(s) => Some(BarState { progress: progress as nat, start: final(reg)@->0.start, ..s }),
            None => None,
        },
        old(reg)@ matches Some(s) ==> (final(reg)@->0.start is Some == s.start is Some),
        r is Ok ==> is_frame(final(reg)@->0, r->Ok_0@),
{
    match reg.slot.take() {
        Some(mut bar) => {
            let out = bar.set_progression(progress);
            reg.slot = Some(bar);
            Ok(out)
        },
        None => Err(BarError::NoActiveBar),
    }
}

/// Adds one unit to the active bar (see `ProgressBar::inc`).
pub fn inc_progress_bar(reg: &mut Registry) -> (r: Result<String, BarError>)
    requires
        old(reg)@ matches Some(s) ==> s.progress < usize::MAX,
    ensures
        reaches_bar(old(reg)@, r),
        final(reg)@ == match old(reg)@ {
            Some(s) => Some(BarState { progress: s.progress + 1, ..s }),
            None => None,
        },
        r is Ok ==> is_frame(final(reg)@->0, r->Ok_0@),
{
    match reg.slot.take() {
        Some(mut bar) => {
            let out = bar.inc();
            reg.slot = Some(bar);
            Ok(out)
        },
        None => Err(BarError::NoActiveBar),
    }
}

/// Sets the track width of the active bar (see `ProgressBar::set_width`).
pub fn set_progress_bar_width(reg: &mut Registry, width: usize) -> (r: Result<String, BarError>)
    ensures
        reaches_bar(old(reg)@, r),
        final(reg)@ == match old(reg)@ {
            Some(s) => Some(BarState { width: width as nat, ..s }),
            None => None,
        },
        r is Ok ==> is_frame(final(reg)@->0, r->Ok_0@),
{
    match reg.slot.take() {
        Some(mut bar) => {
            let out = bar.set_width(width);
            reg.slot = Some(bar);
            Ok(out)
        },
        None => Err(BarError::NoActiveBar),
    }
}

/// Sets the number of units of the active bar (see `ProgressBar::set_max`).
pub fn set_progress_bar_max(reg: &mut Registry, max: usize) -> (r: Result<String, BarError>)
    ensures
        reaches_bar(old(reg)@, r),
        final(reg)@ == match old(reg)@ {
            Some(s) => Some(BarState { max: max as nat, ..s }),
            None => None,
        },
        r is Ok ==> is_frame(final(reg)@->0, r->Ok_0@),
{
    match reg.slot.take() {
        Some(mut bar) => {
            let out = bar.set_max(max);
            reg.slot = Some(bar);
            Ok(out)
        },
        None => Err(BarError::NoActiveBar),
    }
}

/// Resets the progress of the active bar and starts its timer (see
/// `ProgressBar::enable_eta`).
pub fn enable_eta(reg: &mut Registry) -> (r: Result<(), BarError>)
    ensures
        reaches_bar(old(reg)@, r),
        final(reg)@ == match old(reg)@ {
            Some(s) => Some(BarState { progress: 0, start: final(reg)@->0.start, ..s }),
            None => None,
        },
        final(reg)@ matches Some(s) ==> s.start is Some,
{
    match reg.slot.take() {
        Some(mut bar) => {
            bar.enable_eta();
            reg.slot = Some(bar);
            Ok(())
        },
        None => Err(BarError::NoActiveBar),
    }
}

/// Stops the timer of the active bar (see `ProgressBar::disable_eta`).
pub fn disable_eta(reg: &mut Registry) -> (r: Result<(), BarError>)
    ensures
        reaches_bar(old(reg)@, r),
        final(reg)@ == match old(reg)@ {
            Some(s) => Some(BarState { start: None, ..s }),
            None => None,
        },
{
    match reg.slot.take() {
        Some(mut bar) => {
            bar.disable_eta();
            reg.slot = Some(bar);
            Ok(())
        },
        None => Err(BarError::NoActiveBar),
    }
}

/// An info line and the frame of the active bar (see
/// `ProgressBar::print_info`).
pub fn print_progress_bar_info(
    reg: &mut Registry,
    info_name: &str,
    text: &str,
    info_color: Color,
    info_style: Style,
) -> (r: Result<String, BarError>)
    ensures
        reaches_bar(old(reg)@, r),
        final(reg)@ == old(reg)@,
        r is Ok ==> is_info_output(old(reg)@->0, info_name@, text@, info_color, info_style, r->Ok_0@),
{
    match reg.slot.take() {
        Some(mut bar) => {
            let out = bar.print_info(info_name, text, info_color, info_style);
            reg.slot = Some(bar);
            Ok(out)
        },
        None => Err(BarError::NoActiveBar),
    }
}

/// Sets the action label of the active bar (see `ProgressBar::set_action`).
pub fn set_progress_bar_action(reg: &mut Registry, action: &str, color: Color, style: Style) -> (r: Result<String, BarError>)
    ensures
        reaches_bar(old(reg)@, r),
        final(reg)@ == match old(reg)@ {
            Some(s) => Some(BarState { action: normalize(action@), color, style, ..s }),
            None => None,
        },
        r is Ok ==> is_frame(final(reg)@->0, r->Ok_0@),
{
    match reg.slot.take() {
        Some(mut bar) => {
            let out = bar.set_action(action, color, style);
            reg.slot = Some(bar);
            Ok(out)
        },
        None => Err(BarError::NoActiveBar),
    }
}

/// A last info line from the active bar, whose progress goes back to 0
/// (see `ProgressBar::print_final_info`).
pub fn print_progress_bar_final_info(
    reg: &mut Registry,
    info_name: &str,
    text: &str,
    info_color: Color,
    info_style: Style,
) -> (r: Result<String, BarError>)
    ensures
        reaches_bar(old(reg)@, r),
        final(reg)@ == match old(reg)@ {
            Some(s) => Some(BarState { progress: 0, ..s }),
            None => None,
        },
        r is Ok ==> r->Ok_0@ == info_line(info_name@, text@, info_color, info_style),
{
    match reg.slot.take() {
        Some(mut bar) => {
            let out = bar.print_final_info(info_name, text, info_color, info_style);
            reg.slot = Some(bar);
            Ok(out)
        },
        None => Err(BarError::NoActiveBar),
    }
}

/// Takes the active bar out of the slot and finalizes it: the output is the
/// line feed that leaves the bar on screen.
pub fn finalize_progress_bar(reg: &mut Registry) -> (r: Result<String, BarError>)
    ensures
        reaches_bar(old(reg)@, r),
        final(reg)@ == slot_after_finalize(old(reg)@),
        r is Ok ==> r->Ok_0@ == "\n"@,
{
    match reg.slot.take() {
        Some(mut bar) => Ok(bar.finalize()),
        None => Err(BarError::NoActiveBar),
    }
}

/// After a bar is put in the slot it is active; once it is finalized no bar
/// is active, and every call on the bar then ends with `NoActiveBar`.
pub proof fn law_init_finalize_round_trip<T>(
    slot: Option<BarState>,
    max: nat,
    eta: bool,
    r: Result<T, BarError>,
)
    requires
        holds_fresh(slot, max, eta),
        reaches_bar(slot_after_finalize(slot), r),
    ensures
        slot is Some,
        slot_after_finalize(slot) is None,
        r == Err::<T, BarError>(BarError::NoActiveBar),
{
}

} // verus!
