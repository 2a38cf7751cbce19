//! The decisions of the logging bridge: whether a record is wanted, where it
//! goes, and how it looks when it goes through the active bar.

use vstd::prelude::*;
use crate::color::{Color, Style};
use crate::global::{print_progress_bar_info, reaches_bar, BarError, Registry};
use crate::pb::is_info_output;

verus! {

/// The level of a log record.
#[derive(Debug, Clone, Copy, PartialEq, Eq, Structural)]
pub enum LogLevel {
    Error,
    Warn,
    Info,
    Debug,
    Trace,
}

/// How the bridge uses the logger it wraps.
#[derive(Debug, Clone, Copy, PartialEq, Eq, Structural)]
pub enum InnerKind {
    /// The inner logger takes every record; the bar is drawn again after it.
    Main,
    /// The inner logger takes the records while no bar is active; while one
    /// is, they become info lines of the bar.
    Fallback,
    /// There is no inner logger: records become info lines of the active
    /// bar, and are dropped while none is active.
    Silent,
}

/// Where one record goes.
#[derive(Debug, Clone, Copy, PartialEq, Eq, Structural)]
pub enum Route {
    /// Clear the current line on both streams, hand the record to the inner
    /// logger, then draw the bar again when `redraw` holds.
    Delegate { redraw: bool },
    /// Print the record as an info line of the active bar.
    ThroughBar,
    /// Drop the record.
    Drop,
}

/// The tag, color and style of a record of each level shown through the bar.
pub open spec fn badge(level: LogLevel) -> (Seq<char>, Color, Style) {
    match level {
        LogLevel::Error => ("Error"@, Color::Red, Style::Bold),
        LogLevel::Warn => ("Warn"@, Color::Yellow, Style::Bold),
        LogLevel::Info => ("Info"@, Color::LightGreen, Style::Bold),
        LogLevel::Debug => ("Debug"@, Color::Blue, Style::Normal),
        LogLevel::Trace => ("Trace"@, Color::LightGray, Style::Normal),
    }
}

/// Where a record goes, given how the inner logger is used and whether a
/// bar is active.
pub open spec fn route_of(kind: InnerKind, bar_active: bool) -> Route {
    match kind {
        InnerKind::Main => Route::Delegate { redraw: bar_active },
        InnerKind::Fallback => if bar_active {
            Route::ThroughBar
        } else {
            Route::Delegate { redraw: false }
        },
        InnerKind::Silent => if bar_active {
            Route::ThroughBar
        } else {
            Route::Drop
        },
    }
}

/// Whether a record is wanted: a main logger decides alone; a fallback
/// logger decides while no bar is active; with no inner logger a record is
/// wanted only while a bar is active.
pub open spec fn wanted(kind: InnerKind, bar_active: bool, inner_enabled: bool) -> bool {
    match kind {
        InnerKind::Main => inner_enabled,
        InnerKind::Fallback => bar_active || inner_enabled,
        InnerKind::Silent => bar_active,
    }
}

/// Whether the inner logger's own answer counts for `wanted`: always for a
/// main logger, only while no bar is active for a fallback one, never when
/// there is none.
pub open spec fn asks_inner(kind: InnerKind, bar_active: bool) -> bool {
    match kind {
        InnerKind::Main => true,
        InnerKind::Fallback => !bar_active,
        InnerKind::Silent => false,
    }
}

/// Whether the inner logger must be asked if a record is wanted (see
/// `asks_inner`). When it need not be, its answer changes nothing.
pub fn needs_inner_answer(kind: InnerKind, bar_active: bool) -> (r: bool)
    ensures
        r == asks_inner(kind, bar_active),
        !r ==> wanted(kind, bar_active, true) == wanted(kind, bar_active, false),
{
    match kind {
        InnerKind::Main => true,
        InnerKind::Fallback => !bar_active,
        InnerKind::Silent => false,
    }
}

/// The tag, color and style of a record shown through the bar (see `badge`).
pub fn level_badge(level: LogLevel) -> (r: (&'static str, Color, Style))
    ensures
        (r.0@, r.1, r.2) == badge(level),
{
    match level {
        LogLevel::Error => ("Error", Color::Red, Style::Bold),
        LogLevel::Warn => ("Warn", Color::Yellow, Style::Bold),
        LogLevel::Info => ("Info", Color::LightGreen, Style::Bold),
        LogLevel::Debug => ("Debug", Color::Blue, Style::Normal),
        LogLevel::Trace => ("Trace", Color::LightGray, Style::Normal),
    }
}

/// Where a record goes (see `route_of`).
pub fn route(kind: InnerKind, bar_active: bool) -> (r: Route)
    ensures
        r == route_of(kind, bar_active),
{
    match kind {
        InnerKind::Main => Route::Delegate { redraw: bar_active },
        InnerKind::Fallback => {
            if bar_active {
                Route::ThroughBar
            } else {
                Route::Delegate { redraw: false }
            }
        },
        InnerKind::Silent => {
            if bar_active {
                Route::ThroughBar
            } else {
                Route::Drop
            }
        },
    }
}

/// Whether a record is wanted (see `wanted`).
pub fn enabled(kind: InnerKind, bar_active: bool, inner_enabled: bool) -> (r: bool)
    ensures
        r == wanted(kind, bar_active, inner_enabled),
{
    match kind {
        InnerKind::Main => inner_enabled,
        InnerKind::Fallback => bar_active || inner_enabled,
        InnerKind::Silent => bar_active,
    }
}

/// Shows a record as an info line of the active bar, tagged by its level.
pub fn print_record(reg: &mut Registry, level: LogLevel, message: &str) -> (r: Result<String, BarError>)
    ensures
        reaches_bar(old(reg)@, r),
        final(reg)@ == old(reg)@,
        r is Ok ==> is_info_output(
            old(reg)@->0,
            badge(level).0,
            message@,
            badge(level).1,
            badge(level).2,
            r->Ok_0@,
        ),
{
    let (tag, color, style) = level_badge(level);
    print_progress_bar_info(reg, tag, message, color, style)
}

} // verus!
