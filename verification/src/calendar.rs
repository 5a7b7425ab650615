//! The clock and date panel.

use vstd::prelude::*;

verus! {

/// A local wall-clock time, as the clock reads it.
#[derive(Clone, Copy, Debug, PartialEq, Eq, Structural)]
pub struct ClockTime {
    pub year: i32,
    pub month: u32,
    pub day: u32,
    pub hour: u32,
    pub minute: u32,
    pub second: u32,
}

/// What `chrono` writes for the date and time made of these fields
/// (`NaiveDate::from_ymd_opt(..)` then `and_hms_opt(..)`) under the strftime
/// `pattern`; none where `chrono` takes the fields for no date or time.
pub uninterp spec fn strftime(
    year: i32,
    month: u32,
    day: u32,
    hour: u32,
    minute: u32,
    second: u32,
    pattern: Seq<char>,
) -> Option<Seq<char>>;

/// The patterns the panel shows a time with: hour, minute, short weekday
/// name, and month/day.
pub open spec fn is_panel_pattern(pattern: Seq<char>) -> bool {
    pattern == "%H"@ || pattern == "%M"@ || pattern == "%a"@ || pattern == "%m/%d"@
}

/// Formats `time` with `chrono`'s `NaiveDateTime::format` under `pattern`.
/// Claimed: the result is `strftime` of the fields and the pattern, none
/// where `chrono` builds no date and time from the fields. Only the
/// panel's own patterns are passed, as an invalid pattern makes `chrono`'s
/// formatter fail and `to_string` panic.
#[verifier::external_body]
fn format_clock(time: &ClockTime, pattern: &str) -> (text: Option<String>)
    requires
        is_panel_pattern(pattern@),
    ensures
        match text {
            Some(t) => strftime(
                time.year,
                time.month,
                time.day,
                time.hour,
                time.minute,
                time.second,
                pattern@,
            ) == Some(t@),
            None => strftime(
                time.year,
                time.month,
                time.day,
                time.hour,
                time.minute,
                time.second,
                pattern@,
            ) is None,
        },
{
    let date = chrono::NaiveDate::from_ymd_opt(time.year, time.month, time.day);
    let moment = match date {
        Some(d) => d.and_hms_opt(time.hour, time.minute, time.second),
        None => None,
    };
    match moment {
        Some(m) => Some(m.format(pattern).to_string()),
        None => None,
    }
}

/// `time` written under `pattern`; the empty text where the fields make no
/// date and time.
pub open spec fn clock_text(time: ClockTime, pattern: Seq<char>) -> Seq<char> {
    match strftime(time.year, time.month, time.day, time.hour, time.minute, time.second, pattern) {
        Some(t) => t,
        None => Seq::empty(),
    }
}

/// `time` written under one of the panel's patterns, as `clock_text` says.
fn clock_label(time: &ClockTime, pattern: &str) -> (label: String)
    requires
        is_panel_pattern(pattern@),
    ensures
        label@ == clock_text(*time, pattern@),
{
    match format_clock(time, pattern) {
        Some(t) => t,
        None => String::new(),
    }
}

/// What the calendar panel is told.
#[derive(Clone, Copy, Debug, PartialEq, Eq, Structural)]
pub enum CalendarCmd {
    /// The clock ticked; this is the time now.
    UpdateTime(ClockTime),
}

/// The calendar panel: the time it shows.
pub struct Calendar {
    time: ClockTime,
}

impl View for Calendar {
    type V = ClockTime;

    closed spec fn view(&self) -> ClockTime {
        self.time
    }
}

impl Calendar {
    /// A panel showing `time`.
    pub fn new(time: ClockTime) -> (calendar: Calendar)
        ensures
            calendar@ == time,
    {
        Calendar { time }
    }

    /// Answers a command: a tick shows the time it brings.
    pub fn update_cmd(&mut self, message: CalendarCmd)
        ensures
            final(self)@ == (match message {
                CalendarCmd::UpdateTime(now) => now,
            }),
    {
        match message {
            CalendarCmd::UpdateTime(now) => self.time = now,
        }
    }

    /// The time shown.
    pub fn time(&self) -> (time: ClockTime)
        ensures
            time == self@,
    {
        self.time
    }

    /// The hour, two digits.
    pub fn hour_label(&self) -> (label: String)
        ensures
            label@ == clock_text(self@, "%H"@),
    {
        clock_label(&self.time, "%H")
    }

    /// The short name of the weekday.
    pub fn weekday_label(&self) -> (label: String)
        ensures
            label@ == clock_text(self@, "%a"@),
    {
        clock_label(&self.time, "%a")
    }

    /// Month and day, two digits each.
    pub fn date_label(&self) -> (label: String)
        ensures
            label@ == clock_text(self@, "%m/%d"@),
    {
        clock_label(&self.time, "%m/%d")
    }

    /// The minute, two digits.
    pub fn minute_label(&self) -> (label: String)
        ensures
            label@ == clock_text(self@, "%M"@),
    {
        clock_label(&self.time, "%M")
    }
}

} // verus!
