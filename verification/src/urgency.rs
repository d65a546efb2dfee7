use vstd::prelude::*;

use crate::errors::RenderError;

verus! {

/// How urgent a task is, judged by its due date against a reference day.
#[derive(Clone, Copy, Debug, PartialEq, Eq)]
pub enum UrgencyClass {
    Overdue,
    DueToday,
    DueLater,
    NoDueDate,
}

/// A terminal foreground color used by the renderer.
#[derive(Clone, Copy, Debug, PartialEq, Eq)]
pub enum TermColor {
    Red,
    Orange,
    White,
    Grey,
}

/// The calendar day (a day number in the proleptic Gregorian calendar,
/// UTC) named by a date-time-with-offset text, or `None` where the text
/// does not parse as one. A pure function of the characters alone.
pub uninterp spec fn rfc3339_day(s: Seq<char>) -> Option<i32>;

/// Relies on chrono's `DateTime::parse_from_rfc3339`, `naive_utc`,
/// `NaiveDateTime::date` and `Datelike::num_days_from_ce`: parsing and the
/// day number depend on the characters of `s` alone.
#[verifier::external_body]
fn parse_due_day(s: &str) -> (r: Option<i32>)
    ensures
        r == rfc3339_day(s@),
{
    match chrono::DateTime::parse_from_rfc3339(s) {
        Ok(dt) => Some(chrono::Datelike::num_days_from_ce(&dt.naive_utc().date())),
        Err(_) => None,
    }
}

/// The urgency of an optional due day against the reference day `now_day`:
/// same day is due today, a later day is due later, an earlier day is
/// overdue, and no day at all means no due date.
pub open spec fn classify_day_spec(due_day: Option<i32>, now_day: i32) -> UrgencyClass {
    match due_day {
        None => UrgencyClass::NoDueDate,
        Some(d) => if d == now_day {
            UrgencyClass::DueToday
        } else if d > now_day {
            UrgencyClass::DueLater
        } else {
            UrgencyClass::Overdue
        },
    }
}

/// The color each urgency class is shown in.
pub open spec fn color_spec(c: UrgencyClass) -> TermColor {
    match c {
        UrgencyClass::Overdue => TermColor::Red,
        UrgencyClass::DueToday => TermColor::Orange,
        UrgencyClass::DueLater => TermColor::White,
        UrgencyClass::NoDueDate => TermColor::White,
    }
}

/// What classifying an optional due text against `now_day` yields: no text
/// means no due date, text that does not parse is an error, and text that
/// parses is classified by its day.
pub open spec fn classify_view(due: Option<Seq<char>>, now_day: i32) -> Result<
    UrgencyClass,
    RenderError,
> {
    match due {
        None => Ok(UrgencyClass::NoDueDate),
        Some(s) => match rfc3339_day(s) {
            None => Err(RenderError::MalformedDueDate),
            Some(d) => Ok(classify_day_spec(Some(d), now_day)),
        },
    }
}

/// The view of an optional owned text as an optional character sequence.
pub open spec fn opt_text_view(o: Option<String>) -> Option<Seq<char>> {
    match o {
        Some(s) => Some(s@),
        None => None,
    }
}

/// Classifies a due day, already resolved to a day number, against the
/// reference day.
pub fn classify_day(due_day: Option<i32>, now_day: i32) -> (r: UrgencyClass)
    ensures
        r == classify_day_spec(due_day, now_day),
{
    match due_day {
        None => UrgencyClass::NoDueDate,
        Some(d) => if d == now_day {
            UrgencyClass::DueToday
        } else if d > now_day {
            UrgencyClass::DueLater
        } else {
            UrgencyClass::Overdue
        },
    }
}

/// Maps an urgency class to its display color.
pub fn color_of(c: UrgencyClass) -> (r: TermColor)
    ensures
        r == color_spec(c),
{
    match c {
        UrgencyClass::Overdue => TermColor::Red,
        UrgencyClass::DueToday => TermColor::Orange,
        UrgencyClass::DueLater => TermColor::White,
        UrgencyClass::NoDueDate => TermColor::White,
    }
}

/// Classifies an optional due text against the reference day `now_day`.
/// Absent text means no due date; text that does not parse as a
/// date-time-with-offset is a malformed-due-date error.
pub fn classify(due: &Option<String>, now_day: i32) -> (r: Result<UrgencyClass, RenderError>)
    ensures
        r == classify_view(opt_text_view(*due), now_day),
{
    match due {
        None => Ok(UrgencyClass::NoDueDate),
        Some(s) => match parse_due_day(s.as_str()) {
            None => Err(RenderError::MalformedDueDate),
            Some(d) => Ok(classify_day(Some(d), now_day)),
        },
    }
}

/// Law: due dates are compared at day granularity. A due timestamp whose
/// calendar day equals the reference day classifies as due today, whatever
/// its time of day: the time of day never enters the comparison.
pub proof fn lemma_same_day_is_due_today(d: i32)
    ensures
        classify_day_spec(Some(d), d) == UrgencyClass::DueToday,
{
}

} // verus!
