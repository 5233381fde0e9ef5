//! The date page: the day that is chosen, and what the page says of it.
//!
//! Whether a day exists, where in the week it falls and how it is written
//! are asked of `chrono`. What the page says is decided here: a Saturday or
//! a Sunday is a weekend, every other day a weekday.

use chrono::Datelike;
use vstd::prelude::*;

verus! {

/// A day by its numbers in the calendar. Not every triple is a day.
#[derive(Clone, Copy, Debug, PartialEq, Eq, Structural)]
pub struct Day {
    pub year: i32,
    pub month: u32,
    pub day: u32,
}

/// A place in the week.
#[derive(Clone, Copy, Debug, PartialEq, Eq, Structural)]
pub enum DayOfWeek {
    Mon,
    Tue,
    Wed,
    Thu,
    Fri,
    Sat,
    Sun,
}

/// What `NaiveDate::parse_from_str` reads from a text under the pattern
/// `%Y-%m-%d`: the numbers of the day, or `None` where it reports an error.
pub uninterp spec fn day_parse(text: Seq<char>) -> Option<Day>;

/// Where in the week a day falls, as `NaiveDate::weekday` tells it of the
/// date that `NaiveDate::from_ymd_opt` makes of the numbers; `None` where
/// the numbers make no date.
pub uninterp spec fn day_weekday(day: Day) -> Option<DayOfWeek>;

/// How `NaiveDate::format` writes a day under the pattern `%Y-%m-%d`;
/// `None` where `NaiveDate::from_ymd_opt` makes no date of the numbers.
pub uninterp spec fn day_text(day: Day) -> Option<Seq<char>>;

/// `NaiveDate::parse_from_str` with the pattern `%Y-%m-%d`; the date is
/// handed on by its year, month and day.
///
/// Trusted: the outcome depends on the text alone, so it is given the name
/// `day_parse`. Nothing is claimed of which texts are read as which day.
#[verifier::external_body]
fn parse_day(text: &str) -> (r: Option<Day>)
    ensures
        r == day_parse(text@),
{
    match chrono::NaiveDate::parse_from_str(text, "%Y-%m-%d") {
        Ok(date) => Some(Day { year: date.year(), month: date.month(), day: date.day() }),
        Err(_) => None,
    }
}

/// `NaiveDate::weekday`, on the date that `NaiveDate::from_ymd_opt` makes
/// of the numbers.
///
/// Trusted: the outcome depends on the numbers alone, so it is given the
/// name `day_weekday`. Nothing is claimed of which day falls where.
#[verifier::external_body]
fn weekday_of(day: Day) -> (r: Option<DayOfWeek>)
    ensures
        r == day_weekday(day),
{
    match chrono::NaiveDate::from_ymd_opt(day.year, day.month, day.day) {
        Some(date) => Some(
            match date.weekday() {
                chrono::Weekday::Mon => DayOfWeek::Mon,
                chrono::Weekday::Tue => DayOfWeek::Tue,
                chrono::Weekday::Wed => DayOfWeek::Wed,
                chrono::Weekday::Thu => DayOfWeek::Thu,
                chrono::Weekday::Fri => DayOfWeek::Fri,
                chrono::Weekday::Sat => DayOfWeek::Sat,
                chrono::Weekday::Sun => DayOfWeek::Sun,
            },
        ),
        None => None,
    }
}

/// `NaiveDate::format` with the pattern `%Y-%m-%d`, written out, on the
/// date that `NaiveDate::from_ymd_opt` makes of the numbers.
///
/// Trusted: the outcome depends on the numbers alone, so it is given the
/// name `day_text`. Nothing is claimed of the characters written.
#[verifier::external_body]
fn write_day(day: Day) -> (r: Option<String>)
    ensures
        match r {
            Some(text) => day_text(day) == Some(text@),
            None => day_text(day) is None,
        },
{
    match chrono::NaiveDate::from_ymd_opt(day.year, day.month, day.day) {
        Some(date) => Some(date.format("%Y-%m-%d").to_string()),
        None => None,
    }
}

/// Whether a place in the week belongs to the weekend.
pub open spec fn is_weekend(weekday: DayOfWeek) -> bool {
    weekday is Sat || weekday is Sun
}

/// What the page says of a day that is written `text` and falls on
/// `weekday`.
pub open spec fn caption_of(text: Seq<char>, weekday: DayOfWeek) -> Seq<char> {
    if is_weekend(weekday) {
        text + " is a weekend"@
    } else {
        text + " is a weekday"@
    }
}

/// Tells whether `weekday` belongs to the weekend.
pub fn weekend(weekday: DayOfWeek) -> (r: bool)
    ensures
        r == is_weekend(weekday),
{
    match weekday {
        DayOfWeek::Sat => true,
        DayOfWeek::Sun => true,
        _ => false,
    }
}

/// Writes what the page says of a day that is written `text` and falls on
/// `weekday`.
pub fn caption(text: &str, weekday: DayOfWeek) -> (r: String)
    ensures
        r@ == caption_of(text@, weekday),
{
    if weekend(weekday) {
        String::from_str(text).concat(" is a weekend")
    } else {
        String::from_str(text).concat(" is a weekday")
    }
}

/// The day that the page has chosen, with its place in the week and the
/// way it is written.
#[derive(Debug, PartialEq, Eq)]
pub struct Chosen {
    day: Day,
    weekday: DayOfWeek,
    text: String,
}

impl Chosen {
    /// The place in the week and the writing are those of the day.
    #[verifier::type_invariant]
    pub closed spec fn wf(&self) -> bool {
        &&& day_weekday(self.day) == Some(self.weekday)
        &&& day_text(self.day) == Some(self.text@)
    }

    /// The day that is chosen.
    pub closed spec fn spec_day(&self) -> Day {
        self.day
    }

    /// Chooses `day`, if there is such a day.
    pub fn new(day: Day) -> (r: Option<Chosen>)
        ensures
            match r {
                Some(chosen) => {
                    &&& chosen.spec_day() == day
                    &&& day_weekday(day) is Some
                    &&& day_text(day) is Some
                },
                None => day_weekday(day) is None || day_text(day) is None,
            },
    {
        let weekday = match weekday_of(day) {
            Some(weekday) => weekday,
            None => return None,
        };
        let text = match write_day(day) {
            Some(text) => text,
            None => return None,
        };
        Some(Chosen { day, weekday, text })
    }

    /// Chooses the day that `input` names, if it names one.
    pub fn from_input(input: &str) -> (r: Option<Chosen>)
        ensures
            match r {
                Some(chosen) => {
                    &&& day_parse(input@) == Some(chosen.spec_day())
                    &&& day_weekday(chosen.spec_day()) is Some
                    &&& day_text(chosen.spec_day()) is Some
                },
                None => day_parse(input@) matches Some(day) ==> day_weekday(day) is None
                    || day_text(day) is None,
            },
    {
        match parse_day(input) {
            Some(day) => Chosen::new(day),
            None => None,
        }
    }

    /// The day that is chosen.
    #[verifier::when_used_as_spec(spec_day)]
    pub fn day(&self) -> (r: Day)
        ensures
            r == self.spec_day(),
    {
        self.day
    }

    /// Where in the week the day falls.
    pub fn weekday(&self) -> (r: DayOfWeek)
        ensures
            Some(r) == day_weekday(self.spec_day()),
    {
        proof {
            use_type_invariant(self);
        }
        self.weekday
    }

    /// The day as the page's date field holds it.
    pub fn field_value(&self) -> (r: String)
        ensures
            Some(r@) == day_text(self.spec_day()),
    {
        proof {
            use_type_invariant(self);
        }
        self.text.clone()
    }

    /// What the page says of the day.
    pub fn caption(&self) -> (r: String)
        ensures
            day_text(self.spec_day()) is Some,
            day_weekday(self.spec_day()) is Some,
            r@ == caption_of(day_text(self.spec_day())->0, day_weekday(self.spec_day())->0),
    {
        proof {
            use_type_invariant(self);
        }
        caption(self.text.as_str(), self.weekday)
    }
}

} // verus!
