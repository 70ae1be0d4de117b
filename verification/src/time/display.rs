// SPDX-License-Identifier: AGPL-3.0-only

//! The date and time of day in a time zone, as the status line shows them.

use crate::data::timezone::TimezoneId;
use crate::data::Describe;
use chrono::DateTime;
use chrono_tz::Tz;
use std::fmt::Write;
use vstd::prelude::*;

verus! {

/// What chrono writes for a moment, given in whole seconds since the start of
/// 1970 in UTC, as seen in the time zone that chrono-tz knows by the name
/// `zone`, under the strftime pattern `pattern`. `None` where chrono-tz knows
/// no such zone, where chrono cannot count that far, and where chrono refuses
/// the pattern.
pub uninterp spec fn zoned_time_text(zone: Seq<char>, utc_seconds: i64, pattern: Seq<char>)
    -> Option<Seq<char>>;

/// chrono's `DateTime::format`, on the moment that `DateTime::from_timestamp`
/// makes of `utc_seconds`, moved by `with_timezone` into the zone that
/// chrono-tz's `FromStr` makes of `zone`. The text is written into a string;
/// where any of these steps fails there is no text.
#[verifier::external_body]
fn format_zoned(zone: &str, utc_seconds: i64, pattern: &str) -> (text: Option<String>)
    ensures
        text is Some <==> zoned_time_text(zone@, utc_seconds, pattern@) is Some,
        text matches Some(written) ==> zoned_time_text(zone@, utc_seconds, pattern@) == Some(
            written@,
        ),
{
    let tz: Tz = zone.parse().ok()?;
    let at = DateTime::from_timestamp(utc_seconds, 0)?.with_timezone(&tz);
    let mut text = String::new();
    write!(text, "{}", at.format(pattern)).ok()?;
    Some(text)
}

/// The pattern of the full form: date, then hours and minutes.
pub open spec fn full_pattern() -> Seq<char> {
    "%Y-%m-%d %H:%M"@
}

/// The pattern of the short form: hours and minutes.
pub open spec fn short_pattern() -> Seq<char> {
    "%H:%M"@
}

/// What is shown where there is no time to show.
pub open spec fn no_time_text() -> Seq<char> {
    "none"@
}

/// What is shown in place of a moment that cannot be written out.
pub open spec fn unwritable_time_text() -> Seq<char> {
    "time out of range"@
}

/// A moment, and the time zone in which to show it.
#[derive(Debug)]
pub struct ZonedTime {
    /// Whole seconds since the start of 1970 in UTC.
    pub utc_seconds: i64,
    /// The zone whose date and time of day are shown.
    pub zone: TimezoneId,
}

/// The current time as far as it is known: a moment in a zone, nothing yet
/// (`Ok(None)`), or the text of the error that kept the zone from being
/// known.
#[derive(Debug)]
pub struct DateTimeData(pub Result<Option<ZonedTime>, String>);

/// The text of the full form, given what chrono wrote for the moment.
pub open spec fn full_text_of(data: DateTimeData, written: Option<Seq<char>>) -> Seq<char> {
    match data.0 {
        Ok(Some(_)) => match written {
            Some(text) => text,
            None => unwritable_time_text(),
        },
        Ok(None) => no_time_text(),
        Err(error) => error@,
    }
}

/// The text of the short form, given what chrono wrote for the moment.
pub open spec fn short_text_of(data: DateTimeData, written: Option<Seq<char>>) -> Seq<char> {
    match data.0 {
        Ok(Some(_)) => match written {
            Some(text) => text,
            None => no_time_text(),
        },
        _ => no_time_text(),
    }
}

impl DateTimeData {
    /// What chrono writes for the moment under `pattern`, if there is a
    /// moment and chrono writes it.
    pub open spec fn written(self, pattern: Seq<char>) -> Option<Seq<char>> {
        match self.0 {
            Ok(Some(at)) => zoned_time_text(at.zone.name_text(), at.utc_seconds, pattern),
            _ => None,
        }
    }

    /// Asks chrono to write the moment under `pattern`.
    fn write_out(&self, pattern: &str) -> (text: Option<String>)
        ensures
            text is Some <==> self.written(pattern@) is Some,
            text matches Some(written) ==> self.written(pattern@) == Some(written@),
    {
        match &self.0 {
            Ok(Some(at)) => format_zoned(at.zone.name(), at.utc_seconds, pattern),
            _ => None,
        }
    }

    /// The full form, put together from what chrono wrote: the date and time
    /// where there is one, `none` where nothing is known yet, and the text of
    /// the error where the zone could not be learnt. A moment that chrono
    /// could not write is shown as out of range.
    pub fn full_text(&self, written: Option<String>) -> (text: String)
        ensures
            text@ == full_text_of(
                *self,
                match written {
                    Some(w) => Some(w@),
                    None => None,
                },
            ),
    {
        match &self.0 {
            Ok(Some(_)) => match written {
                Some(text) => text,
                None => "time out of range".to_owned(),
            },
            Ok(None) => "none".to_owned(),
            Err(error) => error.clone(),
        }
    }

    /// The short form, put together from what chrono wrote: the time of day
    /// where there is one, and `none` in every other case.
    pub fn short_text(&self, written: Option<String>) -> (text: String)
        ensures
            text@ == short_text_of(
                *self,
                match written {
                    Some(w) => Some(w@),
                    None => None,
                },
            ),
    {
        match &self.0 {
            Ok(Some(_)) => match written {
                Some(text) => text,
                None => "none".to_owned(),
            },
            _ => "none".to_owned(),
        }
    }
}

impl Describe for DateTimeData {
    /// Year, month, day, hours and minutes, as chrono writes them.
    open spec fn text(&self) -> Seq<char> {
        full_text_of(*self, self.written(full_pattern()))
    }

    fn to_string(&self) -> (text: String) {
        let written = self.write_out("%Y-%m-%d %H:%M");
        self.full_text(written)
    }
}

/// The current time in its short form: hours and minutes only.
#[derive(Debug)]
pub struct ShortenedDTD(pub DateTimeData);

impl Describe for ShortenedDTD {
    /// Hours and minutes, as chrono writes them.
    open spec fn text(&self) -> Seq<char> {
        short_text_of(self.0, self.0.written(short_pattern()))
    }

    fn to_string(&self) -> (text: String) {
        let written = self.0.write_out("%H:%M");
        self.0.short_text(written)
    }
}

} // verus!
