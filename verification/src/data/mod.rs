// SPDX-License-Identifier: AGPL-3.0-only

//! What the status line shows, and how notifications of change update it.

pub mod battery;
pub mod source;
pub mod timezone;

use crate::time::display::{DateTimeData, ZonedTime};
use battery::BatteryStatus;
use std::time::Instant;
use timezone::TimezoneId;
use vstd::prelude::*;
use vstd::string::StringExecFns;

verus! {

/// `std::time::Instant`: a reading of the monotonic clock. Nothing is known
/// of what is inside.
#[verifier::external_type_specification]
#[verifier::external_body]
pub struct ExInstant(Instant);

/// Values that have a text by which the status line shows them.
pub trait Describe {
    /// The text that stands for the value.
    spec fn text(&self) -> Seq<char>;

    /// Writes the value out.
    fn to_string(&self) -> (text: String)
        ensures
            text@ == self.text(),
    ;
}

/// What is shown for a value that was never observed.
pub open spec fn unknown_text() -> Seq<char> {
    "None"@
}

/// A field of the status line together with how fresh it is: never observed
/// (`Ok(None)`), observed at some instant with some value, or failed to be
/// observed, with the text of the error.
///
/// Whoever feeds a field is to hand in observations in the order in which
/// they were made; the field itself keeps whatever it was given last.
#[derive(Debug)]
pub struct MaybeData<T>(pub Result<Option<(Instant, T)>, String>);

impl<T: Describe> Describe for MaybeData<T> {
    open spec fn text(&self) -> Seq<char> {
        match self.0 {
            Ok(Some((_, value))) => value.text(),
            Ok(None) => unknown_text(),
            Err(error) => error@,
        }
    }

    fn to_string(&self) -> (text: String) {
        match &self.0 {
            Ok(opt) => match opt {
                Some((_timestamp, val)) => val.to_string(),
                None => "None".to_owned(),
            },
            Err(e) => e.clone(),
        }
    }
}

/// `Instant::now` of std: a reading of the monotonic clock. Nothing is
/// promised of it.
#[verifier::external_body]
fn instant_now() -> Instant {
    Instant::now()
}

/// Everything that the status line shows, but for the time of day, which is
/// worked out anew whenever the line is drawn.
#[derive(Debug)]
pub struct StatusbarData {
    battery: MaybeData<BatteryStatus>,
    timezone: MaybeData<TimezoneId>,
}

/// What the current time is known to be at the moment `utc_seconds`, given
/// the field that holds the time zone.
pub open spec fn time_in(timezone: MaybeData<TimezoneId>, utc_seconds: i64) -> DateTimeData {
    match timezone.0 {
        Ok(Some((_, zone))) => DateTimeData(Ok(Some(ZonedTime { utc_seconds, zone }))),
        Ok(None) => DateTimeData(Ok(None)),
        Err(error) => DateTimeData(Err(error)),
    }
}

/// The two fields with a bar between them.
pub open spec fn summary_text(battery: Seq<char>, time: Seq<char>) -> Seq<char> {
    battery + " | "@ + time
}

impl StatusbarData {
    /// The field that holds the battery's charge.
    pub closed spec fn battery_field(self) -> MaybeData<BatteryStatus> {
        self.battery
    }

    /// The field that holds the time zone.
    pub closed spec fn timezone_field(self) -> MaybeData<TimezoneId> {
        self.timezone
    }

    /// Data of which nothing has been observed yet.
    pub fn new() -> (data: StatusbarData)
        ensures
            data.battery_field() == MaybeData::<BatteryStatus>(Ok(None)),
            data.timezone_field() == MaybeData::<TimezoneId>(Ok(None)),
    {
        StatusbarData { battery: MaybeData(Ok(None)), timezone: MaybeData(Ok(None)) }
    }

    /// The field that holds the battery's charge.
    pub fn battery(&self) -> (field: &MaybeData<BatteryStatus>)
        ensures
            *field == self.battery_field(),
    {
        &self.battery
    }

    /// The field that holds the time zone.
    pub fn timezone(&self) -> (field: &MaybeData<TimezoneId>)
        ensures
            *field == self.timezone_field(),
    {
        &self.timezone
    }

    /// The current time, for the moment `utc_seconds` in whole seconds since
    /// the start of 1970 in UTC: that moment in the zone that was observed
    /// last, nothing where no zone was observed yet, and the zone's error
    /// where observing it failed.
    pub fn time(&self, utc_seconds: i64) -> (time: DateTimeData)
        ensures
            time == time_in(self.timezone_field(), utc_seconds),
    {
        match &self.timezone.0 {
            Ok(opt) => match opt {
                Some((_timestamp, tz)) => DateTimeData(
                    Ok(Some(ZonedTime { utc_seconds, zone: tz.clone() })),
                ),
                None => DateTimeData(Ok(None)),
            },
            Err(e) => DateTimeData(Err(e.clone())),
        }
    }

    /// Puts `bat` in place of the battery field.
    pub fn update_battery_maybedata(&mut self, bat: MaybeData<BatteryStatus>)
        ensures
            final(self).battery_field() == bat,
            final(self).timezone_field() == old(self).timezone_field(),
    {
        self.battery = bat;
    }

    /// Takes what a source of battery readings handed in: a reading is
    /// stamped with the present instant, an error is kept as it is.
    pub fn update_battery_result(&mut self, bat: Result<BatteryStatus, String>)
        ensures
            final(self).timezone_field() == old(self).timezone_field(),
            match bat {
                Ok(status) => final(self).battery_field().0 matches Ok(Some((_, kept))) && kept
                    == status,
                Err(error) => final(self).battery_field() == MaybeData::<BatteryStatus>(
                    Err(error),
                ),
            },
    {
        match bat {
            Ok(status) => self.update_battery(status),
            Err(e) => self.battery = MaybeData(Err(e)),
        }
    }

    /// Takes a reading of the battery, stamped with the present instant.
    pub fn update_battery(&mut self, bat: BatteryStatus)
        ensures
            final(self).timezone_field() == old(self).timezone_field(),
            final(self).battery_field().0 matches Ok(Some((_, kept))) && kept == bat,
    {
        self.update_battery_maybedata(MaybeData(Ok(Some((instant_now(), bat)))));
    }

    /// Puts `tz` in place of the time zone field.
    pub fn update_timezone_maybedata(&mut self, tz: MaybeData<TimezoneId>)
        ensures
            final(self).timezone_field() == tz,
            final(self).battery_field() == old(self).battery_field(),
    {
        self.timezone = tz;
    }

    /// Takes what a source of time zones handed in: a zone is stamped with
    /// the present instant, an error is kept as it is.
    pub fn update_timezone_result(&mut self, tz: Result<TimezoneId, String>)
        ensures
            final(self).battery_field() == old(self).battery_field(),
            match tz {
                Ok(zone) => final(self).timezone_field().0 matches Ok(Some((_, kept))) && kept
                    == zone,
                Err(error) => final(self).timezone_field() == MaybeData::<TimezoneId>(
                    Err(error),
                ),
            },
    {
        match tz {
            Ok(tz) => self.update_timezone(tz),
            Err(e) => self.timezone = MaybeData(Err(e)),
        }
    }

    /// Takes a time zone, stamped with the present instant.
    pub fn update_timezone(&mut self, tz: TimezoneId)
        ensures
            final(self).battery_field() == old(self).battery_field(),
            final(self).timezone_field().0 matches Ok(Some((_, kept))) && kept == tz,
    {
        self.update_timezone_maybedata(MaybeData(Ok(Some((instant_now(), tz)))));
    }

    /// The data in one line, for the moment `utc_seconds`: the battery, a
    /// bar, and the time.
    pub fn to_string(&self, utc_seconds: i64) -> (text: String)
        ensures
            text@ == summary_text(
                self.battery_field().text(),
                time_in(self.timezone_field(), utc_seconds).text(),
            ),
    {
        let mut text = self.battery.to_string();
        text.append(" | ");
        text.append(self.time(utc_seconds).to_string().as_str());
        text
    }
}

/// Why the status line is to be drawn again. This is what travels from the
/// watchers and the tick engine to the one task that owns the data.
#[derive(Debug)]
pub enum StatusbarChangeCause {
    /// We're at the next minute.
    NextMinute,
    /// The timezone changed.
    TzChange(MaybeData<TimezoneId>),
    /// The clock was (maybe) adjusted.
    ClockAdjust,
    /// The battery status changed.
    BatteryChange(MaybeData<BatteryStatus>),
}

/// The battery field after `cause`, where it was `battery` before: a change
/// of the battery replaces the field outright, nothing else touches it.
pub open spec fn battery_after(
    battery: MaybeData<BatteryStatus>,
    cause: StatusbarChangeCause,
) -> MaybeData<BatteryStatus> {
    match cause {
        StatusbarChangeCause::BatteryChange(change) => change,
        _ => battery,
    }
}

/// The time zone field after `cause`, where it was `timezone` before: a
/// change of the time zone replaces the field outright, nothing else touches
/// it.
pub open spec fn timezone_after(
    timezone: MaybeData<TimezoneId>,
    cause: StatusbarChangeCause,
) -> MaybeData<TimezoneId> {
    match cause {
        StatusbarChangeCause::TzChange(change) => change,
        _ => timezone,
    }
}

/// The battery field after all of `causes`, in order.
pub open spec fn battery_after_all(
    battery: MaybeData<BatteryStatus>,
    causes: Seq<StatusbarChangeCause>,
) -> MaybeData<BatteryStatus>
    decreases causes.len(),
{
    if causes.len() == 0 {
        battery
    } else {
        battery_after(battery_after_all(battery, causes.drop_last()), causes.last())
    }
}

/// The time zone field after all of `causes`, in order.
pub open spec fn timezone_after_all(
    timezone: MaybeData<TimezoneId>,
    causes: Seq<StatusbarChangeCause>,
) -> MaybeData<TimezoneId>
    decreases causes.len(),
{
    if causes.len() == 0 {
        timezone
    } else {
        timezone_after(timezone_after_all(timezone, causes.drop_last()), causes.last())
    }
}

impl StatusbarData {
    /// Takes one cause of change. A new time zone or battery reading takes
    /// the place of the old one; the passing of a minute and a step of the
    /// clock carry nothing and leave the data as it is.
    pub fn apply(&mut self, cause: StatusbarChangeCause)
        ensures
            final(self).battery_field() == battery_after(old(self).battery_field(), cause),
            final(self).timezone_field() == timezone_after(old(self).timezone_field(), cause),
    {
        match cause {
            StatusbarChangeCause::TzChange(tz_change) => {
                self.update_timezone_maybedata(tz_change);
            },
            StatusbarChangeCause::BatteryChange(bat_change) => {
                self.update_battery_maybedata(bat_change);
            },
            _ => {},
        }
    }

    /// Takes a batch of causes in the order in which they came.
    pub fn apply_all(&mut self, causes: Vec<StatusbarChangeCause>)
        ensures
            final(self).battery_field() == battery_after_all(old(self).battery_field(), causes@),
            final(self).timezone_field() == timezone_after_all(
                old(self).timezone_field(),
                causes@,
            ),
    {
        let ghost battery = self.battery;
        let ghost timezone = self.timezone;
        for cause in iter: causes
            invariant
                iter.seq() == causes@,
                self.battery == battery_after_all(battery, causes@.take(iter.index())),
                self.timezone == timezone_after_all(timezone, causes@.take(iter.index())),
        {
            assert(causes@.take(iter.index() + 1).drop_last() =~= causes@.take(iter.index()));
            self.apply(cause);
        }
        assert(causes@.take(causes@.len() as int) =~= causes@);
    }
}

/// The last battery field that a change among `causes` brought, or
/// `battery` where none brought one.
pub open spec fn last_battery_change(
    battery: MaybeData<BatteryStatus>,
    causes: Seq<StatusbarChangeCause>,
) -> MaybeData<BatteryStatus>
    decreases causes.len(),
{
    if causes.len() == 0 {
        battery
    } else if let StatusbarChangeCause::BatteryChange(change) = causes.last() {
        change
    } else {
        last_battery_change(battery, causes.drop_last())
    }
}

/// The last time zone field that a change among `causes` brought, or
/// `timezone` where none brought one.
pub open spec fn last_timezone_change(
    timezone: MaybeData<TimezoneId>,
    causes: Seq<StatusbarChangeCause>,
) -> MaybeData<TimezoneId>
    decreases causes.len(),
{
    if causes.len() == 0 {
        timezone
    } else if let StatusbarChangeCause::TzChange(change) = causes.last() {
        change
    } else {
        last_timezone_change(timezone, causes.drop_last())
    }
}

/// The last write wins. After any run of causes, with minutes and steps of
/// the clock strewn among the changes at will, each field holds what the last
/// change of that field brought, and what it held before where there was no
/// such change. So does the text of each field.
pub proof fn lemma_last_write_wins(
    battery: MaybeData<BatteryStatus>,
    timezone: MaybeData<TimezoneId>,
    causes: Seq<StatusbarChangeCause>,
)
    ensures
        battery_after_all(battery, causes) == last_battery_change(battery, causes),
        timezone_after_all(timezone, causes) == last_timezone_change(timezone, causes),
        battery_after_all(battery, causes).text() == last_battery_change(battery, causes).text(),
        forall|utc_seconds: i64|
            #![auto]
            time_in(timezone_after_all(timezone, causes), utc_seconds) == time_in(
                last_timezone_change(timezone, causes),
                utc_seconds,
            ),
    decreases causes.len(),
{
    if causes.len() > 0 {
        lemma_last_write_wins(battery, timezone, causes.drop_last());
    }
}

} // verus!
