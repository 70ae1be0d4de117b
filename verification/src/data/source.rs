// SPDX-License-Identifier: AGPL-3.0-only

//! What the watchers of the battery and of the time zone hand to the task
//! that owns the data.
//!
//! A watcher learns of a starting value by asking, and of later ones from
//! signals that some properties of some interface have changed. Either way
//! it ends up with a reading or an error, and turns it into a cause of
//! change. An error of one source is shown in that source's field; it stops
//! nothing.

use super::battery::BatteryStatus;
use super::timezone::{is_timezone_name, unknown_timezone_text, TimezoneId};
use super::{MaybeData, StatusbarChangeCause};
use std::time::Instant;
use vstd::prelude::*;

verus! {

/// What a signal of changed properties says about the one property that a
/// watcher cares for.
#[derive(Debug, PartialEq, Eq)]
pub enum PropertyNews<T> {
    /// The property has this new value.
    Changed(T),
    /// The property has a new value that the signal does not carry.
    Invalidated,
    /// The signal says nothing about the property.
    Unrelated,
}

/// Reads a signal of changed properties. `from_watched_interface` says
/// whether the signal is about the interface that has the property,
/// `changed` is the property's new value if the signal carries one, and
/// `invalidated` says whether the signal lists the property among those
/// whose new value it does not carry. A value that is carried counts before
/// the listing, and a signal about another interface counts for nothing.
pub fn property_news<T>(from_watched_interface: bool, changed: Option<T>, invalidated: bool) -> (news:
    PropertyNews<T>)
    ensures
        news == if !from_watched_interface {
            PropertyNews::<T>::Unrelated
        } else if let Some(value) = changed {
            PropertyNews::Changed(value)
        } else if invalidated {
            PropertyNews::Invalidated
        } else {
            PropertyNews::Unrelated
        },
{
    if from_watched_interface {
        match changed {
            Some(value) => PropertyNews::Changed(value),
            None => if invalidated {
                PropertyNews::Invalidated
            } else {
                PropertyNews::Unrelated
            },
        }
    } else {
        PropertyNews::Unrelated
    }
}

/// The field that a reading of a source makes: the value with the instant
/// at which it was read, or the error.
pub open spec fn field_of<T>(reading: Result<T, String>, at: Instant) -> MaybeData<T> {
    match reading {
        Ok(value) => MaybeData(Ok(Some((at, value)))),
        Err(error) => MaybeData(Err(error)),
    }
}

/// The cause of change for what the battery's source handed in at the
/// instant `at`.
pub fn battery_change(reading: Result<BatteryStatus, String>, at: Instant) -> (cause:
    StatusbarChangeCause)
    ensures
        cause == StatusbarChangeCause::BatteryChange(field_of(reading, at)),
{
    match reading {
        Ok(status) => StatusbarChangeCause::BatteryChange(MaybeData(Ok(Some((at, status))))),
        Err(error) => StatusbarChangeCause::BatteryChange(MaybeData(Err(error))),
    }
}

/// The cause of change for what the time zone's source handed in at the
/// instant `at`: the name of a zone, or an error. A name that is not the
/// name of a time zone is an error of the source like any other, and its
/// text is that of chrono-tz's refusal.
pub fn timezone_change(reading: Result<String, String>, at: Instant) -> (cause:
    StatusbarChangeCause)
    ensures
        cause matches StatusbarChangeCause::TzChange(field) && match reading {
            Ok(name) => if is_timezone_name(name@) {
                field.0 matches Ok(Some((stamp, zone))) && stamp == at && zone.name_text()
                    == name@
            } else {
                field.0 matches Err(why) && why@ == unknown_timezone_text()
            },
            Err(error) => field == MaybeData::<TimezoneId>(Err(error)),
        },
{
    match reading {
        Ok(name) => match TimezoneId::parse(name.as_str()) {
            Ok(zone) => StatusbarChangeCause::TzChange(MaybeData(Ok(Some((at, zone))))),
            Err(why) => StatusbarChangeCause::TzChange(MaybeData(Err(why))),
        },
        Err(error) => StatusbarChangeCause::TzChange(MaybeData(Err(error))),
    }
}

} // verus!
