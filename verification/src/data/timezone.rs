// SPDX-License-Identifier: AGPL-3.0-only

//! Time zones, by their names in the time zone database.

use super::Describe;
use chrono_tz::Tz;
use vstd::prelude::*;

verus! {

/// Whether chrono-tz knows a time zone of this name: whether its `FromStr`
/// for `Tz` returns `Ok` on it. The names are those of the time zone database
/// that chrono-tz was built from, letter for letter.
pub uninterp spec fn is_timezone_name(name: Seq<char>) -> bool;

/// What the error says by which chrono-tz refuses a name.
pub open spec fn unknown_timezone_text() -> Seq<char> {
    "failed to parse timezone"@
}

/// chrono-tz's `FromStr` for `Tz`: looks the name up among the time zones
/// that chrono-tz knows. The zone found is dropped; of the error its text is
/// kept, which is the same for every name that is refused.
#[verifier::external_body]
fn lookup_timezone(name: &str) -> (found: Result<(), String>)
    ensures
        found is Ok <==> is_timezone_name(name@),
        found matches Err(why) ==> why@ == unknown_timezone_text(),
{
    match name.parse::<Tz>() {
        Ok(_) => Ok(()),
        Err(error) => Err(error.to_string()),
    }
}

/// The name of a time zone that chrono-tz knows, such as `Europe/Vienna`.
#[derive(Debug)]
pub struct TimezoneId {
    name: String,
}

impl TimezoneId {
    #[verifier::type_invariant]
    spec fn known(self) -> bool {
        is_timezone_name(self.name@)
    }

    /// The name of the zone.
    pub closed spec fn name_text(self) -> Seq<char> {
        self.name@
    }

    /// Takes `name` for a time zone if chrono-tz knows one of that name, and
    /// gives the text of chrono-tz's error if not.
    pub fn parse(name: &str) -> (zone: Result<TimezoneId, String>)
        ensures
            zone is Ok <==> is_timezone_name(name@),
            zone matches Ok(id) ==> id.name_text() == name@,
            zone matches Err(why) ==> why@ == unknown_timezone_text(),
    {
        match lookup_timezone(name) {
            Ok(()) => Ok(TimezoneId { name: name.to_owned() }),
            Err(why) => Err(why),
        }
    }

    /// The name of the zone.
    pub fn name(&self) -> (name: &str)
        ensures
            name@ == self.name_text(),
            is_timezone_name(name@),
    {
        proof {
            use_type_invariant(self);
        }
        self.name.as_str()
    }
}

impl Clone for TimezoneId {
    fn clone(&self) -> (copy: Self)
        ensures
            copy == *self,
    {
        proof {
            use_type_invariant(self);
        }
        TimezoneId { name: self.name.clone() }
    }
}

impl Describe for TimezoneId {
    open spec fn text(&self) -> Seq<char> {
        self.name_text()
    }

    fn to_string(&self) -> (text: String) {
        self.name.clone()
    }
}

} // verus!
