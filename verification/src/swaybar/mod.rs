// SPDX-License-Identifier: AGPL-3.0-only

//! The output side: the protocol of the bar's host, the frames sent to it,
//! and the decisions of the task that sends them.
//!
//! The host reads a header, then an endless JSON array of which every element
//! is one frame of the status line: itself an array of blocks, written with a
//! comma behind it and never closed.

pub mod json;
pub mod unescape;

use crate::data::battery::BatteryStatus;
use crate::data::timezone::TimezoneId;
use crate::data::{
    battery_after_all, last_battery_change, last_timezone_change, lemma_last_write_wins, time_in,
    timezone_after_all, Describe, MaybeData, StatusbarChangeCause, StatusbarData,
};
use crate::time::display::ShortenedDTD;
use json::{escaped, EscapeJSONString, EscapePolicy};
use vstd::prelude::*;
use vstd::string::StringExecFns;

verus! {

/// How many causes of change the channel to the sending task holds before a
/// sender has to wait.
pub const EVENT_CHANNEL_CAPACITY: usize = 32;

/// How many causes of change the sending task takes from the channel at one
/// go.
pub const MAX_BATCH: usize = 128;

/// The header that opens the stream: the version of the protocol.
pub open spec fn header_text() -> Seq<char> {
    "{ \"version\": 1 }\n"@
}

/// The opening of the endless array of frames.
pub open spec fn body_begin_text() -> Seq<char> {
    "[\n"@
}

/// What `s` is inside a JSON string under minimal escaping.
pub open spec fn json_text(s: Seq<char>) -> Seq<char> {
    escaped(s, EscapePolicy::MinimalEscaping())
}

/// One frame: an array of two blocks with a comma and a line feed behind it.
/// The first block shows the battery and is at least as wide as `000%`; the
/// second shows the time, has a short form for narrow bars, and is at least
/// as wide as `00:00`. Each text stands escaped in its string.
pub open spec fn status_line_text(battery: Seq<char>, time: Seq<char>, short_time: Seq<char>)
    -> Seq<char> {
    "  [\n    {\n      \"full_text\": \""@ + json_text(battery)
        + "\",\n      \"min_width\": \""@ + json_text("000%"@)
        + "\"\n    },\n    {\n      \"full_text\": \""@ + json_text(time)
        + "\",\n      \"short_text\": \""@ + json_text(short_time)
        + "\",\n      \"min_width\": \""@ + json_text("00:00"@) + "\"\n    }\n  ],\n"@
}

/// The frame that shows the two fields at the moment `utc_seconds`.
pub open spec fn frame_text(
    battery: MaybeData<BatteryStatus>,
    timezone: MaybeData<TimezoneId>,
    utc_seconds: i64,
) -> Seq<char> {
    status_line_text(
        battery.text(),
        time_in(timezone, utc_seconds).text(),
        ShortenedDTD(time_in(timezone, utc_seconds)).text(),
    )
}

/// The header that opens the stream.
pub fn header() -> (text: String)
    ensures
        text@ == header_text(),
{
    "{ \"version\": 1 }\n".to_owned()
}

/// The opening of the endless array of frames.
pub fn body_begin() -> (text: String)
    ensures
        text@ == body_begin_text(),
{
    "[\n".to_owned()
}

/// Appends `text` to `line` as it stands inside a JSON string.
fn append_escaped(line: &mut String, text: &str)
    ensures
        final(line)@ == old(line)@ + json_text(text@),
{
    let mut escaper = EscapeJSONString::new_from_str(text, EscapePolicy::MinimalEscaping());
    let ghost start = line@;
    let ghost whole = escaper@;
    loop
        invariant
            line@ + escaper@ == start + whole,
        ensures
            line@ == start + whole,
        decreases escaper@.len(),
    {
        match escaper.next_char() {
            Some(c) => {
                let ghost before = line@;
                line.push(c);
                assert(before.push(c) + escaper@ =~= before + (seq![c] + escaper@));
            },
            None => {
                assert(line@ + escaper@ =~= line@);
                break ;
            },
        }
    }
}

/// One frame for the three texts given.
pub fn status_line(battery: &str, time: &str, short_time: &str) -> (line: String)
    ensures
        line@ == status_line_text(battery@, time@, short_time@),
{
    let mut line = "  [\n    {\n      \"full_text\": \"".to_owned();
    append_escaped(&mut line, battery);
    line.append("\",\n      \"min_width\": \"");
    append_escaped(&mut line, "000%");
    line.append("\"\n    },\n    {\n      \"full_text\": \"");
    append_escaped(&mut line, time);
    line.append("\",\n      \"short_text\": \"");
    append_escaped(&mut line, short_time);
    line.append("\",\n      \"min_width\": \"");
    append_escaped(&mut line, "00:00");
    line.append("\"\n    }\n  ],\n");
    line
}

/// The frame that shows `data` at the moment `utc_seconds`, in whole seconds
/// since the start of 1970 in UTC.
pub fn print_status_line(data: &StatusbarData, utc_seconds: i64) -> (line: String)
    ensures
        line@ == frame_text(data.battery_field(), data.timezone_field(), utc_seconds),
{
    let battery = data.battery().to_string();
    let time = data.time(utc_seconds).to_string();
    let short_time = ShortenedDTD(data.time(utc_seconds)).to_string();
    status_line(battery.as_str(), time.as_str(), short_time.as_str())
}

/// What the sending task does next.
#[derive(Debug)]
pub enum UpdaterStep {
    /// Write this text to the host and flush, then wait for causes of change
    /// and take up to `MAX_BATCH` of them.
    Render(String),
    /// More causes are waiting already: take up to `MAX_BATCH` of them
    /// before anything is drawn.
    KeepDraining,
    /// Every sender is gone: end.
    Stop,
}

/// How the sending task begins: with data of which nothing is known, and with
/// the header, the opening of the array and a first frame to write.
pub fn start_statusbar_updater(utc_seconds: i64) -> (begun: (StatusbarData, String))
    ensures
        begun.0.battery_field() == MaybeData::<BatteryStatus>(Ok(None)),
        begun.0.timezone_field() == MaybeData::<TimezoneId>(Ok(None)),
        begun.1@ == header_text() + body_begin_text() + frame_text(
            begun.0.battery_field(),
            begun.0.timezone_field(),
            utc_seconds,
        ),
{
    let data = StatusbarData::new();
    let mut text = header();
    text.append(body_begin().as_str());
    text.append(print_status_line(&data, utc_seconds).as_str());
    (data, text)
}

/// Takes what one wait on the channel brought: the causes of change, in the
/// order in which they came, and whether the channel was empty after them.
///
/// - A wait that brought nothing means that every sender is gone: the task
///   stops, and the data stay as they are.
/// - Else every cause is applied in order. While more are waiting nothing is
///   drawn; once the channel is empty the data are drawn as they stand at the
///   moment `utc_seconds`.
pub fn run_statusbar_updater(
    data: &mut StatusbarData,
    batch: Vec<StatusbarChangeCause>,
    queue_empty: bool,
    utc_seconds: i64,
) -> (step: UpdaterStep)
    ensures
        final(data).battery_field() == battery_after_all(old(data).battery_field(), batch@),
        final(data).timezone_field() == timezone_after_all(old(data).timezone_field(), batch@),
        batch@.len() == 0 ==> step is Stop,
        batch@.len() > 0 && !queue_empty ==> step is KeepDraining,
        batch@.len() > 0 && queue_empty ==> (step matches UpdaterStep::Render(line) && line@
            == frame_text(final(data).battery_field(), final(data).timezone_field(), utc_seconds)),
{
    if batch.len() == 0 {
        return UpdaterStep::Stop;
    }
    data.apply_all(batch);
    if queue_empty {
        UpdaterStep::Render(print_status_line(data, utc_seconds))
    } else {
        UpdaterStep::KeepDraining
    }
}

/// What is drawn after any run of causes shows, in each field, what the last
/// change of that field brought, however many minutes and steps of the clock
/// came between and after.
pub proof fn lemma_frame_shows_last_writes(
    battery: MaybeData<BatteryStatus>,
    timezone: MaybeData<TimezoneId>,
    causes: Seq<StatusbarChangeCause>,
    utc_seconds: i64,
)
    ensures
        frame_text(
            battery_after_all(battery, causes),
            timezone_after_all(timezone, causes),
            utc_seconds,
        ) == frame_text(
            last_battery_change(battery, causes),
            last_timezone_change(timezone, causes),
            utc_seconds,
        ),
{
    lemma_last_write_wins(battery, timezone, causes);
}

} // verus!
