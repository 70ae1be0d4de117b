// SPDX-License-Identifier: AGPL-3.0-only

use std::time::Instant;

use chrono::{Timelike, Utc};

use simple_statusbar::data::battery::BatteryStatus;
use simple_statusbar::data::source::{battery_change, property_news, timezone_change, PropertyNews};
use simple_statusbar::data::timezone::TimezoneId;
use simple_statusbar::data::{Describe, MaybeData, StatusbarChangeCause, StatusbarData};
use simple_statusbar::swaybar::{
    body_begin, header, print_status_line, run_statusbar_updater, start_statusbar_updater,
    status_line, UpdaterStep, EVENT_CHANNEL_CAPACITY, MAX_BATCH,
};
use simple_statusbar::time::display::{DateTimeData, ShortenedDTD, ZonedTime};

fn zone(name: &str) -> TimezoneId {
    TimezoneId::parse(name).unwrap()
}

fn known<T>(value: T) -> MaybeData<T> {
    MaybeData(Ok(Some((Instant::now(), value))))
}

fn frame(battery: &str, time: &str, short_time: &str) -> String {
    format!(
        "  [\n    {{\n      \"full_text\": \"{}\",\n      \"min_width\": \"000%\"\n    }},\n    {{\n      \"full_text\": \"{}\",\n      \"short_text\": \"{}\",\n      \"min_width\": \"00:00\"\n    }}\n  ],\n",
        battery, time, short_time
    )
}

#[test]
fn battery_is_shown_in_three_places_and_a_percent_sign() {
    assert_eq!(BatteryStatus::from(0).to_string(), "  0%");
    assert_eq!(BatteryStatus::from(5).to_string(), "  5%");
    assert_eq!(BatteryStatus::from(9).to_string(), "  9%");
    assert_eq!(BatteryStatus::from(10).to_string(), " 10%");
    assert_eq!(BatteryStatus::from(82).to_string(), " 82%");
    assert_eq!(BatteryStatus::from(99).to_string(), " 99%");
    assert_eq!(BatteryStatus::from(100).to_string(), "100%");
    assert_eq!(BatteryStatus::from(255).to_string(), "255%");
    assert_eq!(BatteryStatus { percentage: 47 }.to_string(), " 47%");
    assert_eq!(BatteryStatus::from(47), BatteryStatus { percentage: 47 });
    for p in 0..=255u8 {
        assert_eq!(BatteryStatus::from(p).to_string(), format!("{:3}%", p));
    }
}

#[test]
fn a_field_shows_its_value_or_none_or_its_error() {
    assert_eq!(known(BatteryStatus::from(82)).to_string(), " 82%");
    assert_eq!(MaybeData::<BatteryStatus>(Ok(None)).to_string(), "None");
    assert_eq!(MaybeData::<BatteryStatus>(Err("no battery".to_string())).to_string(), "no battery");
    assert_eq!(known(zone("Europe/Vienna")).to_string(), "Europe/Vienna");
    assert_eq!(MaybeData::<TimezoneId>(Ok(None)).to_string(), "None");
}

#[test]
fn time_zones_are_known_by_name() {
    assert_eq!(zone("UTC").name(), "UTC");
    assert_eq!(zone("Europe/Vienna").name(), "Europe/Vienna");
    assert_eq!(zone("America/Kentucky/Monticello").to_string(), "America/Kentucky/Monticello");
    assert_eq!(zone("UTC").clone().name(), "UTC");
    assert_eq!(TimezoneId::parse("Nowhere/Land").unwrap_err(), "failed to parse timezone");
    assert_eq!(TimezoneId::parse("").unwrap_err(), "failed to parse timezone");
    assert_eq!(TimezoneId::parse("utc").unwrap_err(), "failed to parse timezone");
}

#[test]
fn the_time_is_written_in_its_zone() {
    let utc = DateTimeData(Ok(Some(ZonedTime { utc_seconds: 0, zone: zone("UTC") })));
    assert_eq!(utc.to_string(), "1970-01-01 00:00");
    assert_eq!(ShortenedDTD(utc).to_string(), "00:00");
    let vienna =
        DateTimeData(Ok(Some(ZonedTime { utc_seconds: 1_720_000_000, zone: zone("Europe/Vienna") })));
    assert_eq!(vienna.to_string(), "2024-07-03 11:46");
    assert_eq!(ShortenedDTD(vienna).to_string(), "11:46");
    let new_york = DateTimeData(Ok(Some(ZonedTime {
        utc_seconds: 1_704_067_199,
        zone: zone("America/New_York"),
    })));
    assert_eq!(new_york.to_string(), "2023-12-31 18:59");
    assert_eq!(ShortenedDTD(new_york).to_string(), "18:59");
}

#[test]
fn no_time_and_failed_time() {
    assert_eq!(DateTimeData(Ok(None)).to_string(), "none");
    assert_eq!(ShortenedDTD(DateTimeData(Ok(None))).to_string(), "none");
    assert_eq!(DateTimeData(Err("bus is gone".to_string())).to_string(), "bus is gone");
    assert_eq!(ShortenedDTD(DateTimeData(Err("bus is gone".to_string()))).to_string(), "none");
    let far = DateTimeData(Ok(Some(ZonedTime { utc_seconds: i64::MAX, zone: zone("UTC") })));
    assert_eq!(far.to_string(), "time out of range");
    assert_eq!(ShortenedDTD(far).to_string(), "none");
}

#[test]
fn texts_are_put_together_from_what_was_written() {
    let some = DateTimeData(Ok(Some(ZonedTime { utc_seconds: 0, zone: zone("UTC") })));
    assert_eq!(some.full_text(Some("written".to_string())), "written");
    assert_eq!(some.full_text(None), "time out of range");
    assert_eq!(some.short_text(Some("12:34".to_string())), "12:34");
    assert_eq!(some.short_text(None), "none");
    let nothing = DateTimeData(Ok(None));
    assert_eq!(nothing.full_text(Some("written".to_string())), "none");
    assert_eq!(nothing.short_text(Some("12:34".to_string())), "none");
    let failed = DateTimeData(Err("oops".to_string()));
    assert_eq!(failed.full_text(Some("written".to_string())), "oops");
    assert_eq!(failed.short_text(Some("12:34".to_string())), "none");
}

#[test]
fn new_data_know_nothing() {
    let data = StatusbarData::new();
    assert!(matches!(data.battery().0, Ok(None)));
    assert!(matches!(data.timezone().0, Ok(None)));
    assert!(matches!(data.time(0).0, Ok(None)));
    assert_eq!(data.to_string(0), "None | none");
}

#[test]
fn updates_replace_their_own_field_only() {
    let mut data = StatusbarData::new();
    data.update_battery(BatteryStatus::from(82));
    assert!(matches!(&data.battery().0, Ok(Some((_, b))) if b.percentage == 82));
    assert!(matches!(data.timezone().0, Ok(None)));
    data.update_timezone(zone("UTC"));
    assert!(matches!(&data.timezone().0, Ok(Some((_, z))) if z.name() == "UTC"));
    assert!(matches!(&data.battery().0, Ok(Some((_, b))) if b.percentage == 82));
    assert_eq!(data.to_string(86_400 + 3_600 + 120), " 82% | 1970-01-02 01:02");

    data.update_battery_result(Err("battery fell out".to_string()));
    assert!(matches!(&data.battery().0, Err(e) if e == "battery fell out"));
    data.update_battery_result(Ok(BatteryStatus::from(7)));
    assert!(matches!(&data.battery().0, Ok(Some((_, b))) if b.percentage == 7));
    data.update_timezone_result(Err("no such service".to_string()));
    assert!(matches!(&data.timezone().0, Err(e) if e == "no such service"));
    assert!(matches!(&data.time(0).0, Err(e) if e == "no such service"));
    assert_eq!(data.to_string(0), "  7% | no such service");
    data.update_timezone_result(Ok(zone("Asia/Tokyo")));
    assert!(matches!(&data.time(5).0, Ok(Some(t)) if t.utc_seconds == 5 && t.zone.name() == "Asia/Tokyo"));

    data.update_battery_maybedata(MaybeData(Ok(None)));
    assert!(matches!(data.battery().0, Ok(None)));
    data.update_timezone_maybedata(MaybeData(Ok(None)));
    assert!(matches!(data.timezone().0, Ok(None)));
}

#[test]
fn stamps_are_taken_when_a_value_is_handed_in() {
    let before = Instant::now();
    let mut data = StatusbarData::new();
    data.update_battery(BatteryStatus::from(1));
    data.update_timezone(zone("UTC"));
    let after = Instant::now();
    match (&data.battery().0, &data.timezone().0) {
        (Ok(Some((b, _))), Ok(Some((z, _)))) => {
            assert!(before <= *b && *b <= *z && *z <= after);
        }
        _ => panic!("the values were not kept"),
    }
}

#[test]
fn the_last_write_wins() {
    let mut data = StatusbarData::new();
    data.apply_all(vec![
        StatusbarChangeCause::BatteryChange(known(BatteryStatus::from(10))),
        StatusbarChangeCause::NextMinute,
        StatusbarChangeCause::TzChange(known(zone("Europe/Vienna"))),
        StatusbarChangeCause::BatteryChange(MaybeData(Err("glitch".to_string()))),
        StatusbarChangeCause::ClockAdjust,
        StatusbarChangeCause::BatteryChange(known(BatteryStatus::from(55))),
        StatusbarChangeCause::TzChange(known(zone("UTC"))),
        StatusbarChangeCause::NextMinute,
        StatusbarChangeCause::ClockAdjust,
    ]);
    assert_eq!(data.battery().to_string(), " 55%");
    assert_eq!(data.timezone().to_string(), "UTC");
    assert_eq!(print_status_line(&data, 60), frame(" 55%", "1970-01-01 00:01", "00:01"));

    data.apply_all(vec![StatusbarChangeCause::NextMinute, StatusbarChangeCause::ClockAdjust]);
    assert_eq!(data.battery().to_string(), " 55%");
    assert_eq!(data.timezone().to_string(), "UTC");

    data.apply_all(vec![]);
    assert_eq!(data.battery().to_string(), " 55%");

    data.apply(StatusbarChangeCause::BatteryChange(known(BatteryStatus::from(54))));
    data.apply(StatusbarChangeCause::NextMinute);
    assert_eq!(data.battery().to_string(), " 54%");
    data.apply(StatusbarChangeCause::TzChange(MaybeData(Err("lost".to_string()))));
    data.apply(StatusbarChangeCause::ClockAdjust);
    assert_eq!(data.timezone().to_string(), "lost");
    assert_eq!(data.battery().to_string(), " 54%");
}

#[test]
fn the_protocol_opens_with_header_and_array() {
    assert_eq!(header(), "{ \"version\": 1 }\n");
    assert_eq!(body_begin(), "[\n");
    assert_eq!(EVENT_CHANNEL_CAPACITY, 32);
    assert_eq!(MAX_BATCH, 128);
}

#[test]
fn a_frame_is_two_blocks_and_a_comma() {
    let line = status_line(" 82%", "2024-07-03 11:46", "11:46");
    assert_eq!(line, frame(" 82%", "2024-07-03 11:46", "11:46"));
    assert!(line.ends_with("],\n"));
    assert_eq!(
        line,
        "  [\n    {\n      \"full_text\": \" 82%\",\n      \"min_width\": \"000%\"\n    },\n    {\n      \"full_text\": \"2024-07-03 11:46\",\n      \"short_text\": \"11:46\",\n      \"min_width\": \"00:00\"\n    }\n  ],\n"
    );
}

#[test]
fn texts_in_a_frame_are_escaped() {
    let line = status_line("say \"no\"", "back\\slash", "bell\x07");
    assert_eq!(line, frame("say \\\"no\\\"", "back\\\\slash", "bell\\u0007"));
}

#[test]
fn a_failed_field_shows_its_error_in_the_frame() {
    let mut data = StatusbarData::new();
    data.update_battery_result(Err("org.freedesktop.DBus.Error: \"gone\"".to_string()));
    data.update_timezone(zone("UTC"));
    assert_eq!(
        print_status_line(&data, 0),
        frame("org.freedesktop.DBus.Error: \\\"gone\\\"", "1970-01-01 00:00", "00:00")
    );
    let mut data = StatusbarData::new();
    data.update_battery(BatteryStatus::from(3));
    data.update_timezone_result(Err("no zone".to_string()));
    assert_eq!(print_status_line(&data, 0), frame("  3%", "no zone", "none"));
}

#[test]
fn the_updater_begins_with_everything_unknown() {
    let (data, text) = start_statusbar_updater(0);
    assert!(matches!(data.battery().0, Ok(None)));
    assert!(matches!(data.timezone().0, Ok(None)));
    assert_eq!(text, format!("{{ \"version\": 1 }}\n[\n{}", frame("None", "none", "none")));
}

#[test]
fn the_updater_draws_once_the_channel_is_empty() {
    let (mut data, _) = start_statusbar_updater(0);
    let step = run_statusbar_updater(
        &mut data,
        vec![StatusbarChangeCause::BatteryChange(known(BatteryStatus::from(82)))],
        false,
        0,
    );
    assert!(matches!(step, UpdaterStep::KeepDraining));
    assert_eq!(data.battery().to_string(), " 82%");
    let step = run_statusbar_updater(
        &mut data,
        vec![
            StatusbarChangeCause::TzChange(known(zone("UTC"))),
            StatusbarChangeCause::BatteryChange(known(BatteryStatus::from(81))),
        ],
        true,
        120,
    );
    match step {
        UpdaterStep::Render(line) => assert_eq!(line, frame(" 81%", "1970-01-01 00:02", "00:02")),
        other => panic!("expected a frame, got {:?}", other),
    }
    let step = run_statusbar_updater(&mut data, vec![StatusbarChangeCause::NextMinute], true, 180);
    match step {
        UpdaterStep::Render(line) => assert_eq!(line, frame(" 81%", "1970-01-01 00:03", "00:03")),
        other => panic!("expected a frame, got {:?}", other),
    }
}

#[test]
fn the_updater_stops_when_every_sender_is_gone() {
    let (mut data, _) = start_statusbar_updater(0);
    data.update_battery(BatteryStatus::from(9));
    assert!(matches!(run_statusbar_updater(&mut data, vec![], true, 0), UpdaterStep::Stop));
    assert!(matches!(run_statusbar_updater(&mut data, vec![], false, 0), UpdaterStep::Stop));
    assert_eq!(data.battery().to_string(), "  9%");
}

#[test]
fn first_frame_shows_battery_and_utc_time() {
    let reported: f64 = 82.4;
    let at_start = Utc::now();
    let now = at_start.timestamp();
    let (mut data, _) = start_statusbar_updater(now);
    let step = run_statusbar_updater(
        &mut data,
        vec![
            battery_change(Ok(BatteryStatus::from(reported.round_ties_even() as u8)), Instant::now()),
            timezone_change(Ok("UTC".to_string()), Instant::now()),
        ],
        true,
        now,
    );
    let expected_time = at_start.with_second(0).unwrap().with_nanosecond(0).unwrap();
    match step {
        UpdaterStep::Render(line) => assert_eq!(
            line,
            frame(
                &format!("{:3.0}%", reported),
                &expected_time.format("%Y-%m-%d %H:%M").to_string(),
                &expected_time.format("%H:%M").to_string()
            )
        ),
        other => panic!("expected a frame, got {:?}", other),
    }
    assert_eq!(data.battery().to_string(), " 82%");
}

#[test]
fn readings_become_causes_of_change() {
    let at = Instant::now();
    match battery_change(Ok(BatteryStatus::from(40)), at) {
        StatusbarChangeCause::BatteryChange(MaybeData(Ok(Some((stamp, status))))) => {
            assert_eq!(stamp, at);
            assert_eq!(status.percentage, 40);
        }
        other => panic!("unexpected {:?}", other),
    }
    match battery_change(Err("timeout".to_string()), at) {
        StatusbarChangeCause::BatteryChange(MaybeData(Err(error))) => assert_eq!(error, "timeout"),
        other => panic!("unexpected {:?}", other),
    }
    match timezone_change(Ok("Europe/Vienna".to_string()), at) {
        StatusbarChangeCause::TzChange(MaybeData(Ok(Some((stamp, zone))))) => {
            assert_eq!(stamp, at);
            assert_eq!(zone.name(), "Europe/Vienna");
        }
        other => panic!("unexpected {:?}", other),
    }
    match timezone_change(Ok("Not/AZone".to_string()), at) {
        StatusbarChangeCause::TzChange(MaybeData(Err(error))) => {
            assert_eq!(error, "failed to parse timezone")
        }
        other => panic!("unexpected {:?}", other),
    }
    match timezone_change(Err("timeout".to_string()), at) {
        StatusbarChangeCause::TzChange(MaybeData(Err(error))) => assert_eq!(error, "timeout"),
        other => panic!("unexpected {:?}", other),
    }
}

#[test]
fn an_error_of_one_source_leaves_the_other_alone() {
    let mut data = StatusbarData::new();
    data.apply(timezone_change(Ok("UTC".to_string()), Instant::now()));
    data.apply(battery_change(Err("no battery".to_string()), Instant::now()));
    assert_eq!(print_status_line(&data, 0), frame("no battery", "1970-01-01 00:00", "00:00"));
    data.apply(timezone_change(Ok("Mars/Olympus".to_string()), Instant::now()));
    data.apply(battery_change(Ok(BatteryStatus::from(100)), Instant::now()));
    assert_eq!(print_status_line(&data, 0), frame("100%", "failed to parse timezone", "none"));
}

#[test]
fn signals_are_read_for_the_watched_property() {
    assert_eq!(property_news(true, Some(5), false), PropertyNews::Changed(5));
    assert_eq!(property_news(true, Some(5), true), PropertyNews::Changed(5));
    assert_eq!(property_news::<u8>(true, None, true), PropertyNews::Invalidated);
    assert_eq!(property_news::<u8>(true, None, false), PropertyNews::Unrelated);
    assert_eq!(property_news(false, Some(5), false), PropertyNews::Unrelated);
    assert_eq!(property_news(false, Some(5), true), PropertyNews::Unrelated);
    assert_eq!(property_news::<u8>(false, None, true), PropertyNews::Unrelated);
    assert_eq!(property_news::<u8>(false, None, false), PropertyNews::Unrelated);
}
