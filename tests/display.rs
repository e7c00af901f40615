use onyx::display::{format_duration, signed_decimal_text, time_text, DisplayTimes};
use onyx::record::{Artist, PlayView, Status, Timestamp};

fn status(item: PlayView) -> Status {
    Status { time: Timestamp::new(1000, 0).unwrap(), expiry: Timestamp::new(2000, 0), item }
}

#[test]
fn durations_are_shown_as_clock_parts() {
    assert_eq!(format_duration(0), "");
    assert_eq!(format_duration(-5), "");
    assert_eq!(format_duration(7), "07");
    assert_eq!(format_duration(65), "01:05");
    assert_eq!(format_duration(3661), "01:01:01");
    assert_eq!(format_duration(36000), "10:00:00");
    assert_eq!(signed_decimal_text(-42), "-42");
    assert_eq!(signed_decimal_text(i64::MIN), "-9223372036854775808");
}

#[test]
fn raw_times_carry_their_offset() {
    let t = Timestamp::new(0, 3600).unwrap();
    assert_eq!(time_text(t, true), "1970-01-01 01:00:00 +01:00");
    let u = Timestamp::new(86400 * 365, 0).unwrap();
    assert_eq!(time_text(u, true), "1971-01-01 00:00:00 +00:00");
}

#[test]
fn an_empty_item_shows_nothing_playing() {
    let s = status(PlayView::named(String::new()));
    let now = Timestamp::new(1500, 0).unwrap();
    let times = s.display_times(true);
    assert_eq!(s.display(false, false, now, &times), vec!["nothing playing right now".to_string()]);
    let raw = s.display(true, false, now, &times);
    assert_eq!(raw, vec!["track: ".to_string(), "artists: ".to_string()]);
}

#[test]
fn a_lapsed_status_shows_nothing_playing() {
    let s = status(PlayView::named("Song".to_string()));
    let later = Timestamp::new(2500, 0).unwrap();
    let times = s.display_times(true);
    assert_eq!(s.display(false, true, later, &times), vec!["nothing playing right now".to_string()]);
}

#[test]
fn fields_are_shown_in_order() {
    let mut item = PlayView::named("Song".to_string());
    item.artists = vec![
        Artist { artist_name: "A".to_string(), artist_mb_id: Some("id-a".to_string()) },
        Artist { artist_name: "B".to_string(), artist_mb_id: None },
    ];
    item.release_name = Some("Album".to_string());
    item.isrc = Some("US123".to_string());
    item.duration = Some(125);
    let s = status(item);
    let now = Timestamp::new(1500, 0).unwrap();
    let times = DisplayTimes { played: None, time: "T".to_string(), expiry: Some("E".to_string()) };
    let short = s.display(false, false, now, &times);
    assert_eq!(
        short,
        vec![
            "track: Song".to_string(),
            "artists: A, B".to_string(),
            "release: Album".to_string(),
            "duration: 02:05".to_string(),
        ]
    );
    let full = s.display(true, true, now, &times);
    assert_eq!(
        full,
        vec![
            "track: Song".to_string(),
            "artists: A [id-a], B".to_string(),
            "release: Album".to_string(),
            "isrc: US123".to_string(),
            "duration: 125".to_string(),
            "time: T".to_string(),
            "expiry: E".to_string(),
        ]
    );
}

#[test]
fn the_manager_leaves_out_record_times() {
    let s = status(PlayView::named("Song".to_string()));
    let now = Timestamp::new(1500, 0).unwrap();
    let times = DisplayTimes { played: None, time: "T".to_string(), expiry: Some("E".to_string()) };
    let manager = onyx::status::StatusManager::new("did:plc:q");
    assert_eq!(manager.display_status(&s, false, true, now, &times), vec!["track: Song".to_string()]);
    assert_eq!(s.display(false, true, now, &times).len(), 3);
}

#[test]
fn no_status_record_shows_nothing_playing() {
    let now = Timestamp::new(1500, 0).unwrap();
    let times = DisplayTimes { played: None, time: String::new(), expiry: None };
    let lines = onyx::status::StatusManager::display_found(&None, true, true, now, &times);
    assert_eq!(lines, vec!["nothing playing right now".to_string()]);
    let s = status(PlayView::named("Song".to_string()));
    let found = Some(s);
    let lines = onyx::status::StatusManager::display_found(&found, false, false, now, &times);
    assert_eq!(lines, vec!["track: Song".to_string()]);
}

#[test]
fn unrepresentable_raw_times_show_their_seconds() {
    let t = Timestamp { secs: i64::MAX, offset: 0 };
    assert_eq!(time_text(t, true), "9223372036854775807");
    let bad_offset = Timestamp { secs: 0, offset: 90000 };
    assert_eq!(time_text(bad_offset, true), "0");
    let s = status(PlayView::named("Song".to_string()));
    assert_eq!(s.display_times(true).time, "1970-01-01 00:16:40 +00:00");
}

#[test]
fn the_last_representable_second_is_in_year_262142() {
    let last = Timestamp { secs: 8210266876799, offset: 0 };
    assert_ne!(time_text(last, true), "8210266876799");
    assert!(time_text(last, true).contains("262142-12-31 23:59:59"));
    let beyond = Timestamp { secs: 8210266876800, offset: 0 };
    assert_eq!(time_text(beyond, true), "8210266876800");
    assert_eq!(time_text(beyond, false), "8210266876800");
}
