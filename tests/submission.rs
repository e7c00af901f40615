use onyx::record::{parse_artist_list, Artist, Play, PlayView, Status, Timestamp};
use onyx::scrobble::{generate_client_version, Scrobbler, Submission};
use onyx::status::{get_status_endpoint, StatusManager};
use onyx::error::OnyxError;

fn play(name: &str) -> Play {
    Play {
        track_name: name.to_string(),
        track_mb_id: None,
        recording_mb_id: None,
        duration: Some(180),
        artist_names: None,
        artist_mb_ids: None,
        artists: Some(vec![Artist { artist_name: "X".to_string(), artist_mb_id: None }]),
        release_name: None,
        release_mb_id: None,
        isrc: None,
        origin_url: None,
        music_service_base_domain: None,
        submission_client_agent: None,
        played_time: Timestamp::new(1000, 0),
        track_discriminant: None,
        release_discriminant: None,
    }
}

#[test]
fn test_parse_artists() {
    let artist_names = "Test 1 , Test 2 , Test 3, Test 4, ";
    let artist_mb_ids = "ABCD, 1234, DCBA";

    match parse_artist_list(
        Some(artist_names.to_string()),
        Some(artist_mb_ids.to_string()),
    ) {
        Ok(l) => {
            let artists = l.unwrap();

            assert!(artists.len() == 4);

            assert!(artists[0].artist_name == "Test 1");
            assert!(artists[0].artist_mb_id.as_ref().unwrap() == "ABCD");
            assert!(artists[1].artist_name == "Test 2");
            assert!(artists[1].artist_mb_id.as_ref().unwrap() == "1234");
            assert!(artists[2].artist_name == "Test 3");
            assert!(artists[2].artist_mb_id.as_ref().unwrap() == "DCBA");
            assert!(artists[3].artist_name == "Test 4");
            assert!(artists[3].artist_mb_id.is_none());
        }
        Err(e) => {
            panic!("parse_artist_list: {:?}", e);
        }
    }
}

#[test]
fn more_ids_than_names_is_an_error() {
    let r = parse_artist_list(Some("A, ,B".to_string()), Some("1,2,3".to_string()));
    assert!(matches!(r, Err(OnyxError::Parse(_))));
    assert!(matches!(parse_artist_list(None, Some("1".to_string())), Ok(None)));
    let r = parse_artist_list(Some("A,B".to_string()), Some(",7".to_string())).unwrap().unwrap();
    assert_eq!(r[0].artist_mb_id, None);
    assert_eq!(r[1].artist_mb_id, Some("7".to_string()));
}

#[test]
fn plays_are_stamped_with_the_client() {
    let s = Scrobbler::new("onyx", "v0.1.0");
    assert_eq!(s.generate_client_agent(None), "onyx/v0.1.0");
    assert_eq!(s.generate_client_agent(Some("Rockbox".to_string())), "onyx/v0.1.0 (Rockbox)");
    let mut p = play("Song");
    p.submission_client_agent = Some("Rockbox".to_string());
    let stamped = s.generate_play(p);
    assert_eq!(stamped.submission_client_agent, Some("onyx/v0.1.0 (Rockbox)".to_string()));
    assert_eq!(stamped.music_service_base_domain, Some("local".to_string()));
    assert_eq!(stamped.track_name, "Song");
    let mut q = play("Other");
    q.music_service_base_domain = Some("example.com".to_string());
    assert_eq!(s.generate_play(q).music_service_base_domain, Some("example.com".to_string()));
    assert_eq!(generate_client_version("1.2.3"), "v1.2.3");
}

#[test]
fn a_failed_track_reports_its_name() {
    let r = Scrobbler::track_result("Song", Err("timeout".to_string()));
    match r {
        Err(OnyxError::Other(m)) => assert_eq!(m, "timeout, for 'Song'"),
        other => panic!("unexpected {:?}", other),
    }
    assert!(Scrobbler::track_result("Song", Ok(())).is_ok());
}

#[test]
fn one_failure_in_a_batch_fails_it_but_the_rest_are_attempted() {
    let tracks = vec![play("a"), play("b"), play("c"), play("d")];
    let mut batch = Submission::new(&tracks);
    assert_eq!(batch.total(), 4);
    batch.record_result(Ok(()));
    batch.record_result(Err("rejected".to_string()));
    assert!(!batch.is_complete());
    batch.record_result(Ok(()));
    batch.record_result(Ok(()));
    assert!(batch.is_complete());
    assert_eq!(batch.submitted(), 3);
    assert_eq!(batch.failed(), 1);
    assert_eq!(batch.failure_messages(), vec!["rejected, for 'b'".to_string()]);
    assert!(matches!(batch.finish(), Err(OnyxError::Other(_))));
    // a result after the last record changes nothing
    batch.record_result(Err("late".to_string()));
    assert_eq!(batch.failed(), 1);
}

#[test]
fn a_clean_batch_succeeds_with_its_count() {
    let tracks = vec![play("a"), play("b")];
    let mut batch = Submission::new(&tracks);
    batch.record_result(Ok(()));
    batch.record_result(Ok(()));
    assert_eq!(batch.finish().unwrap(), 2);
    let empty = Submission::new(&Vec::new());
    assert!(empty.is_complete());
    assert_eq!(empty.finish().unwrap(), 0);
}

#[test]
fn cleared_status_shows_nothing_playing() {
    let now = Timestamp::new(1_700_000_000, 3600).unwrap();
    let s = StatusManager::clear_status(now);
    assert_eq!(s.item.track_name, "");
    assert!(s.item.artists.is_empty());
    assert_eq!(s.time, now);
    assert_eq!(s.expiry.unwrap().secs, 1_700_000_000 - 60);
    assert!(s.nothing_playing(false, now));
    assert!(!s.nothing_playing(true, now));
}

#[test]
fn a_set_status_defaults_to_ten_minutes() {
    let now = Timestamp::new(5000, 0).unwrap();
    let s = StatusManager::new_status(PlayView::named("Song".to_string()), None, None, now).unwrap();
    assert_eq!(s.time, now);
    assert_eq!(s.expiry.unwrap().secs, 5600);
    assert!(!s.nothing_playing(false, now));
    let later = Timestamp::new(6000, 0).unwrap();
    assert!(s.nothing_playing(false, later));
    let edge = Timestamp::new(i64::MAX - 10, 0).unwrap();
    let r = StatusManager::new_status(PlayView::named("x".to_string()), Some(edge), None, now);
    assert!(matches!(r, Err(OnyxError::Parse(_))));
    let st: Status = StatusManager::new_status(PlayView::named("x".to_string()), Some(edge), Some(edge), now).unwrap();
    assert_eq!(st.expiry, Some(edge));
}

#[test]
fn status_endpoint_is_under_the_account() {
    assert_eq!(get_status_endpoint("did:plc:z".to_string()), "at://did:plc:z/fm.teal.alpha.actor.status/self");
    assert_eq!(StatusManager::new("z.example").ident, "z.example");
}

#[test]
fn timestamps_keep_offsets_within_a_day() {
    assert!(Timestamp::new(0, 86400).is_none());
    assert!(Timestamp::new(0, -86399).is_some());
}

#[test]
fn failure_messages_follow_record_order() {
    let tracks = vec![play("a"), play("b"), play("c")];
    let mut batch = Submission::new(&tracks);
    batch.record_result(Err("e1".to_string()));
    batch.record_result(Ok(()));
    batch.record_result(Err("e3".to_string()));
    assert_eq!(batch.failure_messages(), vec!["e1, for 'a'".to_string(), "e3, for 'c'".to_string()]);
    assert_eq!(batch.submitted(), 1);
}
