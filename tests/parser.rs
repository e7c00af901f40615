use onyx::parser::audio_scrobbler::AudioScrobblerParser;
use onyx::parser::{LogHeaderEntry, ScrobbleLog, ScrobbleRating};
use onyx::error::ParserError;

#[test]
fn parser_test_parse_header_version() {
    let header = ScrobbleLog::parse_header("#AUDIOSCROBBLER/1.0");

    if let LogHeaderEntry::Version(v) = header {
        assert_eq!(v, "1.0");
    } else {
        panic!("Expected version header, got {:?}", header);
    }
}

#[test]
fn parser_test_parse_header_time_zone() {
    let header = ScrobbleLog::parse_header("#TZ/UTC");

    if let LogHeaderEntry::TimeZone(tz) = header {
        assert_eq!(tz, "UTC");
    } else {
        panic!("Expected time zone header, got {:?}", header);
    }
}

#[test]
fn parser_test_parse_header_client_id() {
    let header = ScrobbleLog::parse_header("#CLIENT/Test Client");

    if let LogHeaderEntry::ClientId(id) = header {
        assert_eq!(id, "Test Client");
    } else {
        panic!("Expected client ID header, got {:?}", header);
    }
}

#[test]
fn parser_test_parse_header_unknown() {
    let header = ScrobbleLog::parse_header("#SOMETHING ELSE");

    if let LogHeaderEntry::Unknown(s) = header {
        assert_eq!(s, ());
    } else {
        panic!("Expected unknown header, got {:?}", header);
    }
}

#[test]
fn parser_test_parse_entry() {
    let str_log = "#AUDIOSCROBBLER/1.1\nArtist 1\t\tTrack 1\t5\t456\tL\t123456789\tid_0";
    let log = ScrobbleLog::parse(str_log).unwrap();

    assert_eq!(log.version, "1.1");
    assert_eq!(log.timezone, None);
    assert_eq!(log.client_id, None);

    assert_eq!(log.entries.len(), 1);
    assert_eq!(log.entries[0].artist_name, "Artist 1");
    assert_eq!(log.entries[0].album_name, None);
    assert_eq!(log.entries[0].track_name, "Track 1");
    assert_eq!(log.entries[0].track_num, Some(5));
    assert_eq!(log.entries[0].duration, 456);
    assert_eq!(log.entries[0].rating, ScrobbleRating::Listened);
    assert_eq!(log.entries[0].timestamp, 123456789);
    assert_eq!(log.entries[0].mb_track_id, Some("id_0".to_string()));
}

#[test]
fn audio_scrobbler_test_parse_header_version() {
    let header = AudioScrobblerParser::parse_header("#AUDIOSCROBBLER/1.0");

    if let LogHeaderEntry::Version(v) = header {
        assert_eq!(v, "1.0");
    } else {
        panic!("Expected version header, got {:?}", header);
    }
}

#[test]
fn audio_scrobbler_test_parse_header_time_zone() {
    let header = AudioScrobblerParser::parse_header("#TZ/UTC");

    if let LogHeaderEntry::TimeZone(tz) = header {
        assert_eq!(tz, "UTC");
    } else {
        panic!("Expected time zone header, got {:?}", header);
    }
}

#[test]
fn audio_scrobbler_test_parse_header_client_id() {
    let header = AudioScrobblerParser::parse_header("#CLIENT/Test Client");

    if let LogHeaderEntry::ClientId(id) = header {
        assert_eq!(id, "Test Client");
    } else {
        panic!("Expected client ID header, got {:?}", header);
    }
}

#[test]
fn audio_scrobbler_test_parse_header_unknown() {
    let header = AudioScrobblerParser::parse_header("#SOMETHING ELSE");

    if let LogHeaderEntry::Unknown(s) = header {
        assert_eq!(s, ());
    } else {
        panic!("Expected unknown header, got {:?}", header);
    }
}

#[test]
fn audio_scrobbler_test_parse_entry() {
    let str_log = "#AUDIOSCROBBLER/1.1\nArtist 1\t\tTrack 1\t5\t456\tL\t123456789\tid_0";
    let log = AudioScrobblerParser::parse(str_log).unwrap();

    assert_eq!(log.timezone, None);
    assert_eq!(log.client_id, None);

    assert_eq!(log.entries.len(), 1);
    assert_eq!(log.entries[0].artist_name, "Artist 1");
    assert_eq!(log.entries[0].album_name, None);
    assert_eq!(log.entries[0].track_name, "Track 1");
    assert_eq!(log.entries[0].duration, 456);
    assert_eq!(log.entries[0].rating, ScrobbleRating::Listened);
    assert_eq!(log.entries[0].timestamp, 123456789);
    assert_eq!(log.entries[0].mb_track_id, Some("id_0".to_string()));
}

#[test]
fn log_headers_are_read_and_later_ones_win() {
    let text = "#AUDIOSCROBBLER/1.0\n#TZ/UTC\n#CLIENT/Rockbox\n#TZ/Europe/Paris\nA\tB\tT\t\t10\tS\t100\n\nC\t\tU\t2\t20\tL\t200\n";
    let log = ScrobbleLog::parse(text).unwrap();
    assert_eq!(log.version, "1.0");
    assert_eq!(log.timezone, Some("Europe/Paris".to_string()));
    assert_eq!(log.client_id, Some("Rockbox".to_string()));
    assert_eq!(log.entries.len(), 2);
    assert_eq!(log.entries[0].album_name, Some("B".to_string()));
    assert_eq!(log.entries[0].track_num, None);
    assert_eq!(log.entries[0].rating, ScrobbleRating::Skipped);
    assert_eq!(log.entries[0].mb_track_id, None);
    assert_eq!(log.entries[1].track_name, "U");
    assert_eq!(log.entries[1].timestamp, 200);
}

#[test]
fn unknown_time_zone_names_no_zone() {
    let log = ScrobbleLog::parse("#AUDIOSCROBBLER/1.0\n#TZ/UNKNOWN\n").unwrap();
    assert_eq!(log.timezone, None);
    assert_eq!(log.entries.len(), 0);
    assert_eq!(ScrobbleLog::parse_timezone("UTC".to_string()), Some("UTC".to_string()));
    assert_eq!(ScrobbleLog::parse_timezone("UNKNOWN".to_string()), None);
}

#[test]
fn missing_version_is_rejected() {
    let r = ScrobbleLog::parse("#TZ/UTC\nA\tB\tT\t1\t10\tL\t100\n");
    match r {
        Err(ParserError::Other(m)) => assert_eq!(m, "Log version not specified"),
        other => panic!("unexpected {:?}", other),
    }
    assert!(matches!(AudioScrobblerParser::parse("A\tB\tT\t1\t10\tL\t100\n"), Err(ParserError::Other(_))));
    let r = ScrobbleLog::parse("");
    assert!(matches!(r, Err(ParserError::Other(_))));
}

#[test]
fn malformed_entries_are_syntax_errors() {
    // a bad rating
    let r = ScrobbleLog::parse("#AUDIOSCROBBLER/1.0\nA\tB\tT\t1\t10\tX\t100\n");
    assert!(matches!(r, Err(ParserError::Syntax(_))));
    // a duration that is no integer
    let r = ScrobbleLog::parse("#AUDIOSCROBBLER/1.0\nA\tB\tT\t1\tten\tL\t100\n");
    assert!(matches!(r, Err(ParserError::Syntax(_))));
    // too few fields for version 1.1, which carries a track id
    let r = ScrobbleLog::parse("#AUDIOSCROBBLER/1.1\nA\tB\tT\t1\t10\tL\t100\n");
    assert!(matches!(r, Err(ParserError::Syntax(_))));
    // a later bad entry fails the whole log
    let r = ScrobbleLog::parse("#AUDIOSCROBBLER/1.0\nA\tB\tT\t1\t10\tL\t100\nA\tB\tT\t1\t10\tL\tnow\n");
    assert!(matches!(r, Err(ParserError::Syntax(_))));
}

#[test]
fn integers_follow_the_decimal_rules() {
    assert_eq!(ScrobbleLog::parse_optional_i64(""), None);
    assert_eq!(ScrobbleLog::parse_optional_i64("+7"), Some(7));
    assert_eq!(ScrobbleLog::parse_optional_i64("-12"), Some(-12));
    assert_eq!(ScrobbleLog::parse_optional_i64("-"), None);
    assert_eq!(ScrobbleLog::parse_optional_i64("1a"), None);
    assert_eq!(ScrobbleLog::parse_optional_i64("9223372036854775807"), Some(i64::MAX));
    assert_eq!(ScrobbleLog::parse_optional_i64("9223372036854775808"), None);
    assert_eq!(ScrobbleLog::parse_optional_i64("-9223372036854775808"), Some(i64::MIN));
    assert_eq!(ScrobbleLog::parse_optional_i64("99999999999999999999999"), None);
}

#[test]
fn ratings_and_optional_fields() {
    assert!(matches!(ScrobbleLog::parse_rating("L"), Ok(ScrobbleRating::Listened)));
    assert!(matches!(ScrobbleLog::parse_rating("S"), Ok(ScrobbleRating::Skipped)));
    assert!(matches!(ScrobbleLog::parse_rating("LS"), Err(ParserError::Syntax(_))));
    assert_eq!(ScrobbleLog::parse_optional_string(""), None);
    assert_eq!(ScrobbleLog::parse_optional_string("x"), Some("x".to_string()));
    let e = ScrobbleLog::parse_entry("A\t\tT\t\t30\tL\t5\tmbid", &"1.1".to_string()).unwrap();
    assert_eq!(e.mb_track_id, Some("mbid".to_string()));
    let e = ScrobbleLog::parse_entry("A\t\tT\t\t30\tL\t5\tmbid", &"1.0".to_string()).unwrap();
    assert_eq!(e.mb_track_id, None);
}

#[test]
fn plays_leave_out_skipped_entries() {
    let text = "#AUDIOSCROBBLER/1.1\n#TZ/UTC\n#CLIENT/Rockbox\nA1\tAl\tT1\t1\t100\tL\t1000\tid1\nA2\t\tT2\t2\t200\tS\t2000\t\nA3\t\tT3\t3\t300\tL\t3000\t\n";
    let log = AudioScrobblerParser::parse(text).unwrap();
    let plays = log.to_plays().unwrap();
    assert_eq!(plays.len(), 2);
    assert_eq!(plays[0].track_name, "T1");
    assert_eq!(plays[0].duration, Some(100));
    assert_eq!(plays[0].release_name, Some("Al".to_string()));
    assert_eq!(plays[0].track_mb_id, Some("id1".to_string()));
    assert_eq!(plays[0].submission_client_agent, Some("Rockbox".to_string()));
    let t = plays[0].played_time.unwrap();
    assert_eq!((t.secs, t.offset), (1000, 0));
    let artists = plays[0].artists.as_ref().unwrap();
    assert_eq!(artists.len(), 1);
    assert_eq!(artists[0].artist_name, "A1");
    assert_eq!(plays[1].track_name, "T3");
    assert_eq!(plays[1].track_mb_id, None);
    assert_eq!(plays[1].played_time.unwrap().secs, 3000);
}

#[test]
fn local_log_times_take_the_machine_offset() {
    let text = "#AUDIOSCROBBLER/1.0\nA\t\tT\t\t100\tL\t1700000000\n";
    let log = AudioScrobblerParser::parse(text).unwrap();
    let plays = log.to_plays().unwrap();
    assert_eq!(plays.len(), 1);
    let t = plays[0].played_time.unwrap();
    assert_eq!(t.secs, 1700000000);
    assert!(t.offset > -86400 && t.offset < 86400);
}

#[test]
fn parser_errors_read_as_messages() {
    assert_eq!(ParserError::Syntax("bad".to_string()).message(), "syntax error: bad");
    assert_eq!(ParserError::Io("gone".to_string()).message(), "io error: gone");
    assert_eq!(ParserError::Other("Log version not specified".to_string()).message(), "Log version not specified");
}

#[test]
fn empty_lines_between_entries_are_skipped() {
    let log = ScrobbleLog::parse("#AUDIOSCROBBLER/1.0\n\nA\tB\tT\t1\t10\tL\t100\n\n").unwrap();
    assert_eq!(log.entries.len(), 1);
    assert_eq!(log.entries[0].track_name, "T");
}

#[test]
fn plays_fail_only_on_unrepresentable_local_times() {
    let log = AudioScrobblerParser::parse("#AUDIOSCROBBLER/1.0\nA\t\tT\t\t100\tL\t9223372036854775807\n").unwrap();
    assert!(matches!(log.to_plays(), Err(ParserError::Other(_))));
    let utc = AudioScrobblerParser::parse("#AUDIOSCROBBLER/1.0\n#TZ/UTC\nA\t\tT\t\t100\tL\t9223372036854775807\n").unwrap();
    assert_eq!(utc.to_plays().unwrap()[0].played_time.unwrap().secs, i64::MAX);
}

#[test]
fn local_times_past_year_262142_fail() {
    let log = AudioScrobblerParser::parse("#AUDIOSCROBBLER/1.0\nA\t\tT\t\t100\tL\t8210266876800\n").unwrap();
    assert!(matches!(log.to_plays(), Err(ParserError::Other(_))));
}
