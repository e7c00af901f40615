//! The AudioScrobbler log of portable players, turned into plays.
use vstd::prelude::*;
use chrono::{Offset, TimeZone};
use crate::error::ParserError;
use crate::parser::{
    entries_view, log_spec, opt_view, LogFault, LogHeaderEntry, LogModel, Scrobble, ScrobbleLog,
    ScrobbleModel, ScrobbleRating, header_version, header_timezone, header_client, optional_spec,
    rating_spec, unknown_timezone, missing_version_message, entry_spec, version_with_track_id,
};
use crate::record::{Artist, Play, Timestamp};
use crate::display::chrono_representable;
use crate::text::{chars_equal, chars_of};

verus! {

/// A parsed AudioScrobbler log.
#[derive(Debug)]
pub struct AudioScrobblerParser {
    pub timezone: Option<String>,
    pub client_id: Option<String>,
    pub entries: Vec<Scrobble>,
}

pub open spec fn utc_name() -> Seq<char> {
    seq!['U', 'T', 'C']
}

/// The entries that were listened to, in order.
pub open spec fn listened(es: Seq<ScrobbleModel>) -> Seq<ScrobbleModel>
    decreases es.len(),
{
    if es.len() == 0 {
        seq![]
    } else if es.last().rating == ScrobbleRating::Skipped {
        listened(es.drop_last())
    } else {
        listened(es.drop_last()).push(es.last())
    }
}

/// The play made of entry `e` of a log whose client is `client`.
pub open spec fn play_of(p: Play, e: ScrobbleModel, client: Option<Seq<char>>) -> bool {
    &&& p.track_name@ == e.track_name
    &&& p.duration == Some(e.duration as i64)
    &&& (p.played_time matches Some(t) && t.secs == e.timestamp && t.wf())
    &&& opt_view(p.submission_client_agent) == client
    &&& (p.artists matches Some(a) && a@.len() == 1 && a@[0].artist_name@ == e.artist_name
        && a@[0].artist_mb_id is None)
    &&& opt_view(p.release_name) == e.album_name
    &&& opt_view(p.track_mb_id) == e.mb_track_id
    &&& p.recording_mb_id is None && p.artist_names is None && p.artist_mb_ids is None
    &&& p.release_mb_id is None && p.isrc is None && p.origin_url is None
    &&& p.music_service_base_domain is None && p.track_discriminant is None
    &&& p.release_discriminant is None
}

/// Relies on chrono's `Local::timestamp_opt` and `FixedOffset`: the offset
/// of the machine's clock from UTC at that instant. `timestamp_opt` gives a
/// single local time for every second that `DateTime::from_timestamp`
/// accepts, and an offset is always less than a day either way.
#[verifier::external_body]
fn local_offset_at(secs: i64) -> (r: Option<i32>)
    ensures
        r matches Some(o) ==> -86400 < o < 86400,
        r is Some <==> chrono_representable(secs as int),
{
    match chrono::Local.timestamp_opt(secs, 0).single() {
        Some(dt) => Some(dt.offset().fix().local_minus_utc()),
        None => None,
    }
}

fn copy_string(s: &String) -> (r: String)
    ensures
        r@ == s@,
{
    s.clone()
}

fn copy_optional(s: &Option<String>) -> (r: Option<String>)
    ensures
        opt_view(r) == opt_view(*s),
{
    match s {
        Some(v) => Some(v.clone()),
        None => None,
    }
}

/// The play of one entry, read at the given offset.
pub fn entry_to_play(e: &Scrobble, client_id: &Option<String>, offset: i32) -> (r: Play)
    requires
        -86400 < offset < 86400,
    ensures
        play_of(r, e@, opt_view(*client_id)),
        r.played_time == Some(Timestamp { secs: e.timestamp, offset }),
{
    let mut artists: Vec<Artist> = Vec::new();
    artists.push(Artist { artist_name: copy_string(&e.artist_name), artist_mb_id: None });
    Play {
        track_name: copy_string(&e.track_name),
        track_mb_id: copy_optional(&e.mb_track_id),
        recording_mb_id: None,
        duration: Some(e.duration),
        artist_names: None,
        artist_mb_ids: None,
        artists: Some(artists),
        release_name: copy_optional(&e.album_name),
        release_mb_id: None,
        isrc: None,
        origin_url: None,
        music_service_base_domain: None,
        submission_client_agent: copy_optional(client_id),
        played_time: Some(Timestamp { secs: e.timestamp, offset }),
        track_discriminant: None,
        release_discriminant: None,
    }
}

impl AudioScrobblerParser {
    pub fn parse_header(line: &str) -> (r: LogHeaderEntry)
        ensures
            r is Version <==> header_version(line@) is Some,
            r is TimeZone <==> header_timezone(line@) is Some,
            r is ClientId <==> header_client(line@) is Some,
            r matches LogHeaderEntry::Version(v) ==> header_version(line@) == Some(v@),
            r matches LogHeaderEntry::TimeZone(v) ==> header_timezone(line@) == Some(v@),
            r matches LogHeaderEntry::ClientId(v) ==> header_client(line@) == Some(v@),
    {
        ScrobbleLog::parse_header(line)
    }

    pub fn parse_optional_string(s: &str) -> (r: Option<String>)
        ensures
            opt_view(r) == optional_spec(s@),
    {
        ScrobbleLog::parse_optional_string(s)
    }

    pub fn parse_rating(s: &str) -> (r: Result<ScrobbleRating, ParserError>)
        ensures
            match r {
                Ok(v) => rating_spec(s@) == Some(v),
                Err(e) => rating_spec(s@) is None && e is Syntax,
            },
    {
        ScrobbleLog::parse_rating(s)
    }

    pub fn parse_timezone(s: String) -> (r: Option<String>)
        ensures
            match r {
                Some(t) => t@ == s@ && s@ != unknown_timezone(),
                None => s@ == unknown_timezone(),
            },
    {
        ScrobbleLog::parse_timezone(s)
    }

    pub fn parse_entry(line: &str, version: &String) -> (r: Result<Scrobble, ParserError>)
        ensures
            match r {
                Ok(e) => entry_spec(line@, version@ == version_with_track_id()) == Some(e@),
                Err(e) => entry_spec(line@, version@ == version_with_track_id()) is None
                    && e is Syntax,
            },
    {
        ScrobbleLog::parse_entry(line, version)
    }

    /// Reads a whole log; the version is checked and then set aside.
    pub fn parse(text: &str) -> (r: Result<Self, ParserError>)
        ensures
            match r {
                Ok(p) => log_spec(text@) matches Ok(m) && opt_view(p.timezone) == m.timezone
                    && opt_view(p.client_id) == m.client_id && entries_view(p.entries@)
                    == m.entries,
                Err(ParserError::Other(m)) => log_spec(text@) == Err::<LogModel, LogFault>(
                    LogFault::MissingVersion,
                ) && m@ == missing_version_message(),
                Err(ParserError::Syntax(_)) => log_spec(text@) == Err::<LogModel, LogFault>(
                    LogFault::BadEntry,
                ),
                Err(ParserError::Io(_)) => false,
            },
    {
        match ScrobbleLog::parse(text) {
            Ok(log) => Ok(
                AudioScrobblerParser {
                    timezone: log.timezone,
                    client_id: log.client_id,
                    entries: log.entries,
                },
            ),
            Err(e) => Err(e),
        }
    }

    pub open spec fn spec_is_utc(&self) -> bool {
        opt_view(self.timezone) == Some(utc_name())
    }

    /// Whether the log's times are in UTC; otherwise they are on the
    /// machine's local clock.
    pub fn is_utc(&self) -> (r: bool)
        ensures
            r == self.spec_is_utc(),
    {
        match &self.timezone {
            Some(tz) => {
                let u = vec!['U', 'T', 'C'];
                assert(u@ =~= utc_name());
                chars_equal(&chars_of(tz.as_str()), &u)
            },
            None => false,
        }
    }

    /// The plays of the log: one for each entry that was listened to, in
    /// order, skipped entries left out. Times of a UTC log carry offset zero;
    /// otherwise the machine's offset at that instant, and the conversion
    /// fails only on an entry whose time chrono cannot represent.
    pub fn to_plays(&self) -> (r: Result<Vec<Play>, ParserError>)
        ensures
            match r {
                Ok(ps) => {
                    let ls = listened(entries_view(self.entries@));
                    &&& ps@.len() == ls.len()
                    &&& forall|i: int|
                        0 <= i < ls.len() ==> play_of(
                            #[trigger] ps@[i],
                            ls[i],
                            opt_view(self.client_id),
                        )
                    &&& self.spec_is_utc() ==> forall|i: int|
                        0 <= i < ps@.len() ==> ((#[trigger] ps@[i]).played_time matches Some(t)
                            && t.offset == 0)
                },
                Err(e) => {
                    &&& !self.spec_is_utc()
                    &&& e is Other
                    &&& exists|i: int|
                        0 <= i < self.entries@.len() && !chrono_representable(
                            #[trigger] self.entries@[i].timestamp as int,
                        )
                },
            },
    {
        let utc = self.is_utc();
        let ghost es = entries_view(self.entries@);
        let mut plays: Vec<Play> = Vec::new();
        let mut k: usize = 0;
        while k < self.entries.len()
            invariant
                es == entries_view(self.entries@),
                utc == self.spec_is_utc(),
                k <= self.entries@.len(),
                plays@.len() == listened(es.subrange(0, k as int)).len(),
                forall|i: int|
                    0 <= i < plays@.len() ==> play_of(
                        #[trigger] plays@[i],
                        listened(es.subrange(0, k as int))[i],
                        opt_view(self.client_id),
                    ),
                utc ==> forall|i: int|
                    0 <= i < plays@.len() ==> ((#[trigger] plays@[i]).played_time matches Some(t)
                        && t.offset == 0),
            decreases self.entries@.len() - k,
        {
            let e = &self.entries[k];
            let ghost pre = es.subrange(0, k as int);
            let ghost next = es.subrange(0, k + 1);
            assert(next.drop_last() =~= pre);
            assert(next.last() == e@);
            if e.rating == ScrobbleRating::Listened {
                let offset: i32 = if utc {
                    0
                } else {
                    match local_offset_at(e.timestamp) {
                        Some(o) => o,
                        None => {
                            assert(!chrono_representable(self.entries@[k as int].timestamp as int));
                            return Err(ParserError::Other(
                                "no local time for an entry timestamp".to_string(),
                            ));
                        },
                    }
                };
                let p = entry_to_play(e, &self.client_id, offset);
                plays.push(p);
                assert(listened(next) == listened(pre).push(e@));
            } else {
                assert(listened(next) == listened(pre));
            }
            k = k + 1;
        }
        assert(es.subrange(0, k as int) =~= es);
        Ok(plays)
    }
}

} // verus!
