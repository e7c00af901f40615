//! The "now playing" status record of an account.
use vstd::prelude::*;
use crate::error::OnyxError;
use crate::record::{PlayView, Status, Timestamp};
use crate::text::{chars_of, string_of};

verus! {

pub open spec fn status_scheme() -> Seq<char> {
    seq!['a', 't', ':', '/', '/']
}

pub open spec fn status_path() -> Seq<char> {
    seq![
        '/', 'f', 'm', '.', 't', 'e', 'a', 'l', '.', 'a', 'l', 'p', 'h', 'a', '.', 'a', 'c', 't',
        'o', 'r', '.', 's', 't', 'a', 't', 'u', 's', '/', 's', 'e', 'l', 'f',
    ]
}

/// How long a status lasts when no expiry is given: ten minutes.
pub const DEFAULT_STATUS_SECS: i64 = 600;

/// How far in the past a cleared status expires: one minute.
pub const CLEAR_LAG_SECS: i64 = 60;

/// The address of an account's status record.
pub fn get_status_endpoint(did: String) -> (r: String)
    ensures
        r@ == status_scheme() + did@ + status_path(),
{
    let mut cs = vec!['a', 't', ':', '/', '/'];
    let mut d = chars_of(did.as_str());
    cs.append(&mut d);
    let mut p = chars_of("/fm.teal.alpha.actor.status/self");
    proof {
        reveal_strlit("/fm.teal.alpha.actor.status/self");
    }
    assert(p@ =~= status_path());
    cs.append(&mut p);
    assert(cs@ =~= status_scheme() + did@ + status_path());
    string_of(&cs)
}

/// A status that clears the current one, issued at `now`.
pub open spec fn is_cleared_status(s: Status, now: Timestamp) -> bool {
    &&& s.time == now
    &&& s.expiry == Some(Timestamp { secs: (now.secs - CLEAR_LAG_SECS) as i64, offset: now.offset })
    &&& s.item.track_name@.len() == 0
    &&& s.item.artists@.len() == 0
}

/// Reads and writes the status of one account.
#[derive(Debug)]
pub struct StatusManager {
    pub ident: String,
}

impl StatusManager {
    pub fn new(ident: &str) -> (r: Self)
        ensures
            r.ident@ == ident@,
    {
        StatusManager { ident: ident.to_string() }
    }

    /// The status to set: it starts at `time`, or now when none is given,
    /// and ends at `expiry`, or ten minutes after its start. Fails when that
    /// end is past the last representable second.
    pub fn new_status(item: PlayView, time: Option<Timestamp>, expiry: Option<Timestamp>, now: Timestamp) -> (r: Result<Status, OnyxError>)
        ensures
            match r {
                Ok(s) => {
                    &&& s.time == (match time {
                        Some(t) => t,
                        None => now,
                    })
                    &&& s.expiry == Some(match expiry {
                        Some(e) => e,
                        None => Timestamp { secs: (s.time.secs + DEFAULT_STATUS_SECS) as i64, offset: s.time.offset },
                    })
                    &&& s.item == item
                },
                Err(e) => expiry is None && (match time {
                    Some(t) => t,
                    None => now,
                }).secs + DEFAULT_STATUS_SECS > i64::MAX && e is Parse,
            },
    {
        let start = match time {
            Some(t) => t,
            None => now,
        };
        let end = match expiry {
            Some(e) => e,
            None => {
                if start.secs > i64::MAX - DEFAULT_STATUS_SECS {
                    return Err(OnyxError::Parse("status expiry out of range".to_string()));
                }
                Timestamp { secs: start.secs + DEFAULT_STATUS_SECS, offset: start.offset }
            },
        };
        Ok(Status { time: start, expiry: Some(end), item })
    }

    /// The status that clears the current one: it starts now, names no
    /// track and no artist, and expired a minute ago. The record stays in
    /// place; only its content is emptied.
    pub fn clear_status(now: Timestamp) -> (r: Status)
        requires
            now.secs >= i64::MIN + CLEAR_LAG_SECS,
        ensures
            is_cleared_status(r, now),
            r.item.played_time is None && r.item.duration is None,
            r.item.release_name is None && r.item.track_mb_id is None,
            r.item.recording_mb_id is None && r.item.release_mb_id is None && r.item.isrc is None,
            r.item.origin_url is None && r.item.music_service_base_domain is None,
            r.item.submission_client_agent is None,
    {
        let empty = String::new();
        Status {
            time: now,
            expiry: Some(Timestamp { secs: now.secs - CLEAR_LAG_SECS, offset: now.offset }),
            item: PlayView::named(empty),
        }
    }
}

/// A cleared status names no track, expired strictly before it was issued,
/// and a display of it reports nothing playing, at any time.
pub proof fn cleared_status_shows_nothing(s: Status, now: Timestamp, at: Timestamp)
    requires
        is_cleared_status(s, now),
        now.secs >= i64::MIN + CLEAR_LAG_SECS,
    ensures
        s.item.track_name@.len() == 0,
        s.expiry matches Some(e) && e.secs < now.secs,
        s.spec_nothing_playing(false, at),
{
}

} // verus!
