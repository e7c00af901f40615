//! Play records, the "now playing" status, and the instants they carry.
use vstd::prelude::*;
use crate::error::OnyxError;
use crate::parser::opt_view;
use crate::text::{chars_of, split_chars, split_spec, string_of, trim, trim_spec, views};

verus! {

/// An instant: seconds since the Unix epoch, and the offset from UTC, in
/// seconds, of the clock it was read on.
#[derive(Debug, Clone, Copy, PartialEq, Eq, Structural)]
pub struct Timestamp {
    pub secs: i64,
    pub offset: i32,
}

impl Timestamp {
    /// An offset is less than a day either way.
    pub open spec fn wf(&self) -> bool {
        -86400 < self.offset < 86400
    }

    /// The instant `secs` read on a clock `offset` seconds ahead of UTC.
    pub fn new(secs: i64, offset: i32) -> (r: Option<Timestamp>)
        ensures
            r matches Some(t) ==> t.wf() && t.secs == secs && t.offset == offset,
            r is None <==> !(-86400 < offset < 86400),
    {
        if -86400 < offset && offset < 86400 {
            Some(Timestamp { secs, offset })
        } else {
            None
        }
    }
}

/// An artist of a track.
#[derive(Debug)]
pub struct Artist {
    pub artist_name: String,
    pub artist_mb_id: Option<String>,
}

/// A play of a track, as it is submitted.
#[derive(Debug)]
pub struct Play {
    pub track_name: String,
    pub track_mb_id: Option<String>,
    pub recording_mb_id: Option<String>,
    pub duration: Option<i64>,
    pub artist_names: Option<Vec<String>>,
    pub artist_mb_ids: Option<Vec<String>>,
    pub artists: Option<Vec<Artist>>,
    pub release_name: Option<String>,
    pub release_mb_id: Option<String>,
    pub isrc: Option<String>,
    pub origin_url: Option<String>,
    pub music_service_base_domain: Option<String>,
    pub submission_client_agent: Option<String>,
    pub played_time: Option<Timestamp>,
    pub track_discriminant: Option<String>,
    pub release_discriminant: Option<String>,
}

/// The item of a status: what is playing.
#[derive(Debug)]
pub struct PlayView {
    pub track_name: String,
    pub track_mb_id: Option<String>,
    pub recording_mb_id: Option<String>,
    pub duration: Option<i64>,
    pub artists: Vec<Artist>,
    pub release_name: Option<String>,
    pub release_mb_id: Option<String>,
    pub isrc: Option<String>,
    pub origin_url: Option<String>,
    pub music_service_base_domain: Option<String>,
    pub submission_client_agent: Option<String>,
    pub played_time: Option<Timestamp>,
}

/// What an account is playing now, until `expiry`.
#[derive(Debug)]
pub struct Status {
    pub time: Timestamp,
    pub expiry: Option<Timestamp>,
    pub item: PlayView,
}

impl PlayView {
    /// An item with the given track name and nothing else.
    pub fn named(track_name: String) -> (r: PlayView)
        ensures
            r.track_name == track_name,
            r.artists@.len() == 0,
            r.track_mb_id is None && r.recording_mb_id is None && r.duration is None,
            r.release_name is None && r.release_mb_id is None && r.isrc is None,
            r.origin_url is None && r.music_service_base_domain is None,
            r.submission_client_agent is None && r.played_time is None,
    {
        PlayView {
            track_name,
            track_mb_id: None,
            recording_mb_id: None,
            duration: None,
            artists: Vec::new(),
            release_name: None,
            release_mb_id: None,
            isrc: None,
            origin_url: None,
            music_service_base_domain: None,
            submission_client_agent: None,
            played_time: None,
        }
    }
}

impl Status {
    /// Whether the status has lapsed at `now`.
    pub open spec fn spec_expired(&self, now: Timestamp) -> bool {
        match self.expiry {
            Some(e) => e.secs < now.secs,
            None => false,
        }
    }

    /// A display reports "nothing playing" unless raw output is asked for,
    /// when the item names neither track nor artist, or when the status has
    /// lapsed.
    pub open spec fn spec_nothing_playing(&self, raw: bool, now: Timestamp) -> bool {
        !raw && ((self.item.track_name@.len() == 0 && self.item.artists@.len() == 0)
            || self.spec_expired(now))
    }

    pub fn is_expired(&self, now: Timestamp) -> (r: bool)
        ensures
            r == self.spec_expired(now),
    {
        match self.expiry {
            Some(e) => e.secs < now.secs,
            None => false,
        }
    }

    /// Whether a display of the status at `now` reports "nothing playing".
    pub fn nothing_playing(&self, raw: bool, now: Timestamp) -> (r: bool)
        ensures
            r == self.spec_nothing_playing(raw, now),
    {
        !raw && ((self.item.track_name.as_str().is_empty() && self.item.artists.len() == 0)
            || self.is_expired(now))
    }
}

/// The names of a comma-separated list, trimmed, without the empty ones.
pub open spec fn names_spec(items: Seq<Seq<char>>) -> Seq<Seq<char>>
    decreases items.len(),
{
    if items.len() == 0 {
        seq![]
    } else if trim_spec(items.last()).len() == 0 {
        names_spec(items.drop_last())
    } else {
        names_spec(items.drop_last()).push(trim_spec(items.last()))
    }
}

/// The identifier given to the artist at position `i`: the `i`-th item of
/// the identifier list, trimmed, where there is one and it is not empty.
pub open spec fn id_at(ids: Option<Seq<Seq<char>>>, i: int) -> Option<Seq<char>> {
    match ids {
        Some(l) => if i < l.len() && trim_spec(l[i]).len() > 0 {
            Some(trim_spec(l[i]))
        } else {
            None
        },
        None => None,
    }
}

pub open spec fn artist_matches(a: Artist, name: Seq<char>, id: Option<Seq<char>>) -> bool {
    a.artist_name@ == name && opt_view(a.artist_mb_id) == id
}

/// Reads artists from a comma-separated list of names and an optional
/// comma-separated list of identifiers that go with the names in order.
/// Empty names are left out; more identifiers than names is an error.
pub fn parse_artist_list(artist_names: Option<String>, artist_mb_ids: Option<String>) -> (r: Result<
    Option<Vec<Artist>>,
    OnyxError,
>)
    ensures
        artist_names is None ==> r matches Ok(None),
        artist_names matches Some(names) ==> {
            let ns = names_spec(split_spec(names@, ','));
            let ids = match artist_mb_ids {
                Some(s) => Some(split_spec(s@, ',')),
                None => None,
            };
            &&& r is Err <==> (ids matches Some(l) && l.len() > ns.len())
            &&& r matches Err(e) ==> e is Parse
            &&& r matches Ok(Some(v)) ==> v@.len() == ns.len() && forall|i: int|
                0 <= i < ns.len() ==> artist_matches(#[trigger] v@[i], ns[i], id_at(ids, i))
            &&& !(r matches Ok(None))
        },
{
    let names = match artist_names {
        Some(n) => n,
        None => {
            return Ok(None);
        },
    };
    let items = split_chars(&chars_of(names.as_str()), ',');
    let ghost its = split_spec(names@, ',');
    assert(views(items@) == its);
    let mut artists: Vec<Artist> = Vec::new();
    let mut k: usize = 0;
    while k < items.len()
        invariant
            views(items@) == its,
            k <= items@.len(),
            artists@.len() == names_spec(its.subrange(0, k as int)).len(),
            forall|i: int|
                0 <= i < artists@.len() ==> #[trigger] artists@[i].artist_name@ == names_spec(
                    its.subrange(0, k as int),
                )[i] && artists@[i].artist_mb_id is None,
        decreases items@.len() - k,
    {
        let name = trim(&items[k]);
        let ghost pre = its.subrange(0, k as int);
        let ghost next = its.subrange(0, k + 1);
        assert(next.drop_last() =~= pre);
        assert(next.last() == items@[k as int]@);
        if name.len() > 0 {
            artists.push(Artist { artist_name: string_of(&name), artist_mb_id: None });
        }
        k = k + 1;
    }
    assert(its.subrange(0, items@.len() as int) =~= its);
    let ghost ns = names_spec(its);
    match artist_mb_ids {
        Some(id_text) => {
            let ids = split_chars(&chars_of(id_text.as_str()), ',');
            let ghost idl = split_spec(id_text@, ',');
            assert(views(ids@) == idl);
            if ids.len() > artists.len() {
                return Err(OnyxError::Parse(
                    "cannot be more `artist_mb_ids` than `artist_names`".to_string(),
                ));
            }
            let mut out: Vec<Artist> = Vec::new();
            let mut j: usize = 0;
            let n = artists.len();
            while j < n
                invariant
                    n == artists@.len() == ns.len(),
                    ids@.len() <= n,
                    views(ids@) == idl,
                    j <= n,
                    out@.len() == j,
                    forall|i: int| 0 <= i < ns.len() ==> #[trigger] artists@[i].artist_name@ == ns[i],
                    forall|i: int|
                        0 <= i < j ==> artist_matches(#[trigger] out@[i], ns[i], id_at(Some(idl), i)),
                decreases n - j,
            {
                let a_name = string_of(&chars_of(artists[j].artist_name.as_str()));
                let id = if j < ids.len() {
                    let t = trim(&ids[j]);
                    assert(ids@[j as int]@ == idl[j as int]);
                    if t.len() > 0 {
                        Some(string_of(&t))
                    } else {
                        None
                    }
                } else {
                    None
                };
                out.push(Artist { artist_name: a_name, artist_mb_id: id });
                j = j + 1;
            }
            Ok(Some(out))
        },
        None => {
            assert forall|i: int| 0 <= i < ns.len() implies artist_matches(
                #[trigger] artists@[i],
                ns[i],
                id_at(None, i),
            ) by {
                assert(artists@[i].artist_name@ == names_spec(its.subrange(0, its.len() as int))[i]);
            }
            Ok(Some(artists))
        },
    }
}

} // verus!
