//! The lines that show a status to a user.
use vstd::prelude::*;
use chrono::TimeZone;
use crate::parser::opt_view;
use crate::record::{Artist, Status, Timestamp};
use crate::status::StatusManager;
use crate::text::{chars_of, string_of};

verus! {

/// The text chrono's `format` makes, with the pattern
/// `%Y-%m-%d %H:%M:%S %:z`, of an instant read on a clock `offset` seconds
/// ahead of UTC.
pub uninterp spec fn fixed_time_text(secs: i64, offset: i32) -> Seq<char>;

/// The seconds since the epoch that chrono's `DateTime::from_timestamp`
/// accepts: from the first second of year -262143 (January 1, 262144 BCE)
/// to the last second of December 31, 262142.
pub open spec fn chrono_representable(secs: int) -> bool {
    -8334601228800 <= secs <= 8210266876799
}

/// Relies on chrono's `FixedOffset::east_opt`, `TimeZone::timestamp_opt` and
/// `DateTime::format` with the pattern `%Y-%m-%d %H:%M:%S %:z`: the instant
/// on its own clock; there is one exactly when the offset is less than a
/// day and `from_timestamp` accepts the seconds.
#[verifier::external_body]
fn format_fixed(t: Timestamp) -> (r: Option<String>)
    ensures
        r is Some <==> (-86400 < t.offset < 86400 && chrono_representable(t.secs as int)),
        r matches Some(s) ==> s@ == fixed_time_text(t.secs, t.offset),
{
    match chrono::FixedOffset::east_opt(t.offset) {
        Some(o) => match o.timestamp_opt(t.secs, 0).single() {
            Some(dt) => Some(dt.format("%Y-%m-%d %H:%M:%S %:z").to_string()),
            None => None,
        },
        None => None,
    }
}

/// Relies on chrono's `DateTime::from_timestamp`, `with_timezone(&Local)`
/// and `format` with the pattern `%Y-%m-%d %H:%M:%S`: the instant on the
/// machine's clock; there is one exactly when `from_timestamp` accepts the
/// seconds.
#[verifier::external_body]
fn format_local(t: Timestamp) -> (r: Option<String>)
    ensures
        r is Some <==> chrono_representable(t.secs as int),
{
    match chrono::DateTime::from_timestamp(t.secs, 0) {
        Some(dt) => Some(dt.with_timezone(&chrono::Local).format("%Y-%m-%d %H:%M:%S").to_string()),
        None => None,
    }
}

pub open spec fn digit_char(d: int) -> char {
    ((d + '0' as int) as u32) as char
}

/// The decimal digits of `n`.
pub open spec fn decimal(n: nat) -> Seq<char>
    decreases n,
{
    if n < 10 {
        seq![digit_char(n as int)]
    } else {
        decimal(n / 10).push(digit_char((n % 10) as int))
    }
}

/// `n` in decimal, with a minus sign when negative.
pub open spec fn signed_decimal(n: int) -> Seq<char> {
    if n < 0 {
        seq!['-'] + decimal((-n) as nat)
    } else {
        decimal(n as nat)
    }
}

/// `n` in at least two digits.
pub open spec fn two_digits(n: nat) -> Seq<char> {
    if n < 10 {
        seq!['0'] + decimal(n)
    } else {
        decimal(n)
    }
}

fn digit(d: u64) -> (c: char)
    requires
        d < 10,
    ensures
        c == digit_char(d as int),
{
    let c = (d as u32 + '0' as u32) as u8 as char;
    assert(c == digit_char(d as int)) by {
        assert((d + '0' as int) < 256);
    }
    c
}

fn decimal_chars(n: u64) -> (r: Vec<char>)
    ensures
        r@ == decimal(n as nat),
    decreases n,
{
    if n < 10 {
        let r = vec![digit(n)];
        assert(r@ =~= decimal(n as nat));
        r
    } else {
        let mut r = decimal_chars(n / 10);
        r.push(digit(n % 10));
        r
    }
}

/// `n` in decimal.
pub fn signed_decimal_text(n: i64) -> (r: String)
    ensures
        r@ == signed_decimal(n as int),
{
    if n < 0 {
        let m: u64 = (-(n as i128)) as u64;
        let mut cs = vec!['-'];
        let mut ds = decimal_chars(m);
        cs.append(&mut ds);
        string_of(&cs)
    } else {
        string_of(&decimal_chars(n as u64))
    }
}

fn two_digit_chars(n: u64) -> (r: Vec<char>)
    ensures
        r@ == two_digits(n as nat),
{
    if n < 10 {
        let mut cs = vec!['0'];
        let mut ds = decimal_chars(n);
        cs.append(&mut ds);
        cs
    } else {
        decimal_chars(n)
    }
}

/// A duration of `d` seconds as `hh:mm:ss`, leaving out leading zero
/// parts; nothing for a duration that is not positive.
pub open spec fn duration_text(d: int) -> Seq<char> {
    if d <= 0 {
        seq![]
    } else {
        let h = d / 3600;
        let m = (d % 3600) / 60;
        let s = d % 60;
        if h > 0 {
            two_digits(h as nat) + seq![':'] + two_digits(m as nat) + seq![':'] + two_digits(s as nat)
        } else if m > 0 {
            two_digits(m as nat) + seq![':'] + two_digits(s as nat)
        } else {
            two_digits(s as nat)
        }
    }
}

pub fn format_duration(d: i64) -> (r: String)
    ensures
        r@ == duration_text(d as int),
{
    if d <= 0 {
        return String::new();
    }
    let h = (d / 3600) as u64;
    let m = ((d % 3600) / 60) as u64;
    let s = (d % 60) as u64;
    let mut cs: Vec<char> = Vec::new();
    if h > 0 {
        let mut a = two_digit_chars(h);
        cs.append(&mut a);
        cs.push(':');
    }
    if h > 0 || m > 0 {
        let mut b = two_digit_chars(m);
        cs.append(&mut b);
        cs.push(':');
    }
    let mut c = two_digit_chars(s);
    cs.append(&mut c);
    assert(cs@ =~= duration_text(d as int));
    string_of(&cs)
}

/// The times of a status as they are shown.
#[derive(Debug)]
pub struct DisplayTimes {
    pub played: Option<String>,
    pub time: String,
    pub expiry: Option<String>,
}

/// An instant as raw output shows it: on its own clock with its offset,
/// or the seconds since the epoch where chrono cannot represent it.
pub open spec fn raw_time_spec(t: Timestamp) -> Seq<char> {
    if -86400 < t.offset < 86400 && chrono_representable(t.secs as int) {
        fixed_time_text(t.secs, t.offset)
    } else {
        signed_decimal(t.secs as int)
    }
}

/// An instant as shown: on its own clock with its offset when raw output is
/// asked for, else on the machine's clock. Where chrono cannot represent
/// it, the seconds since the epoch.
pub fn time_text(t: Timestamp, raw: bool) -> (r: String)
    ensures
        raw ==> r@ == raw_time_spec(t),
        !raw && !chrono_representable(t.secs as int) ==> r@ == signed_decimal(t.secs as int),
{
    let formatted = if raw {
        format_fixed(t)
    } else {
        format_local(t)
    };
    match formatted {
        Some(s) => s,
        None => signed_decimal_text(t.secs),
    }
}

pub open spec fn line(label: Seq<char>, value: Seq<char>) -> Seq<char> {
    label + value
}

pub open spec fn opt_line(cond: bool, l: Seq<char>) -> Seq<Seq<char>> {
    if cond {
        seq![l]
    } else {
        seq![]
    }
}

/// One artist as listed: the name, and the id in brackets when all
/// fields are asked for.
pub open spec fn artist_text(a: Artist, full: bool) -> Seq<char> {
    match a.artist_mb_id {
        Some(id) => if full {
            a.artist_name@ + seq![' ', '['] + id@ + seq![']']
        } else {
            a.artist_name@
        },
        None => a.artist_name@,
    }
}

/// The artists, separated by commas.
pub open spec fn artists_text(artists: Seq<Artist>, full: bool) -> Seq<char>
    decreases artists.len(),
{
    if artists.len() == 0 {
        seq![]
    } else if artists.len() == 1 {
        artist_text(artists[0], full)
    } else {
        artists_text(artists.drop_last(), full) + seq![',', ' '] + artist_text(artists.last(), full)
    }
}

pub open spec fn nothing_line() -> Seq<char> {
    "nothing playing right now"@
}

/// The lines that show status `s` at `now`, with its times already put in
/// words.
pub open spec fn display_spec(s: Status, raw: bool, full: bool, now: Timestamp, times: DisplayTimes, duration: Seq<char>, with_times: bool) -> Seq<Seq<char>> {
    if s.spec_nothing_playing(raw, now) {
        seq![nothing_line()]
    } else {
        let it = s.item;
        seq![line("track: "@, it.track_name@)]
        + opt_line(full && it.track_mb_id is Some, line("track id: "@, opt_view(it.track_mb_id).unwrap()))
        + opt_line(full && it.recording_mb_id is Some, line("recording id: "@, opt_view(it.recording_mb_id).unwrap()))
        + opt_line(it.artists@.len() > 0 || raw, line("artists: "@, artists_text(it.artists@, full)))
        + opt_line(it.release_name is Some, line("release: "@, opt_view(it.release_name).unwrap()))
        + opt_line(full && it.release_mb_id is Some, line("release id: "@, opt_view(it.release_mb_id).unwrap()))
        + opt_line(full && it.isrc is Some, line("isrc: "@, opt_view(it.isrc).unwrap()))
        + opt_line(it.played_time is Some && times.played is Some, line("played: "@, opt_view(times.played).unwrap()))
        + opt_line(it.duration is Some, line("duration: "@, duration))
        + opt_line(full && it.music_service_base_domain is Some, line("service: "@, opt_view(it.music_service_base_domain).unwrap()))
        + opt_line(full && it.submission_client_agent is Some, line("client: "@, opt_view(it.submission_client_agent).unwrap()))
        + opt_line(with_times && full, line("time: "@, times.time@))
        + opt_line(with_times && full && s.expiry is Some && times.expiry is Some, line("expiry: "@, opt_view(times.expiry).unwrap()))
    }
}

pub open spec fn texts(v: Seq<String>) -> Seq<Seq<char>> {
    v.map_values(|l: String| l@)
}

/// Appends `label` and `value` as a line when `cond` holds.
fn push_line_if(out: &mut Vec<String>, cond: bool, label: &str, value: &str)
    ensures
        texts(final(out)@) == texts(old(out)@) + opt_line(cond, line(label@, value@)),
{
    if cond {
        out.push(labelled(label, value));
        assert(texts(out@) =~= texts(old(out)@) + opt_line(cond, line(label@, value@)));
    } else {
        assert(texts(out@) =~= texts(old(out)@) + opt_line(cond, line(label@, value@)));
    }
}

/// Appends a line for a field that is present, when `cond` holds.
fn push_field(out: &mut Vec<String>, cond: bool, label: &str, value: &Option<String>)
    ensures
        texts(final(out)@) == texts(old(out)@) + opt_line(
            cond && value is Some,
            line(label@, opt_view(*value).unwrap()),
        ),
{
    match value {
        Some(v) => push_line_if(out, cond, label, v.as_str()),
        None => {
            assert(texts(out@) =~= texts(old(out)@) + opt_line(
                cond && value is Some,
                line(label@, opt_view(*value).unwrap()),
            ));
        },
    }
}

fn labelled(label: &str, value: &str) -> (r: String)
    ensures
        r@ == line(label@, value@),
{
    let mut cs = chars_of(label);
    let mut v = chars_of(value);
    cs.append(&mut v);
    string_of(&cs)
}

fn artists_line(artists: &Vec<Artist>, full: bool) -> (r: String)
    ensures
        r@ == artists_text(artists@, full),
{
    let mut cs: Vec<char> = Vec::new();
    let mut i: usize = 0;
    while i < artists.len()
        invariant
            i <= artists@.len(),
            cs@ == artists_text(artists@.subrange(0, i as int), full),
        decreases artists@.len() - i,
    {
        let ghost pre = artists@.subrange(0, i as int);
        let ghost next = artists@.subrange(0, i + 1);
        assert(next.drop_last() =~= pre);
        assert(next.last() == artists@[i as int]);
        if i > 0 {
            cs.push(',');
            cs.push(' ');
        }
        let a = &artists[i];
        let mut name = chars_of(a.artist_name.as_str());
        cs.append(&mut name);
        match &a.artist_mb_id {
            Some(id) => {
                if full {
                    cs.push(' ');
                    cs.push('[');
                    let mut ic = chars_of(id.as_str());
                    cs.append(&mut ic);
                    cs.push(']');
                }
            },
            None => {},
        }
        if i == 0 {
            assert(next =~= seq![artists@[0]]);
        }
        assert(cs@ =~= artists_text(next, full));
        i = i + 1;
    }
    assert(artists@.subrange(0, i as int) =~= artists@);
    string_of(&cs)
}

impl Status {
    /// The times of the status in words, raw or on the machine's clock.
    pub fn display_times(&self, raw: bool) -> (r: DisplayTimes)
        ensures
            self.item.played_time is Some <==> r.played is Some,
            self.expiry is Some <==> r.expiry is Some,
            raw ==> r.time@ == raw_time_spec(self.time),
            raw ==> (self.item.played_time matches Some(t) ==> opt_view(r.played) == Some(
                raw_time_spec(t),
            )),
            raw ==> (self.expiry matches Some(t) ==> opt_view(r.expiry) == Some(raw_time_spec(t))),
    {
        DisplayTimes {
            played: match self.item.played_time {
                Some(t) => Some(time_text(t, raw)),
                None => None,
            },
            time: time_text(self.time, raw),
            expiry: match self.expiry {
                Some(t) => Some(time_text(t, raw)),
                None => None,
            },
        }
    }

    /// The duration as shown: the seconds when raw, else `hh:mm:ss`.
    pub fn duration_display(&self, raw: bool) -> (r: String)
        ensures
            self.item.duration matches Some(d) ==> r@ == (if raw {
                signed_decimal(d as int)
            } else {
                duration_text(d as int)
            }),
    {
        match self.item.duration {
            Some(d) => if raw {
                signed_decimal_text(d)
            } else {
                format_duration(d)
            },
            None => String::new(),
        }
    }

    /// The lines that show the status at `now`, with the times of the record
    /// when all fields are asked for: "nothing playing" when the
    /// item names nothing or has lapsed, unless raw output is asked for;
    /// otherwise the track, then each field that is present, the
    /// identifiers and times of the record only when all fields are asked
    /// for.
    pub fn display(&self, raw: bool, full: bool, now: Timestamp, times: &DisplayTimes) -> (r: Vec<String>)
        ensures
            texts(r@) == display_spec(*self, raw, full, now, *times, self.duration_display_spec(raw), true),
    {
        self.lines(raw, full, now, times, true)
    }

    /// The lines of the status, with or without the times of the record
    /// itself.
    fn lines(&self, raw: bool, full: bool, now: Timestamp, times: &DisplayTimes, with_times: bool) -> (r: Vec<String>)
        ensures
            texts(r@) == display_spec(*self, raw, full, now, *times, self.duration_display_spec(raw), with_times),
    {
        let mut out: Vec<String> = Vec::new();
        if self.nothing_playing(raw, now) {
            out.push("nothing playing right now".to_string());
            assert(texts(out@) =~= seq![nothing_line()]);
            return out;
        }
        let it = &self.item;
        out.push(labelled("track: ", it.track_name.as_str()));
        assert(texts(out@) =~= seq![line("track: "@, it.track_name@)]);
        push_field(&mut out, full, "track id: ", &it.track_mb_id);
        push_field(&mut out, full, "recording id: ", &it.recording_mb_id);
        let show_artists = it.artists.len() > 0 || raw;
        let a = artists_line(&it.artists, full);
        push_line_if(&mut out, show_artists, "artists: ", a.as_str());
        push_field(&mut out, true, "release: ", &it.release_name);
        push_field(&mut out, full, "release id: ", &it.release_mb_id);
        push_field(&mut out, full, "isrc: ", &it.isrc);
        push_field(&mut out, it.played_time.is_some(), "played: ", &times.played);
        let d = self.duration_display(raw);
        push_line_if(&mut out, it.duration.is_some(), "duration: ", d.as_str());
        push_field(&mut out, full, "service: ", &it.music_service_base_domain);
        push_field(&mut out, full, "client: ", &it.submission_client_agent);
        push_line_if(&mut out, with_times && full, "time: ", times.time.as_str());
        push_field(&mut out, with_times && full && self.expiry.is_some(), "expiry: ", &times.expiry);
        out
    }

    pub open spec fn duration_display_spec(&self, raw: bool) -> Seq<char> {
        match self.item.duration {
            Some(d) => if raw {
                signed_decimal(d as int)
            } else {
                duration_text(d as int)
            },
            None => seq![],
        }
    }
}

impl StatusManager {
    /// The lines that show what a status read found at `now`: "nothing
    /// playing" when there is no status record, else those of
    /// `Status::display`.
    pub fn display_found(found: &Option<Status>, raw: bool, full: bool, now: Timestamp, times: &DisplayTimes) -> (r: Vec<String>)
        ensures
            found is None ==> texts(r@) == seq![nothing_line()],
            found matches Some(s) ==> texts(r@) == display_spec(
                *s,
                raw,
                full,
                now,
                *times,
                s.duration_display_spec(raw),
                true,
            ),
    {
        match found {
            Some(s) => s.display(raw, full, now, times),
            None => {
                let mut out: Vec<String> = Vec::new();
                out.push("nothing playing right now".to_string());
                assert(texts(out@) =~= seq![nothing_line()]);
                out
            },
        }
    }

    /// The lines that show a status of this account at `now`: those of
    /// `Status::display`, without the times of the record itself.
    pub fn display_status(&self, status: &Status, raw: bool, full: bool, now: Timestamp, times: &DisplayTimes) -> (r: Vec<String>)
        ensures
            texts(r@) == display_spec(*status, raw, full, now, *times, status.duration_display_spec(raw), false),
    {
        status.lines(raw, full, now, times, false)
    }
}

/// A cleared status, once read back, shows as nothing playing: whatever
/// the time of the display, the fields asked for and the times in words.
pub proof fn cleared_status_displays_nothing(
    s: Status,
    issued: Timestamp,
    full: bool,
    now: Timestamp,
    times: DisplayTimes,
)
    requires
        crate::status::is_cleared_status(s, issued),
    ensures
        display_spec(s, false, full, now, times, s.duration_display_spec(false), true) == seq![
            nothing_line(),
        ],
        display_spec(s, false, full, now, times, s.duration_display_spec(false), false) == seq![
            nothing_line(),
        ],
{
}

} // verus!
