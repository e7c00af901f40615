//! The scrobble log format: a block of `#` header lines, then one
//! tab-separated entry per line.
use vstd::prelude::*;
use crate::error::ParserError;
use crate::text::{
    chars_equal, chars_of, parse_i64, parse_i64_spec, split_chars, split_spec, string_of,
    strip_prefix, strip_prefix_spec, views, lemma_split_nonempty,
};

pub mod audio_scrobbler;

verus! {

/// Whether a track was listened to or skipped.
#[derive(Debug, Clone, Copy, PartialEq, Eq, Structural)]
pub enum ScrobbleRating {
    Listened,
    Skipped,
}

/// One header line of a log.
#[derive(Debug)]
pub enum LogHeaderEntry {
    Version(String),
    TimeZone(String),
    ClientId(String),
    Unknown(()),
}

/// An artist as a log names it.
pub type ParsedArtist = crate::record::Artist;

/// A track as a log describes it, ready to be submitted.
pub type ParsedTrack = crate::record::Play;

/// One entry line of a log.
#[derive(Debug)]
pub struct Scrobble {
    pub artist_name: String,
    pub album_name: Option<String>,
    pub track_name: String,
    pub track_num: Option<i64>,
    pub duration: i64,
    pub rating: ScrobbleRating,
    pub timestamp: i64,
    pub mb_track_id: Option<String>,
}

/// A parsed log.
#[derive(Debug)]
pub struct ScrobbleLog {
    pub version: String,
    pub timezone: Option<String>,
    pub client_id: Option<String>,
    pub entries: Vec<Scrobble>,
}

/// What an entry line holds.
pub struct ScrobbleModel {
    pub artist_name: Seq<char>,
    pub album_name: Option<Seq<char>>,
    pub track_name: Seq<char>,
    pub track_num: Option<int>,
    pub duration: int,
    pub rating: ScrobbleRating,
    pub timestamp: int,
    pub mb_track_id: Option<Seq<char>>,
}

/// What a whole log holds.
pub struct LogModel {
    pub version: Seq<char>,
    pub timezone: Option<Seq<char>>,
    pub client_id: Option<Seq<char>>,
    pub entries: Seq<ScrobbleModel>,
}

/// Why a log is rejected.
pub enum LogFault {
    MissingVersion,
    BadEntry,
}

pub open spec fn opt_view(o: Option<String>) -> Option<Seq<char>> {
    match o {
        Some(s) => Some(s@),
        None => None,
    }
}

impl View for Scrobble {
    type V = ScrobbleModel;

    open spec fn view(&self) -> ScrobbleModel {
        ScrobbleModel {
            artist_name: self.artist_name@,
            album_name: opt_view(self.album_name),
            track_name: self.track_name@,
            track_num: match self.track_num {
                Some(n) => Some(n as int),
                None => None,
            },
            duration: self.duration as int,
            rating: self.rating,
            timestamp: self.timestamp as int,
            mb_track_id: opt_view(self.mb_track_id),
        }
    }
}

pub open spec fn entries_view(es: Seq<Scrobble>) -> Seq<ScrobbleModel> {
    es.map_values(|e: Scrobble| e@)
}

impl View for ScrobbleLog {
    type V = LogModel;

    open spec fn view(&self) -> LogModel {
        LogModel {
            version: self.version@,
            timezone: opt_view(self.timezone),
            client_id: opt_view(self.client_id),
            entries: entries_view(self.entries@),
        }
    }
}

pub open spec fn version_prefix() -> Seq<char> {
    seq!['#', 'A', 'U', 'D', 'I', 'O', 'S', 'C', 'R', 'O', 'B', 'B', 'L', 'E', 'R', '/']
}

pub open spec fn timezone_prefix() -> Seq<char> {
    seq!['#', 'T', 'Z', '/']
}

pub open spec fn client_prefix() -> Seq<char> {
    seq!['#', 'C', 'L', 'I', 'E', 'N', 'T', '/']
}

/// The version that selects the entry format with a track identifier.
pub open spec fn version_with_track_id() -> Seq<char> {
    seq!['1', '.', '1']
}

/// The message of a log without a version header.
pub open spec fn missing_version_message() -> Seq<char> {
    seq![
        'L', 'o', 'g', ' ', 'v', 'e', 'r', 's', 'i', 'o', 'n', ' ', 'n', 'o', 't', ' ', 's', 'p',
        'e', 'c', 'i', 'f', 'i', 'e', 'd',
    ]
}

pub open spec fn unknown_timezone() -> Seq<char> {
    seq!['U', 'N', 'K', 'N', 'O', 'W', 'N']
}

pub open spec fn header_version(line: Seq<char>) -> Option<Seq<char>> {
    strip_prefix_spec(line, version_prefix())
}

pub open spec fn header_timezone(line: Seq<char>) -> Option<Seq<char>> {
    if header_version(line) is None {
        strip_prefix_spec(line, timezone_prefix())
    } else {
        None
    }
}

pub open spec fn header_client(line: Seq<char>) -> Option<Seq<char>> {
    if header_version(line) is None && header_timezone(line) is None {
        strip_prefix_spec(line, client_prefix())
    } else {
        None
    }
}

/// The value of the last version header among `hs`.
pub open spec fn last_version(hs: Seq<Seq<char>>) -> Option<Seq<char>>
    decreases hs.len(),
{
    if hs.len() == 0 {
        None
    } else {
        match header_version(hs.last()) {
            Some(v) => Some(v),
            None => last_version(hs.drop_last()),
        }
    }
}

/// The value of the last time zone header among `hs`.
pub open spec fn last_timezone(hs: Seq<Seq<char>>) -> Option<Seq<char>>
    decreases hs.len(),
{
    if hs.len() == 0 {
        None
    } else {
        match header_timezone(hs.last()) {
            Some(v) => Some(v),
            None => last_timezone(hs.drop_last()),
        }
    }
}

/// The value of the last client header among `hs`.
pub open spec fn last_client(hs: Seq<Seq<char>>) -> Option<Seq<char>>
    decreases hs.len(),
{
    if hs.len() == 0 {
        None
    } else {
        match header_client(hs.last()) {
            Some(v) => Some(v),
            None => last_client(hs.drop_last()),
        }
    }
}

/// The time zone that the headers leave: the last time zone header, unless
/// it names no zone.
pub open spec fn timezone_of(hs: Seq<Seq<char>>) -> Option<Seq<char>> {
    match last_timezone(hs) {
        Some(tz) => if tz == unknown_timezone() {
            None
        } else {
            Some(tz)
        },
        None => None,
    }
}

/// The lines of a text as `BufRead::read_line` hands them out, without
/// their line feed.
pub open spec fn lines_spec(text: Seq<char>) -> Seq<Seq<char>> {
    let p = split_spec(text, '\n');
    if p.last().len() == 0 {
        p.drop_last()
    } else {
        p
    }
}

pub open spec fn is_header_line(line: Seq<char>) -> bool {
    line.len() > 0 && line[0] == '#'
}

/// The index of the first line, from `i` on, that is no header.
pub open spec fn header_end_from(ls: Seq<Seq<char>>, i: int) -> int
    decreases ls.len() - i,
{
    if 0 <= i < ls.len() && is_header_line(ls[i]) {
        header_end_from(ls, i + 1)
    } else {
        i
    }
}

pub open spec fn nonempty_lines(ls: Seq<Seq<char>>) -> Seq<Seq<char>>
    decreases ls.len(),
{
    if ls.len() == 0 {
        seq![]
    } else if ls.last().len() == 0 {
        nonempty_lines(ls.drop_last())
    } else {
        nonempty_lines(ls.drop_last()).push(ls.last())
    }
}

/// The entry lines: every line after the headers that is not empty.
pub open spec fn entry_lines(ls: Seq<Seq<char>>, h: int) -> Seq<Seq<char>> {
    nonempty_lines(ls.subrange(h, ls.len() as int))
}

pub open spec fn rating_spec(s: Seq<char>) -> Option<ScrobbleRating> {
    if s == seq!['L'] {
        Some(ScrobbleRating::Listened)
    } else if s == seq!['S'] {
        Some(ScrobbleRating::Skipped)
    } else {
        None
    }
}

pub open spec fn optional_spec(s: Seq<char>) -> Option<Seq<char>> {
    if s.len() == 0 {
        None
    } else {
        Some(s)
    }
}

pub open spec fn optional_int_spec(s: Seq<char>) -> Option<int> {
    if s.len() == 0 {
        None
    } else {
        parse_i64_spec(s)
    }
}

/// An entry line: fields separated by tabs, of which the first seven are
/// read, and an eighth, the track identifier, where `with_id` holds.
pub open spec fn entry_spec(line: Seq<char>, with_id: bool) -> Option<ScrobbleModel> {
    let f = split_spec(line, '\t');
    if f.len() < 7 || (with_id && f.len() < 8) {
        None
    } else if parse_i64_spec(f[4]) is None || rating_spec(f[5]) is None || parse_i64_spec(f[6]) is None {
        None
    } else {
        Some(
            ScrobbleModel {
                artist_name: f[0],
                album_name: optional_spec(f[1]),
                track_name: f[2],
                track_num: optional_int_spec(f[3]),
                duration: parse_i64_spec(f[4]).unwrap(),
                rating: rating_spec(f[5]).unwrap(),
                timestamp: parse_i64_spec(f[6]).unwrap(),
                mb_track_id: if with_id {
                    optional_spec(f[7])
                } else {
                    None
                },
            },
        )
    }
}

pub open spec fn entries_spec(ls: Seq<Seq<char>>, with_id: bool) -> Option<Seq<ScrobbleModel>>
    decreases ls.len(),
{
    if ls.len() == 0 {
        Some(seq![])
    } else {
        match entries_spec(ls.drop_last(), with_id) {
            Some(prev) => match entry_spec(ls.last(), with_id) {
                Some(e) => Some(prev.push(e)),
                None => None,
            },
            None => None,
        }
    }
}

/// A whole log: the headers up to the first line that is no header, which
/// must name a version, then the entries.
pub open spec fn log_spec(text: Seq<char>) -> Result<LogModel, LogFault> {
    let ls = lines_spec(text);
    let h = header_end_from(ls, 0);
    let hs = ls.subrange(0, h);
    match last_version(hs) {
        None => Err(LogFault::MissingVersion),
        Some(v) => match entries_spec(entry_lines(ls, h), v == version_with_track_id()) {
            None => Err(LogFault::BadEntry),
            Some(es) => Ok(
                LogModel {
                    version: v,
                    timezone: timezone_of(hs),
                    client_id: last_client(hs),
                    entries: es,
                },
            ),
        },
    }
}

proof fn lemma_entries_prefix_fails(a: Seq<Seq<char>>, b: Seq<Seq<char>>, with_id: bool)
    requires
        entries_spec(a, with_id) is None,
    ensures
        entries_spec(a + b, with_id) is None,
    decreases b.len(),
{
    if b.len() == 0 {
        assert(a + b =~= a);
    } else {
        lemma_entries_prefix_fails(a, b.drop_last(), with_id);
        assert((a + b).drop_last() =~= a + b.drop_last());
    }
}

proof fn lemma_nonempty_concat(a: Seq<Seq<char>>, b: Seq<Seq<char>>)
    ensures
        nonempty_lines(a + b) == nonempty_lines(a) + nonempty_lines(b),
    decreases b.len(),
{
    if b.len() == 0 {
        assert(a + b =~= a);
        assert(nonempty_lines(a) + nonempty_lines(b) =~= nonempty_lines(a));
    } else {
        lemma_nonempty_concat(a, b.drop_last());
        assert((a + b).drop_last() =~= a + b.drop_last());
        assert((a + b).last() == b.last());
        if b.last().len() == 0 {
        } else {
            assert(nonempty_lines(a) + nonempty_lines(b.drop_last()).push(b.last())
                =~= (nonempty_lines(a) + nonempty_lines(b.drop_last())).push(b.last()));
        }
    }
}

proof fn lemma_header_end_bounds(ls: Seq<Seq<char>>, i: int)
    requires
        0 <= i <= ls.len(),
    ensures
        i <= header_end_from(ls, i) <= ls.len(),
        forall|j: int| i <= j < header_end_from(ls, i) ==> is_header_line(#[trigger] ls[j]),
        header_end_from(ls, i) < ls.len() ==> !is_header_line(ls[header_end_from(ls, i)]),
    decreases ls.len() - i,
{
    if i < ls.len() && is_header_line(ls[i]) {
        lemma_header_end_bounds(ls, i + 1);
    }
}

pub fn version_prefix_chars() -> (r: Vec<char>)
    ensures
        r@ == version_prefix(),
{
    let r = vec!['#', 'A', 'U', 'D', 'I', 'O', 'S', 'C', 'R', 'O', 'B', 'B', 'L', 'E', 'R', '/'];
    assert(r@ =~= version_prefix());
    r
}

/// Classifies one header line.
fn header_of(line: &Vec<char>) -> (r: LogHeaderEntry)
    ensures
        r is Version <==> header_version(line@) is Some,
        r is TimeZone <==> header_timezone(line@) is Some,
        r is ClientId <==> header_client(line@) is Some,
        r matches LogHeaderEntry::Version(v) ==> header_version(line@) == Some(v@),
        r matches LogHeaderEntry::TimeZone(v) ==> header_timezone(line@) == Some(v@),
        r matches LogHeaderEntry::ClientId(v) ==> header_client(line@) == Some(v@),
{
    let vp = version_prefix_chars();
    if let Some(rest) = strip_prefix(line, &vp) {
        return LogHeaderEntry::Version(string_of(&rest));
    }
    let tp = vec!['#', 'T', 'Z', '/'];
    assert(tp@ =~= timezone_prefix());
    if let Some(rest) = strip_prefix(line, &tp) {
        return LogHeaderEntry::TimeZone(string_of(&rest));
    }
    let cp = vec!['#', 'C', 'L', 'I', 'E', 'N', 'T', '/'];
    assert(cp@ =~= client_prefix());
    if let Some(rest) = strip_prefix(line, &cp) {
        return LogHeaderEntry::ClientId(string_of(&rest));
    }
    LogHeaderEntry::Unknown(())
}

fn optional_string(s: &Vec<char>) -> (r: Option<String>)
    ensures
        opt_view(r) == optional_spec(s@),
{
    if s.len() == 0 {
        None
    } else {
        Some(string_of(s))
    }
}

fn optional_int(s: &Vec<char>) -> (r: Option<i64>)
    ensures
        match r {
            Some(n) => optional_int_spec(s@) == Some(n as int),
            None => optional_int_spec(s@) is None,
        },
{
    if s.len() == 0 {
        None
    } else {
        parse_i64(s)
    }
}

fn rating_of(s: &Vec<char>) -> (r: Option<ScrobbleRating>)
    ensures
        r == rating_spec(s@),
{
    let l = vec!['L'];
    let sk = vec!['S'];
    assert(l@ =~= seq!['L']);
    assert(sk@ =~= seq!['S']);
    if chars_equal(s, &l) {
        Some(ScrobbleRating::Listened)
    } else if chars_equal(s, &sk) {
        Some(ScrobbleRating::Skipped)
    } else {
        None
    }
}

fn syntax_error(message: &str) -> (r: ParserError)
    ensures
        r is Syntax,
{
    ParserError::Syntax(message.to_string())
}

/// Reads one entry line.
fn entry_of(line: &Vec<char>, with_id: bool) -> (r: Result<Scrobble, ParserError>)
    ensures
        match r {
            Ok(e) => entry_spec(line@, with_id) == Some(e@),
            Err(e) => entry_spec(line@, with_id) is None && e is Syntax,
        },
{
    let f = split_chars(line, '\t');
    proof {
        lemma_split_nonempty(line@, '\t');
    }
    let ghost fv = split_spec(line@, '\t');
    assert(views(f@) == fv);
    assert(forall|k: int| 0 <= k < f@.len() ==> #[trigger] f@[k]@ == fv[k]);
    if f.len() < 7 || (with_id && f.len() < 8) {
        return Err(syntax_error("entry has too few fields"));
    }
    let duration = match parse_i64(&f[4]) {
        Some(d) => d,
        None => {
            return Err(syntax_error("entry duration is not an integer"));
        },
    };
    let rating = match rating_of(&f[5]) {
        Some(r) => r,
        None => {
            return Err(syntax_error("Entry rating must be 'L' or 'S'"));
        },
    };
    let timestamp = match parse_i64(&f[6]) {
        Some(t) => t,
        None => {
            return Err(syntax_error("entry timestamp is not an integer"));
        },
    };
    let mb_track_id = if with_id {
        optional_string(&f[7])
    } else {
        None
    };
    let e = Scrobble {
        artist_name: string_of(&f[0]),
        album_name: optional_string(&f[1]),
        track_name: string_of(&f[2]),
        track_num: optional_int(&f[3]),
        duration,
        rating,
        timestamp,
        mb_track_id,
    };
    Ok(e)
}

/// The lines of `text`, as `lines_spec` gives them.
fn lines_of(text: &Vec<char>) -> (r: Vec<Vec<char>>)
    ensures
        views(r@) == lines_spec(text@),
{
    let mut p = split_chars(text, '\n');
    proof {
        lemma_split_nonempty(text@, '\n');
    }
    let last = p.len() - 1;
    if p[last].len() == 0 {
        p.pop();
        assert(views(p@) =~= split_spec(text@, '\n').drop_last());
    }
    p
}

impl ScrobbleLog {
    /// Classifies a header line by its prefix; the value is what follows it.
    pub fn parse_header(line: &str) -> (r: LogHeaderEntry)
        ensures
            r is Version <==> header_version(line@) is Some,
            r is TimeZone <==> header_timezone(line@) is Some,
            r is ClientId <==> header_client(line@) is Some,
            r matches LogHeaderEntry::Version(v) ==> header_version(line@) == Some(v@),
            r matches LogHeaderEntry::TimeZone(v) ==> header_timezone(line@) == Some(v@),
            r matches LogHeaderEntry::ClientId(v) ==> header_client(line@) == Some(v@),
    {
        header_of(&chars_of(line))
    }

    /// `None` for an empty field, else the field.
    pub fn parse_optional_string(s: &str) -> (r: Option<String>)
        ensures
            opt_view(r) == optional_spec(s@),
    {
        optional_string(&chars_of(s))
    }

    /// `None` for an empty field or one that is no integer, else its value.
    pub fn parse_optional_i64(s: &str) -> (r: Option<i64>)
        ensures
            match r {
                Some(n) => optional_int_spec(s@) == Some(n as int),
                None => optional_int_spec(s@) is None,
            },
    {
        optional_int(&chars_of(s))
    }

    /// `L` is a listen, `S` a skip; anything else is rejected.
    pub fn parse_rating(s: &str) -> (r: Result<ScrobbleRating, ParserError>)
        ensures
            match r {
                Ok(v) => rating_spec(s@) == Some(v),
                Err(e) => rating_spec(s@) is None && e is Syntax,
            },
    {
        match rating_of(&chars_of(s)) {
            Some(v) => Ok(v),
            None => Err(syntax_error("Entry rating must be 'L' or 'S'")),
        }
    }

    /// The time zone header value `UNKNOWN` names no zone.
    pub fn parse_timezone(s: String) -> (r: Option<String>)
        ensures
            match r {
                Some(t) => t@ == s@ && s@ != unknown_timezone(),
                None => s@ == unknown_timezone(),
            },
    {
        let u = vec!['U', 'N', 'K', 'N', 'O', 'W', 'N'];
        assert(u@ =~= unknown_timezone());
        if chars_equal(&chars_of(s.as_str()), &u) {
            None
        } else {
            Some(s)
        }
    }

    /// Reads one entry line of a log of the given version.
    pub fn parse_entry(line: &str, version: &String) -> (r: Result<Scrobble, ParserError>)
        ensures
            match r {
                Ok(e) => entry_spec(line@, version@ == version_with_track_id()) == Some(e@),
                Err(e) => entry_spec(line@, version@ == version_with_track_id()) is None
                    && e is Syntax,
            },
    {
        let v = vec!['1', '.', '1'];
        assert(v@ =~= version_with_track_id());
        let with_id = chars_equal(&chars_of(version.as_str()), &v);
        entry_of(&chars_of(line), with_id)
    }

    /// Reads a whole log.
    pub fn parse(text: &str) -> (r: Result<Self, ParserError>)
        ensures
            match r {
                Ok(log) => log_spec(text@) == Ok::<LogModel, LogFault>(log@),
                Err(ParserError::Other(m)) => log_spec(text@) == Err::<LogModel, LogFault>(
                    LogFault::MissingVersion,
                ) && m@ == missing_version_message(),
                Err(ParserError::Syntax(_)) => log_spec(text@) == Err::<LogModel, LogFault>(
                    LogFault::BadEntry,
                ),
                Err(ParserError::Io(_)) => false,
            },
    {
        let chars = chars_of(text);
        let lines = lines_of(&chars);
        let ghost ls = lines_spec(text@);
        assert(forall|k: int| 0 <= k < lines@.len() ==> #[trigger] lines@[k]@ == ls[k]);
        let n = lines.len();
        let ghost h = header_end_from(ls, 0);
        proof {
            lemma_header_end_bounds(ls, 0);
        }
        let mut version: Option<String> = None;
        let mut tz_raw: Option<String> = None;
        let mut client_id: Option<String> = None;
        let mut i: usize = 0;
        while i < n && lines[i].len() > 0 && lines[i][0] == '#'
            invariant
                n == ls.len(),
                views(lines@) == ls,
                0 <= i <= h <= n,
                header_end_from(ls, i as int) == h,
                opt_view(version) == last_version(ls.subrange(0, i as int)),
                opt_view(tz_raw) == last_timezone(ls.subrange(0, i as int)),
                opt_view(client_id) == last_client(ls.subrange(0, i as int)),
            decreases n - i,
        {
            let ghost pre = ls.subrange(0, i as int);
            let ghost next = ls.subrange(0, i + 1);
            assert(next.drop_last() =~= pre);
            assert(next.last() == lines@[i as int]@);
            assert(is_header_line(ls[i as int]));
            proof {
                lemma_header_end_bounds(ls, i + 1);
            }
            match header_of(&lines[i]) {
                LogHeaderEntry::Version(v) => {
                    version = Some(v);
                },
                LogHeaderEntry::TimeZone(t) => {
                    tz_raw = Some(t);
                },
                LogHeaderEntry::ClientId(c) => {
                    client_id = Some(c);
                },
                LogHeaderEntry::Unknown(_) => {},
            }
            i = i + 1;
        }
        assert(i == h);
        let ghost hs = ls.subrange(0, h);
        let version = match version {
            Some(v) => v,
            None => {
                let m = "Log version not specified";
                proof {
                    reveal_strlit("Log version not specified");
                }
                assert(m@ =~= missing_version_message());
                return Err(ParserError::Other(crate::text::string_of(&chars_of(m))));
            },
        };
        let timezone = match tz_raw {
            Some(t) => ScrobbleLog::parse_timezone(t),
            None => None,
        };
        let vv = vec!['1', '.', '1'];
        assert(vv@ =~= version_with_track_id());
        let with_id = chars_equal(&chars_of(version.as_str()), &vv);
        let ghost el = entry_lines(ls, h);
        let mut entries: Vec<Scrobble> = Vec::new();
        let mut j: usize = i;
        assert(ls.subrange(h, h) =~= Seq::<Seq<char>>::empty());
        while j < n
            invariant
                n == ls.len(),
                views(lines@) == ls,
                h == i,
                i <= j <= n,
                ls == lines_spec(text@),
                h == header_end_from(ls, 0),
                last_version(ls.subrange(0, h)) == Some(version@),
                with_id == (version@ == version_with_track_id()),
                el == entry_lines(ls, h),
                entries_spec(nonempty_lines(ls.subrange(h, j as int)), with_id) == Some(
                    entries_view(entries@),
                ),
            decreases n - j,
        {
            let ghost pre = ls.subrange(h, j as int);
            let ghost next = ls.subrange(h, j + 1);
            assert(next.drop_last() =~= pre);
            assert(next.last() == ls[j as int]);
            assert(lines@[j as int]@ == ls[j as int]);
            if lines[j].len() > 0 {
                let ghost acc = nonempty_lines(pre);
                assert(nonempty_lines(next) == acc.push(ls[j as int]));
                assert((acc.push(ls[j as int])).drop_last() =~= acc);
                match entry_of(&lines[j], with_id) {
                    Ok(e) => {
                        entries.push(e);
                        assert(entries_view(entries@) =~= entries_view(entries@).drop_last().push(e@));
                    },
                    Err(e) => {
                        proof {
                            let rest = ls.subrange(j + 1, n as int);
                            assert(ls.subrange(h, n as int) =~= next + rest);
                            lemma_nonempty_concat(next, rest);
                            assert(entries_spec(acc.push(ls[j as int]), with_id) is None);
                            lemma_entries_prefix_fails(acc.push(ls[j as int]), nonempty_lines(rest), with_id);
                            assert(entries_spec(el, with_id) is None);
                            assert(log_spec(text@) == Err::<LogModel, LogFault>(LogFault::BadEntry));
                        }
                        return Err(e);
                    },
                }
            } else {
                assert(nonempty_lines(next) == nonempty_lines(pre));
            }
            j = j + 1;
        }
        assert(ls.subrange(h, n as int) =~= ls.subrange(h, j as int));
        assert(entries_spec(el, with_id) == Some(entries_view(entries@)));
        assert(last_version(hs) == Some(version@));
        assert(timezone_of(hs) == opt_view(timezone));
        assert(last_client(hs) == opt_view(client_id));
        let log = ScrobbleLog { version, timezone, client_id, entries };
        assert(log_spec(text@) == Ok::<LogModel, LogFault>(log@));
        Ok(log)
    }
}

} // verus!
