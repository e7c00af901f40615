//! Submitting plays: provenance stamping, and the outcome of each record of
//! a batch, in order, without stopping at a failure.
use vstd::prelude::*;
use crate::error::OnyxError;
use crate::parser::opt_view;
use crate::record::Play;
use crate::text::{chars_of, string_of};

verus! {

/// Stamps plays with the client that submits them.
#[derive(Debug)]
pub struct Scrobbler {
    pub service: String,
    pub version: String,
}

/// `<service>/<version>`, followed by ` (<id>)` when the record names its
/// source.
pub open spec fn client_agent_spec(service: Seq<char>, version: Seq<char>, id: Option<Seq<char>>) -> Seq<char> {
    match id {
        Some(i) => service + seq!['/'] + version + seq![' ', '('] + i + seq![')'],
        None => service + seq!['/'] + version,
    }
}

/// The service domain of plays that name none.
pub open spec fn local_domain() -> Seq<char> {
    seq!['l', 'o', 'c', 'a', 'l']
}

/// `v` followed by the package version.
pub open spec fn client_version_spec(pkg_version: Seq<char>) -> Seq<char> {
    seq!['v'] + pkg_version
}

/// The version a client reports: the package version after a `v`.
pub fn generate_client_version(pkg_version: &str) -> (r: String)
    ensures
        r@ == client_version_spec(pkg_version@),
{
    let mut cs = vec!['v'];
    let mut rest = chars_of(pkg_version);
    cs.append(&mut rest);
    string_of(&cs)
}

/// What a failed submission reports: the error, then the track it was for.
pub open spec fn failure_text(error: Seq<char>, name: Seq<char>) -> Seq<char> {
    error + seq![',', ' ', 'f', 'o', 'r', ' ', '\''] + name + seq!['\'']
}

pub fn failure_message(error: &str, name: &str) -> (r: String)
    ensures
        r@ == failure_text(error@, name@),
{
    let mut cs = chars_of(error);
    let mut mid = vec![',', ' ', 'f', 'o', 'r', ' ', '\''];
    cs.append(&mut mid);
    let mut n = chars_of(name);
    cs.append(&mut n);
    cs.push('\'');
    string_of(&cs)
}

impl Scrobbler {
    pub fn new(service: &str, version: &str) -> (r: Self)
        ensures
            r.service@ == service@,
            r.version@ == version@,
    {
        Scrobbler { service: service.to_string(), version: version.to_string() }
    }

    /// The client agent stamped on a record whose source is `id`.
    pub fn generate_client_agent(&self, id: Option<String>) -> (r: String)
        ensures
            r@ == client_agent_spec(self.service@, self.version@, opt_view(id)),
    {
        let mut cs = chars_of(self.service.as_str());
        cs.push('/');
        let mut v = chars_of(self.version.as_str());
        cs.append(&mut v);
        match id {
            Some(i) => {
                cs.push(' ');
                cs.push('(');
                let mut ic = chars_of(i.as_str());
                cs.append(&mut ic);
                cs.push(')');
                assert(cs@ =~= client_agent_spec(self.service@, self.version@, opt_view(Some(i))));
            },
            None => {
                assert(cs@ =~= client_agent_spec(self.service@, self.version@, None));
            },
        }
        string_of(&cs)
    }

    /// The record as it is submitted: its client agent becomes this
    /// client's, with the record's own source as the id, and a record that
    /// names no service domain is marked `local`. Nothing else changes.
    pub fn generate_play(&self, track: Play) -> (r: Play)
        ensures
            r.submission_client_agent matches Some(a) && a@ == client_agent_spec(
                self.service@,
                self.version@,
                opt_view(track.submission_client_agent),
            ),
            r.music_service_base_domain matches Some(d) && d@ == match track.music_service_base_domain {
                Some(t) => t@,
                None => local_domain(),
            },
            r.track_name == track.track_name,
            r.track_mb_id == track.track_mb_id,
            r.recording_mb_id == track.recording_mb_id,
            r.duration == track.duration,
            r.artist_names == track.artist_names,
            r.artist_mb_ids == track.artist_mb_ids,
            r.artists == track.artists,
            r.release_name == track.release_name,
            r.release_mb_id == track.release_mb_id,
            r.isrc == track.isrc,
            r.origin_url == track.origin_url,
            r.played_time == track.played_time,
            r.track_discriminant == track.track_discriminant,
            r.release_discriminant == track.release_discriminant,
    {
        let agent = self.generate_client_agent(track.submission_client_agent);
        let domain = match track.music_service_base_domain {
            Some(d) => d,
            None => {
                let l = vec!['l', 'o', 'c', 'a', 'l'];
                assert(l@ =~= local_domain());
                string_of(&l)
            },
        };
        Play {
            track_name: track.track_name,
            track_mb_id: track.track_mb_id,
            recording_mb_id: track.recording_mb_id,
            duration: track.duration,
            artist_names: track.artist_names,
            artist_mb_ids: track.artist_mb_ids,
            artists: track.artists,
            release_name: track.release_name,
            release_mb_id: track.release_mb_id,
            isrc: track.isrc,
            origin_url: track.origin_url,
            music_service_base_domain: Some(domain),
            submission_client_agent: Some(agent),
            played_time: track.played_time,
            track_discriminant: track.track_discriminant,
            release_discriminant: track.release_discriminant,
        }
    }

    /// The result of submitting one track: success, or the error with the
    /// track's name.
    pub fn track_result(name: &str, outcome: Result<(), String>) -> (r: Result<(), OnyxError>)
        ensures
            outcome is Ok <==> r is Ok,
            outcome matches Err(e) ==> (r matches Err(OnyxError::Other(m)) && m@ == failure_text(
                e@,
                name@,
            )),
    {
        match outcome {
            Ok(()) => Ok(()),
            Err(e) => Err(OnyxError::Other(failure_message(e.as_str(), name))),
        }
    }
}

/// The outcome recorded for one record of a batch.
#[derive(Debug)]
pub struct ItemOutcome {
    pub name: String,
    pub error: Option<String>,
}

/// What an outcome says: the record's name, and the error if it failed.
pub struct OutcomeModel {
    pub name: Seq<char>,
    pub error: Option<Seq<char>>,
}

impl View for ItemOutcome {
    type V = OutcomeModel;

    open spec fn view(&self) -> OutcomeModel {
        OutcomeModel { name: self.name@, error: opt_view(self.error) }
    }
}

/// The outcomes of a batch whose records are named `names`, when the
/// submissions gave `errors`, one for each record in order.
pub open spec fn outcomes_of(names: Seq<Seq<char>>, errors: Seq<Option<Seq<char>>>) -> Seq<OutcomeModel> {
    Seq::new(errors.len(), |i: int| OutcomeModel { name: names[i], error: errors[i] })
}

pub open spec fn failure_count(os: Seq<OutcomeModel>) -> nat
    decreases os.len(),
{
    if os.len() == 0 {
        0
    } else {
        failure_count(os.drop_last()) + if os.last().error is Some {
            1nat
        } else {
            0nat
        }
    }
}

/// The messages of the failures among `os`, in order.
pub open spec fn failure_texts(os: Seq<OutcomeModel>) -> Seq<Seq<char>>
    decreases os.len(),
{
    if os.len() == 0 {
        seq![]
    } else {
        match os.last().error {
            Some(e) => failure_texts(os.drop_last()).push(failure_text(e, os.last().name)),
            None => failure_texts(os.drop_last()),
        }
    }
}

proof fn lemma_failure_texts_len(os: Seq<OutcomeModel>)
    ensures
        failure_texts(os).len() == failure_count(os),
    decreases os.len(),
{
    if os.len() > 0 {
        lemma_failure_texts_len(os.drop_last());
    }
}

/// A batch being submitted: the names of its records, and the outcome of
/// each record submitted so far, in order.
#[derive(Debug)]
pub struct Submission {
    names: Vec<String>,
    outcomes: Vec<ItemOutcome>,
    failures: usize,
}

impl Submission {
    pub closed spec fn names_view(&self) -> Seq<Seq<char>> {
        self.names@.map_values(|s: String| s@)
    }

    pub closed spec fn outcomes_view(&self) -> Seq<OutcomeModel> {
        self.outcomes@.map_values(|o: ItemOutcome| o@)
    }

    /// The errors recorded so far, in order.
    pub open spec fn errors_view(&self) -> Seq<Option<Seq<char>>> {
        self.outcomes_view().map_values(|o: OutcomeModel| o.error)
    }

    /// Each outcome so far carries the name of its record.
    pub closed spec fn wf(&self) -> bool {
        &&& self.outcomes@.len() <= self.names@.len()
        &&& self.outcomes_view() == outcomes_of(self.names_view(), self.errors_view())
        &&& self.failures == failure_count(self.outcomes_view())
    }

    pub open spec fn spec_complete(&self) -> bool {
        self.outcomes_view().len() == self.names_view().len()
    }

    /// A batch of the given records, none submitted yet.
    pub fn new(tracks: &Vec<Play>) -> (r: Self)
        ensures
            r.wf(),
            r.names_view().len() == tracks@.len(),
            forall|i: int| 0 <= i < tracks@.len() ==> r.names_view()[i] == (#[trigger] tracks@[i]).track_name@,
            r.outcomes_view().len() == 0,
    {
        let mut names: Vec<String> = Vec::new();
        let mut k: usize = 0;
        while k < tracks.len()
            invariant
                k <= tracks@.len(),
                names@.len() == k,
                forall|i: int| 0 <= i < k ==> (#[trigger] names@[i])@ == tracks@[i].track_name@,
            decreases tracks@.len() - k,
        {
            names.push(tracks[k].track_name.clone());
            k = k + 1;
        }
        let r = Submission { names, outcomes: Vec::new(), failures: 0 };
        assert(r.outcomes_view() =~= outcomes_of(r.names_view(), r.errors_view()));
        r
    }

    /// How many records the batch has.
    pub fn total(&self) -> (r: usize)
        ensures
            r == self.names_view().len(),
    {
        self.names.len()
    }

    /// Whether every record has an outcome.
    pub fn is_complete(&self) -> (r: bool)
        requires
            self.wf(),
        ensures
            r == self.spec_complete(),
    {
        self.outcomes.len() == self.names.len()
    }

    /// Records how the submission of the next record went, and moves on to
    /// the one after it whatever the outcome. Once every record has an
    /// outcome, nothing changes.
    pub fn record_result(&mut self, result: Result<(), String>)
        requires
            old(self).wf(),
        ensures
            final(self).wf(),
            final(self).names_view() == old(self).names_view(),
            old(self).spec_complete() ==> final(self).outcomes_view() == old(self).outcomes_view(),
            !old(self).spec_complete() ==> final(self).outcomes_view() == old(self).outcomes_view().push(
                OutcomeModel {
                    name: old(self).names_view()[old(self).outcomes_view().len() as int],
                    error: match result {
                        Ok(()) => None,
                        Err(e) => Some(e@),
                    },
                },
            ),
    {
        let i = self.outcomes.len();
        if i >= self.names.len() {
            return;
        }
        let name = self.names[i].clone();
        let failed = result.is_err();
        let error = match result {
            Ok(()) => None,
            Err(e) => Some(e),
        };
        let ghost before = self.outcomes_view();
        proof {
            lemma_failures_bounded(before);
        }
        self.outcomes.push(ItemOutcome { name, error });
        assert(self.outcomes_view() =~= before.push(self.outcomes@[i as int]@));
        assert(self.outcomes_view().drop_last() =~= before);
        if failed {
            self.failures = self.failures + 1;
        }
        assert(self.outcomes_view() =~= outcomes_of(self.names_view(), self.errors_view()));
    }

    /// How many records failed so far.
    pub fn failed(&self) -> (r: usize)
        requires
            self.wf(),
        ensures
            r == failure_count(self.outcomes_view()),
    {
        self.failures
    }

    /// How many records were submitted successfully so far.
    pub fn submitted(&self) -> (r: usize)
        requires
            self.wf(),
        ensures
            r == self.outcomes_view().len() - failure_count(self.outcomes_view()),
    {
        proof {
            lemma_failures_bounded(self.outcomes_view());
        }
        self.outcomes.len() - self.failures
    }

    /// The messages of the failures, in the order of their records.
    pub fn failure_messages(&self) -> (r: Vec<String>)
        requires
            self.wf(),
        ensures
            r@.map_values(|m: String| m@) == failure_texts(self.outcomes_view()),
            r@.len() == failure_count(self.outcomes_view()),
    {
        let mut out: Vec<String> = Vec::new();
        let mut k: usize = 0;
        while k < self.outcomes.len()
            invariant
                k <= self.outcomes@.len(),
                out@.map_values(|m: String| m@) == failure_texts(self.outcomes_view().subrange(0, k as int)),
            decreases self.outcomes@.len() - k,
        {
            let ghost pre = self.outcomes_view().subrange(0, k as int);
            let ghost next = self.outcomes_view().subrange(0, k + 1);
            assert(next.drop_last() =~= pre);
            assert(next.last() == self.outcomes@[k as int]@);
            let o = &self.outcomes[k];
            let ghost before = out@;
            match &o.error {
                Some(e) => {
                    out.push(failure_message(e.as_str(), o.name.as_str()));
                    assert(out@.map_values(|m: String| m@) =~= before.map_values(|m: String| m@).push(
                        failure_text(e@, o.name@),
                    ));
                },
                None => {},
            }
            k = k + 1;
        }
        assert(self.outcomes_view().subrange(0, k as int) =~= self.outcomes_view());
        proof {
            lemma_failure_texts_len(self.outcomes_view());
        }
        out
    }

    /// The result of the whole batch, once every record has an outcome:
    /// the number of records when none failed, else a failure.
    pub fn finish(&self) -> (r: Result<usize, OnyxError>)
        requires
            self.wf(),
        ensures
            r is Ok <==> failure_count(self.outcomes_view()) == 0,
            r matches Ok(n) ==> n == self.outcomes_view().len(),
            r matches Err(e) ==> e is Other,
    {
        if self.failures == 0 {
            Ok(self.outcomes.len())
        } else {
            Err(OnyxError::Other("some records of the batch failed, see the errors above".to_string()))
        }
    }
}

proof fn lemma_failures_bounded(os: Seq<OutcomeModel>)
    ensures
        failure_count(os) <= os.len(),
    decreases os.len(),
{
    if os.len() > 0 {
        lemma_failures_bounded(os.drop_last());
    }
}

/// Every record of a batch leaves exactly one outcome, in its place: a
/// success, or a failure that carries the record's name and its error.
pub proof fn every_record_has_an_outcome(names: Seq<Seq<char>>, errors: Seq<Option<Seq<char>>>)
    requires
        names.len() == errors.len(),
    ensures
        outcomes_of(names, errors).len() == names.len(),
        forall|i: int|
            0 <= i < names.len() ==> (#[trigger] outcomes_of(names, errors)[i]).name == names[i]
                && outcomes_of(names, errors)[i].error == errors[i],
{
}

proof fn lemma_single_failure_prefix(names: Seq<Seq<char>>, errors: Seq<Option<Seq<char>>>, k: int, m: int)
    requires
        names.len() == errors.len(),
        0 <= k < errors.len(),
        errors[k] is Some,
        forall|j: int| 0 <= j < errors.len() && j != k ==> (#[trigger] errors[j]) is None,
        0 <= m <= errors.len(),
    ensures
        failure_count(outcomes_of(names, errors).subrange(0, m)) == (if k < m {
            1nat
        } else {
            0nat
        }),
    decreases m,
{
    let os = outcomes_of(names, errors);
    if m > 0 {
        lemma_single_failure_prefix(names, errors, k, m - 1);
        assert(os.subrange(0, m).drop_last() =~= os.subrange(0, m - 1));
        assert(os.subrange(0, m).last() == os[m - 1]);
    } else {
        assert(os.subrange(0, m) =~= Seq::<OutcomeModel>::empty());
    }
}

/// A batch of `n` records of which only record `k` fails: `n - 1` records
/// are submitted, one fails, the batch as a whole fails, and every record
/// after `k` is still attempted.
pub proof fn single_failure_fails_batch(names: Seq<Seq<char>>, errors: Seq<Option<Seq<char>>>, k: int)
    requires
        names.len() == errors.len(),
        0 <= k < errors.len(),
        errors[k] is Some,
        forall|j: int| 0 <= j < errors.len() && j != k ==> (#[trigger] errors[j]) is None,
    ensures
        failure_count(outcomes_of(names, errors)) == 1,
        outcomes_of(names, errors).len() - failure_count(outcomes_of(names, errors)) == names.len()
            - 1,
        failure_count(outcomes_of(names, errors)) != 0,
        forall|j: int|
            k < j < names.len() ==> (#[trigger] outcomes_of(names, errors)[j]).name == names[j]
                && outcomes_of(names, errors)[j].error is None,
{
    let os = outcomes_of(names, errors);
    lemma_single_failure_prefix(names, errors, k, errors.len() as int);
    assert(os.subrange(0, errors.len() as int) =~= os);
}

} // verus!
