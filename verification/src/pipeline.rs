//! Pipeline orchestration: request parameters, the error taxonomy, and
//! result assembly.
//!
//! The orchestrator's effects — HTTP fetches, the concurrent per-player
//! fan-out, disk access — run outside this crate. What stands here are the
//! decisions: parsing and validating the request, degrading a failed
//! per-player fetch to an empty score list, recalculating a whole score
//! list, and assembling the per-player result map.

use vstd::prelude::*;

verus! {

/// Everything that can abort a pipeline run, or degrade part of it.
///
/// Per-player score-fetch failures are swallowed by the fan-out stage (see
/// [`scores_after_fetch`]); every other kind is fatal for the whole run.
#[derive(Debug)]
pub enum PipelineError {
    /// A caller-supplied mode, version or branch is out of range.
    InvalidParameter(String),
    /// Transport failure talking to the ranking or artifact origin.
    UpstreamUnavailable(String),
    /// An origin response failed to decode against the expected schema.
    UpstreamMalformed(String),
    /// The artifact cache directory could not be read or written.
    FilesystemFailure(String),
    /// Downloaded bytes are not a valid beatmap for the selected engine.
    ArtifactUnparseable(String),
}

/// The message carried by an error.
pub open spec fn spec_error_message(e: PipelineError) -> Seq<char> {
    match e {
        PipelineError::InvalidParameter(m) => m@,
        PipelineError::UpstreamUnavailable(m) => m@,
        PipelineError::UpstreamMalformed(m) => m@,
        PipelineError::FilesystemFailure(m) => m@,
        PipelineError::ArtifactUnparseable(m) => m@,
    }
}

impl PipelineError {
    /// The status code the HTTP boundary reports for this error: an invalid
    /// parameter is the caller's fault, everything else is answered as an
    /// internal failure.
    pub fn http_status(&self) -> (s: u16)
        ensures
            s == 400 <==> self is InvalidParameter,
            s == 400 || s == 500,
    {
        match self {
            PipelineError::InvalidParameter(_) => 400,
            _ => 500,
        }
    }

    /// A copy of the human-readable message.
    pub fn message(&self) -> (m: String)
        ensures
            m@ == spec_error_message(*self),
    {
        match self {
            PipelineError::InvalidParameter(m) => m.clone(),
            PipelineError::UpstreamUnavailable(m) => m.clone(),
            PipelineError::UpstreamMalformed(m) => m.clone(),
            PipelineError::FilesystemFailure(m) => m.clone(),
            PipelineError::ArtifactUnparseable(m) => m.clone(),
        }
    }
}

/// The parameters a run is asked for, already decoded.
#[derive(Clone, Copy, PartialEq, Eq, Structural, Debug)]
pub struct RequestParams {
    pub mode: u8,
    pub version: u8,
    pub rx: bool,
}

/// What a `u8` query parameter decodes to: its parsed value, or zero when
/// the parameter is absent or unparseable.
pub open spec fn spec_u8_param(s: Option<Seq<char>>) -> u8 {
    match s {
        Some(t) => match crate::text::spec_parse_u8(t) {
            Some(v) => v,
            None => 0,
        },
        None => 0,
    }
}

/// What a boolean query parameter decodes to: its parsed value, or false
/// when the parameter is absent or unparseable.
pub open spec fn spec_bool_param(s: Option<Seq<char>>) -> bool {
    match s {
        Some(t) => match crate::text::spec_parse_bool(t) {
            Some(v) => v,
            None => false,
        },
        None => false,
    }
}

/// Decode the raw query parameters of a run: `mode` and `version` default
/// to zero, `rx` to false, each also when present but unparseable.
pub fn parse_request(mode: Option<&str>, version: Option<&str>, rx: Option<&str>) -> (p:
    RequestParams)
    ensures
        mode is None ==> p.mode == 0,
        mode matches Some(s) ==> p.mode == spec_u8_param(Some(s@)),
        version is None ==> p.version == 0,
        version matches Some(s) ==> p.version == spec_u8_param(Some(s@)),
        rx is None ==> p.rx == false,
        rx matches Some(s) ==> p.rx == spec_bool_param(Some(s@)),
{
    let m = match mode {
        Some(s) => match crate::text::parse_u8(s) {
            Some(v) => v,
            None => 0,
        },
        None => 0,
    };
    let v = match version {
        Some(s) => match crate::text::parse_u8(s) {
            Some(v) => v,
            None => 0,
        },
        None => 0,
    };
    let r = match rx {
        Some(s) => match crate::text::parse_bool(s) {
            Some(v) => v,
            None => false,
        },
        None => false,
    };
    RequestParams { mode: m, version: v, rx: r }
}

/// Check the decoded parameters before any pipeline work: a mode above 8
/// or a version above 2 is rejected as the caller's fault, the mode being
/// checked first.
pub fn validate_request(p: &RequestParams) -> (r: Result<(), PipelineError>)
    ensures
        r is Ok <==> (p.mode <= 8 && p.version <= 2),
        p.mode > 8 ==> (r matches Err(e) && e is InvalidParameter && spec_error_message(e)
            == "Invalid mode. Must be between 0 and 8."@),
        p.mode <= 8 && p.version > 2 ==> (r matches Err(e) && e is InvalidParameter
            && spec_error_message(e) == "Invalid version. Must be between 0 and 2."@),
{
    if p.mode > 8 {
        Err(PipelineError::InvalidParameter("Invalid mode. Must be between 0 and 8.".to_owned()))
    } else if p.version > 2 {
        Err(PipelineError::InvalidParameter("Invalid version. Must be between 0 and 2.".to_owned()))
    } else {
        Ok(())
    }
}

/// The fan-out stage's degradation rule: a player's fetched score list, or
/// — when that player's fetch failed — an empty list, so that one failed
/// player never fails the run.
pub fn scores_after_fetch(outcome: Option<Vec<crate::models::PlayerScore>>) -> (r: Vec<
    crate::models::PlayerScore,
>)
    ensures
        outcome matches Some(v) ==> r == v,
        outcome is None ==> r@.len() == 0,
{
    match outcome {
        Some(v) => v,
        None => Vec::new(),
    }
}

/// One player's assembled results.
pub struct PlayerResults {
    pub name: String,
    pub results: Vec<crate::models::PPCalculationResult>,
}

/// The first entry of `s` stored under `name`, if any.
pub open spec fn spec_results_lookup(s: Seq<PlayerResults>, name: Seq<char>) -> Option<
    PlayerResults,
>
    decreases s.len(),
{
    if s.len() == 0 {
        None
    } else if s[0].name@ == name {
        Some(s[0])
    } else {
        spec_results_lookup(s.drop_first(), name)
    }
}

/// What an overwrite under `name` leaves of a lookup result.
pub open spec fn spec_results_displaced(o: Option<PlayerResults>, name: Seq<char>) -> Option<
    PlayerResults,
> {
    match o {
        Some(e) => if e.name@ != name {
            Some(e)
        } else {
            None
        },
        None => None,
    }
}

/// A lookup misses exactly when no entry has the name.
pub proof fn lemma_results_lookup_none(s: Seq<PlayerResults>, name: Seq<char>)
    ensures
        spec_results_lookup(s, name) is None <==> (forall|i: int|
            0 <= i < s.len() ==> (#[trigger] s[i]).name@ != name),
    decreases s.len(),
{
    if spec_results_lookup(s, name) is Some {
        lemma_results_lookup_in(s, name);
        let i = choose|i: int|
            0 <= i < s.len() && #[trigger] s[i] == spec_results_lookup(s, name)->0;
        assert(s[i].name@ == name);
    } else {
        assert forall|i: int| 0 <= i < s.len() implies (#[trigger] s[i]).name@ != name by {
            if i > 0 {
                lemma_results_lookup_none(s.drop_first(), name);
                assert(s.drop_first()[i - 1] == s[i]);
            }
        }
    }
}

/// A lookup hit is an entry of the sequence, and it carries the name.
pub proof fn lemma_results_lookup_in(s: Seq<PlayerResults>, name: Seq<char>)
    requires
        spec_results_lookup(s, name) is Some,
    ensures
        spec_results_lookup(s, name)->0.name@ == name,
        exists|i: int| 0 <= i < s.len() && #[trigger] s[i] == spec_results_lookup(s, name)->0,
    decreases s.len(),
{
    if s.len() > 0 && s[0].name@ != name {
        lemma_results_lookup_in(s.drop_first(), name);
        let i = choose|i: int|
            0 <= i < s.drop_first().len() && #[trigger] s.drop_first()[i] == spec_results_lookup(
                s.drop_first(),
                name,
            )->0;
        assert(s[i + 1] == s.drop_first()[i]);
    }
}

/// A match at `i`, with no match before it, is what the lookup returns.
pub proof fn lemma_results_lookup_first_match(s: Seq<PlayerResults>, name: Seq<char>, i: int)
    requires
        0 <= i < s.len(),
        s[i].name@ == name,
        forall|j: int| 0 <= j < i ==> (#[trigger] s[j]).name@ != name,
    ensures
        spec_results_lookup(s, name) == Some(s[i]),
    decreases i,
{
    if i > 0 {
        assert(forall|j: int|
            0 <= j < s.drop_first().len() ==> #[trigger] s.drop_first()[j] == s[j + 1]);
        lemma_results_lookup_first_match(s.drop_first(), name, i - 1);
    }
}

/// How appending one entry changes a lookup.
pub proof fn lemma_results_lookup_push(s: Seq<PlayerResults>, name: Seq<char>, e: PlayerResults)
    ensures
        spec_results_lookup(s.push(e), name) == (match spec_results_lookup(s, name) {
            Some(x) => Some(x),
            None => if e.name@ == name {
                Some(e)
            } else {
                None
            },
        }),
    decreases s.len(),
{
    if s.len() == 0 {
        assert(s.push(e)[0] == e);
        assert(s.push(e).drop_first() =~= Seq::<PlayerResults>::empty());
    } else {
        assert(s.push(e)[0] == s[0]);
        assert(s.push(e).drop_first() =~= s.drop_first().push(e));
        lemma_results_lookup_push(s.drop_first(), name, e);
    }
}

/// The assembled outcome of a run: per player name, that player's ordered
/// results. Insertion order across players is whatever order the fan-out
/// join delivered — callers must not rely on it.
pub struct ResultMap {
    pub entries: Vec<PlayerResults>,
}

impl ResultMap {
    /// Names are stored at most once.
    pub open spec fn wf(self) -> bool {
        forall|i: int, j: int|
            0 <= i < j < self.entries@.len() ==> (#[trigger] self.entries@[i]).name@ != (
            #[trigger] self.entries@[j]).name@
    }

    /// The results stored for a name, if any.
    pub open spec fn spec_results(self, name: Seq<char>) -> Option<
        Seq<crate::models::PPCalculationResult>,
    > {
        match spec_results_lookup(self.entries@, name) {
            Some(e) => Some(e.results@),
            None => None,
        }
    }

    /// An empty result map.
    pub fn new() -> (m: ResultMap)
        ensures
            m.wf(),
            m.entries@.len() == 0,
            forall|k: Seq<char>| m.spec_results(k) is None,
    {
        ResultMap { entries: Vec::new() }
    }

    /// How many players the map holds.
    pub fn len(&self) -> (n: usize)
        ensures
            n == self.entries@.len(),
    {
        self.entries.len()
    }

    /// Store a player's results, overwriting any earlier entry under the
    /// same name; every other player's entry stands unchanged.
    pub fn insert_player(
        &mut self,
        name: String,
        results: Vec<crate::models::PPCalculationResult>,
    )
        requires
            old(self).wf(),
        ensures
            final(self).wf(),
            (spec_results_lookup(final(self).entries@, name@) matches Some(e) && e.name@ == name@
                && e.results == results),
            forall|k: Seq<char>|
                k != name@ ==> #[trigger] spec_results_lookup(final(self).entries@, k)
                    == spec_results_displaced(spec_results_lookup(old(self).entries@, k), name@),
    {
        let found = find_player_index(&self.entries, name.as_str());
        let ghost displaced = self.entries@;
        match found {
            Some(i) => {
                let ghost pre = self.entries@;
                self.entries.remove(i);
                proof {
                    assert forall|m: int| 0 <= m < pre.len() && m != i as int implies (
                    #[trigger] pre[m]).name@ != name@ by {
                        if m < i as int {
                            assert(pre[m].name@ != pre[i as int].name@);
                        } else {
                            assert(pre[i as int].name@ != pre[m].name@);
                        }
                    }
                    lemma_results_lookup_remove(pre, i as int, name@);
                    assert(forall|x: int|
                        0 <= x < i as int ==> #[trigger] self.entries@[x] == pre[x]);
                    assert(forall|x: int|
                        i as int <= x < self.entries@.len() ==> #[trigger] self.entries@[x]
                            == pre[x + 1]);
                    assert forall|a: int, b: int|
                        0 <= a < b < self.entries@.len() implies (
                    #[trigger] self.entries@[a]).name@ != (#[trigger] self.entries@[b]).name@ by {
                        if b < i as int {
                            assert(pre[a].name@ != pre[b].name@);
                        } else if a < i as int {
                            assert(pre[a].name@ != pre[b + 1].name@);
                        } else {
                            assert(pre[a + 1].name@ != pre[b + 1].name@);
                        }
                    }
                }
            },
            None => {},
        }
        proof {
            lemma_results_lookup_none(self.entries@, name@);
        }
        let ghost swept = self.entries@;
        let entry = PlayerResults { name, results };
        let ghost ne = entry;
        self.entries.push(entry);
        proof {
            assert(self.entries@ == swept.push(ne));
            lemma_results_lookup_push(swept, ne.name@, ne);
            assert forall|k: Seq<char>|
                k != ne.name@ implies #[trigger] spec_results_lookup(self.entries@, k)
                == spec_results_displaced(spec_results_lookup(old(self).entries@, k), ne.name@) by {
                lemma_results_lookup_push(swept, k, ne);
                if spec_results_lookup(old(self).entries@, k) is Some {
                    lemma_results_lookup_in(old(self).entries@, k);
                }
            }
        }
    }

    /// A player's stored results.
    pub fn get_player<'a>(&'a self, name: &str) -> (r: Option<
        &'a Vec<crate::models::PPCalculationResult>,
    >)
        ensures
            r is Some <==> self.spec_results(name@) is Some,
            r matches Some(v) ==> Some(v@) == self.spec_results(name@),
    {
        let n = self.entries.len();
        let mut i: usize = 0;
        while i < n
            invariant
                i <= n,
                n == self.entries@.len(),
                forall|m: int| 0 <= m < i ==> (#[trigger] self.entries@[m]).name@ != name@,
            decreases n - i,
        {
            if crate::text::str_eq(self.entries[i].name.as_str(), name) {
                proof {
                    lemma_results_lookup_first_match(self.entries@, name@, i as int);
                }
                return Some(&self.entries[i].results);
            }
            i = i + 1;
        }
        proof {
            lemma_results_lookup_none(self.entries@, name@);
        }
        None
    }
}

/// Removing the only entry under `name` empties that name's lookup and
/// leaves every other name's lookup as it was.
pub proof fn lemma_results_lookup_remove(s: Seq<PlayerResults>, j: int, name: Seq<char>)
    requires
        0 <= j < s.len(),
        s[j].name@ == name,
        forall|m: int| 0 <= m < s.len() && m != j ==> (#[trigger] s[m]).name@ != name,
    ensures
        forall|k: Seq<char>|
            #[trigger] spec_results_lookup(s.remove(j), k) == (if k == name {
                None
            } else {
                spec_results_lookup(s, k)
            }),
    decreases j,
{
    if j == 0 {
        assert(s.remove(0) =~= s.drop_first());
        assert forall|k: Seq<char>|
            #[trigger] spec_results_lookup(s.remove(0), k) == (if k == name {
                None
            } else {
                spec_results_lookup(s, k)
            }) by {
            if k == name {
                lemma_results_lookup_none(s.drop_first(), name);
                assert(forall|m: int|
                    0 <= m < s.drop_first().len() ==> #[trigger] s.drop_first()[m] == s[m + 1]);
            }
        }
    } else {
        assert(s.remove(j).drop_first() =~= s.drop_first().remove(j - 1));
        assert(s.remove(j)[0] == s[0]);
        assert(forall|m: int|
            0 <= m < s.drop_first().len() ==> #[trigger] s.drop_first()[m] == s[m + 1]);
        assert forall|m: int|
            0 <= m < s.drop_first().len() && m != j - 1 implies (
        #[trigger] s.drop_first()[m]).name@ != name by {
            assert(s.drop_first()[m] == s[m + 1]);
            assert(s[m + 1].name@ != name);
        }
        lemma_results_lookup_remove(s.drop_first(), j - 1, name);
        assert forall|k: Seq<char>|
            #[trigger] spec_results_lookup(s.remove(j), k) == (if k == name {
                None
            } else {
                spec_results_lookup(s, k)
            }) by {
            assert(spec_results_lookup(s.remove(j).drop_first(), k) == spec_results_lookup(
                s.drop_first().remove(j - 1),
                k,
            ));
            if s[0].name@ == k && k == name {
                assert(s[0].name@ != name);
            }
        }
    }
}

/// The position of the first entry under `name`, if any.
fn find_player_index(s: &Vec<PlayerResults>, name: &str) -> (r: Option<usize>)
    ensures
        r matches Some(i) ==> (i < s@.len() && s@[i as int].name@ == name@ && (forall|m: int|
            0 <= m < i ==> (#[trigger] s@[m]).name@ != name@)),
        r is None ==> (forall|m: int| 0 <= m < s@.len() ==> (#[trigger] s@[m]).name@ != name@),
{
    let n = s.len();
    let mut i: usize = 0;
    while i < n
        invariant
            i <= n,
            n == s@.len(),
            forall|m: int| 0 <= m < i ==> (#[trigger] s@[m]).name@ != name@,
        decreases n - i,
    {
        if crate::text::str_eq(s[i].name.as_str(), name) {
            return Some(i);
        }
        i = i + 1;
    }
    None
}

} // verus!
