//! The artifact store: immutable beatmap files keyed by numeric id.
//!
//! An artifact, once obtained, never changes for the lifetime of the
//! process: the store records the first content seen for an id and serves
//! exactly that content ever after, consulting no origin again. The store
//! models the on-disk cache (presence of the file is the cache entry); the
//! boundary code mirrors it to disk and performs the actual download,
//! handing the outcome in as a plain value — so every claim here holds for
//! every outcome the origin can produce.

use vstd::prelude::*;
use vstd::string::StringExecFns;

use crate::text::{spec_u64_digits, u64_to_string};

verus! {

/// Failure of an ensure-present round: the filesystem side or the
/// download side, each with a human-readable message.
#[derive(Debug)]
pub enum BeatmapCacheError {
    IOError(String),
    RequestError(String),
}

/// One stored artifact: the id and the content obtained for it first.
pub struct ArtifactEntry {
    pub id: u64,
    pub content: String,
}

/// The first entry of `s` stored under `id`, if any.
pub open spec fn spec_artifact_lookup(s: Seq<ArtifactEntry>, id: u64) -> Option<ArtifactEntry>
    decreases s.len(),
{
    if s.len() == 0 {
        None
    } else if s[0].id == id {
        Some(s[0])
    } else {
        spec_artifact_lookup(s.drop_first(), id)
    }
}

/// A lookup misses exactly when no entry has the id.
pub proof fn lemma_artifact_lookup_none(s: Seq<ArtifactEntry>, id: u64)
    ensures
        spec_artifact_lookup(s, id) is None <==> (forall|i: int|
            0 <= i < s.len() ==> (#[trigger] s[i]).id != id),
    decreases s.len(),
{
    if spec_artifact_lookup(s, id) is Some {
        lemma_artifact_lookup_in(s, id);
        let i = choose|i: int|
            0 <= i < s.len() && #[trigger] s[i] == spec_artifact_lookup(s, id)->0;
        assert(s[i].id == id);
    } else {
        assert forall|i: int| 0 <= i < s.len() implies (#[trigger] s[i]).id != id by {
            if i > 0 {
                lemma_artifact_lookup_none(s.drop_first(), id);
                assert(s.drop_first()[i - 1] == s[i]);
            }
        }
    }
}

/// A lookup hit is an entry of the sequence, and it carries the id.
pub proof fn lemma_artifact_lookup_in(s: Seq<ArtifactEntry>, id: u64)
    requires
        spec_artifact_lookup(s, id) is Some,
    ensures
        spec_artifact_lookup(s, id)->0.id == id,
        exists|i: int| 0 <= i < s.len() && #[trigger] s[i] == spec_artifact_lookup(s, id)->0,
    decreases s.len(),
{
    if s.len() > 0 && s[0].id != id {
        lemma_artifact_lookup_in(s.drop_first(), id);
        let i = choose|i: int|
            0 <= i < s.drop_first().len() && #[trigger] s.drop_first()[i] == spec_artifact_lookup(
                s.drop_first(),
                id,
            )->0;
        assert(s[i + 1] == s.drop_first()[i]);
    }
}

/// A match at `i`, with no match before it, is what the lookup returns.
pub proof fn lemma_artifact_lookup_first_match(s: Seq<ArtifactEntry>, id: u64, i: int)
    requires
        0 <= i < s.len(),
        s[i].id == id,
        forall|j: int| 0 <= j < i ==> (#[trigger] s[j]).id != id,
    ensures
        spec_artifact_lookup(s, id) == Some(s[i]),
    decreases i,
{
    if i > 0 {
        assert(forall|j: int|
            0 <= j < s.drop_first().len() ==> #[trigger] s.drop_first()[j] == s[j + 1]);
        lemma_artifact_lookup_first_match(s.drop_first(), id, i - 1);
    }
}

/// How appending one entry changes a lookup.
pub proof fn lemma_artifact_lookup_push(s: Seq<ArtifactEntry>, id: u64, e: ArtifactEntry)
    ensures
        spec_artifact_lookup(s.push(e), id) == (match spec_artifact_lookup(s, id) {
            Some(x) => Some(x),
            None => if e.id == id {
                Some(e)
            } else {
                None
            },
        }),
    decreases s.len(),
{
    if s.len() == 0 {
        assert(s.push(e)[0] == e);
        assert(s.push(e).drop_first() =~= Seq::<ArtifactEntry>::empty());
    } else {
        assert(s.push(e)[0] == s[0]);
        assert(s.push(e).drop_first() =~= s.drop_first().push(e));
        lemma_artifact_lookup_push(s.drop_first(), id, e);
    }
}

/// First write wins: appending anything to a store that already answers
/// for an id leaves that id's answer exactly as it was. Together with the
/// store's discipline of appending only for absent ids, this is the
/// immutability of an artifact for the lifetime of the store.
pub proof fn lemma_artifact_first_write_wins(s: Seq<ArtifactEntry>, e: ArtifactEntry, id: u64)
    requires
        spec_artifact_lookup(s, id) is Some,
    ensures
        spec_artifact_lookup(s.push(e), id) == spec_artifact_lookup(s, id),
{
    lemma_artifact_lookup_push(s, id, e);
}

/// The process-wide artifact store: the directory the artifacts mirror to,
/// and the artifacts obtained so far, one per id.
pub struct BeatmapCache {
    pub cache_dir: String,
    pub entries: Vec<ArtifactEntry>,
}

impl BeatmapCache {
    /// Artifacts are stored under distinct ids.
    pub open spec fn wf(self) -> bool {
        forall|i: int, j: int|
            0 <= i < j < self.entries@.len() ==> (#[trigger] self.entries@[i]).id != (
            #[trigger] self.entries@[j]).id
    }

    /// The content stored for an id, if any.
    pub open spec fn spec_content(self, id: u64) -> Option<Seq<char>> {
        match spec_artifact_lookup(self.entries@, id) {
            Some(e) => Some(e.content@),
            None => None,
        }
    }

    /// An empty store over the default cache directory.
    pub fn new() -> (c: BeatmapCache)
        ensures
            c.wf(),
            c.cache_dir@ == ".data/beatmaps"@,
            c.entries@.len() == 0,
            forall|id: u64| c.spec_content(id) is None,
    {
        BeatmapCache { cache_dir: ".data/beatmaps".to_owned(), entries: Vec::new() }
    }

    /// The path an artifact mirrors to: the cache directory, the decimal
    /// id, and the beatmap file extension. Pure — no filesystem access.
    pub fn get_beatmap_path(&self, beatmap_id: u64) -> (p: String)
        ensures
            p@ == self.cache_dir@ + "/"@ + spec_u64_digits(beatmap_id as nat) + ".osu"@,
    {
        let mut p = self.cache_dir.clone();
        p.append("/");
        let digits = u64_to_string(beatmap_id);
        p.append(digits.as_str());
        p.append(".osu");
        p
    }

    /// Whether the store already holds an id — when it does, an
    /// ensure-present round needs no download.
    pub fn has_artifact(&self, beatmap_id: u64) -> (r: bool)
        ensures
            r == (self.spec_content(beatmap_id) is Some),
    {
        let n = self.entries.len();
        let mut i: usize = 0;
        while i < n
            invariant
                i <= n,
                n == self.entries@.len(),
                forall|m: int| 0 <= m < i ==> (#[trigger] self.entries@[m]).id != beatmap_id,
            decreases n - i,
        {
            if self.entries[i].id == beatmap_id {
                proof {
                    lemma_artifact_lookup_first_match(self.entries@, beatmap_id, i as int);
                }
                return true;
            }
            i = i + 1;
        }
        proof {
            lemma_artifact_lookup_none(self.entries@, beatmap_id);
        }
        false
    }

    /// The stored content for an id, if the store holds it.
    pub fn cached_artifact(&self, beatmap_id: u64) -> (r: Option<String>)
        ensures
            r is Some <==> self.spec_content(beatmap_id) is Some,
            r matches Some(c) ==> Some(c@) == self.spec_content(beatmap_id),
    {
        let n = self.entries.len();
        let mut i: usize = 0;
        while i < n
            invariant
                i <= n,
                n == self.entries@.len(),
                forall|m: int| 0 <= m < i ==> (#[trigger] self.entries@[m]).id != beatmap_id,
            decreases n - i,
        {
            if self.entries[i].id == beatmap_id {
                proof {
                    lemma_artifact_lookup_first_match(self.entries@, beatmap_id, i as int);
                }
                return Some(self.entries[i].content.clone());
            }
            i = i + 1;
        }
        proof {
            lemma_artifact_lookup_none(self.entries@, beatmap_id);
        }
        None
    }

    /// One ensure-present round for an id. When the store already holds
    /// the id, the stored content is returned as is and `download` — the
    /// outcome the origin would have produced — is ignored entirely: no
    /// download is needed, a faulty origin cannot be observed, and the
    /// content cannot change. Otherwise the round consumes the download
    /// outcome: content is recorded (first write wins) and returned, an
    /// error is passed through and the store stands unchanged.
    pub fn get_or_download_beatmap(
        &mut self,
        beatmap_id: u64,
        download: Result<String, BeatmapCacheError>,
    ) -> (r: Result<String, BeatmapCacheError>)
        requires
            old(self).wf(),
        ensures
            final(self).wf(),
            final(self).cache_dir == old(self).cache_dir,
            old(self).spec_content(beatmap_id) matches Some(c) ==> (*final(self) == *old(self)
                && (r matches Ok(s) && s@ == c)),
            download matches Ok(d) ==> (old(self).spec_content(beatmap_id) is None
                ==> (final(self).spec_content(beatmap_id) == Some(d@) && (r matches Ok(s) && s@
                == d@))),
            old(self).spec_content(beatmap_id) is None && download is Err ==> (*final(self)
                == *old(self) && r == download),
            forall|other: u64|
                other != beatmap_id ==> final(self).spec_content(other) == old(self).spec_content(
                    other,
                ),
            r is Ok <==> (old(self).spec_content(beatmap_id) is Some || download is Ok),
    {
        let n = self.entries.len();
        let mut i: usize = 0;
        while i < n
            invariant
                *self == *old(self),
                self.wf(),
                i <= n,
                n == self.entries@.len(),
                forall|m: int| 0 <= m < i ==> (#[trigger] self.entries@[m]).id != beatmap_id,
            decreases n - i,
        {
            if self.entries[i].id == beatmap_id {
                proof {
                    lemma_artifact_lookup_first_match(self.entries@, beatmap_id, i as int);
                }
                return Ok(self.entries[i].content.clone());
            }
            i = i + 1;
        }
        proof {
            lemma_artifact_lookup_none(self.entries@, beatmap_id);
        }
        match download {
            Ok(d) => {
                let out = d.clone();
                let entry = ArtifactEntry { id: beatmap_id, content: d };
                let ghost before = self.entries@;
                let ghost ge = entry;
                self.entries.push(entry);
                proof {
                    assert(self.entries@ == before.push(ge));
                    assert forall|other: u64| true implies #[trigger] spec_artifact_lookup(
                        self.entries@,
                        other,
                    ) == (match spec_artifact_lookup(before, other) {
                        Some(x) => Some(x),
                        None => if other == beatmap_id {
                            Some(ge)
                        } else {
                            None
                        },
                    }) by {
                        lemma_artifact_lookup_push(before, other, ge);
                    }
                }
                Ok(out)
            },
            Err(e) => Err(e),
        }
    }
}

} // verus!
