//! The version manifest: every published version of the game.
use crate::text::{
    chars_of, find_from, first_occurrence_from, is_first_occurrence_from, lemma_first_occurrence_from,
    lemma_first_occurrence_unique, occurs_at, str_eq, substring,
};
use vstd::prelude::*;

verus! {

/// The list of published versions, and which ones are the newest.
#[derive(Debug, Default, Clone, PartialEq, Eq)]
pub struct Manifest {
    pub latest: Latest,
    pub versions: Vec<Version>,
}

/// The ids of the newest release and the newest snapshot.
#[derive(Debug, Default, Clone, PartialEq, Eq)]
pub struct Latest {
    pub release: String,
    pub snapshot: String,
}

/// One published version, as the manifest lists it.
#[derive(Debug, Default, PartialEq, Eq)]
pub struct Version {
    pub id: String,
    /// "release", "snapshot", "old_alpha", ...
    pub type_field: String,
    /// Where the version's metadata document lies.
    pub url: String,
    pub time: String,
    pub release_time: String,
}

impl Clone for Version {
    fn clone(&self) -> (r: Self)
        ensures
            r == *self,
    {
        Version {
            id: self.id.clone(),
            type_field: self.type_field.clone(),
            url: self.url.clone(),
            time: self.time.clone(),
            release_time: self.release_time.clone(),
        }
    }
}

/// The text that, in a metadata URL, comes right before the version's hash.
pub open spec fn packages_marker() -> Seq<char> {
    seq!['/', 'p', 'a', 'c', 'k', 'a', 'g', 'e', 's', '/']
}

/// The part of `s` before its first `/` (all of `s` when it has none).
pub open spec fn before_first_slash(s: Seq<char>) -> Seq<char> {
    match first_occurrence_from(s, seq!['/'], 0) {
        Some(j) => s.take(j),
        None => s,
    }
}

/// The hash that a metadata URL names: what follows its first "/packages/",
/// up to the next `/`; nothing when the URL has no "/packages/".
pub open spec fn hash_of_url(url: Seq<char>) -> Option<Seq<char>> {
    match first_occurrence_from(url, packages_marker(), 0) {
        Some(i) => Some(before_first_slash(url.skip(i + packages_marker().len()))),
        None => None,
    }
}

/// `i` is the first position in `versions` whose id is `id`.
pub open spec fn is_first_with_id(versions: Seq<Version>, id: Seq<char>, i: int) -> bool {
    &&& 0 <= i < versions.len()
    &&& versions[i].id@ == id
    &&& forall|j: int| 0 <= j < i ==> (#[trigger] versions[j]).id@ != id
}

/// No version in `versions` has the id `id`.
pub open spec fn has_no_id(versions: Seq<Version>, id: Seq<char>) -> bool {
    forall|j: int| 0 <= j < versions.len() ==> (#[trigger] versions[j]).id@ != id
}

/// The view of an optional text.
pub open spec fn opt_view(o: Option<String>) -> Option<Seq<char>> {
    match o {
        Some(s) => Some(s@),
        None => None,
    }
}

impl Manifest {
    /// The first listed version whose id is `id`.
    pub fn find_version(&self, id: &str) -> (r: Option<&Version>)
        ensures
            r matches Some(v) ==> exists|i: int|
                is_first_with_id(self.versions@, id@, i) && *v == #[trigger] self.versions@[i],
            r is None ==> has_no_id(self.versions@, id@),
    {
        let mut i: usize = 0;
        while i < self.versions.len()
            invariant
                i <= self.versions@.len(),
                forall|j: int| 0 <= j < i ==> (#[trigger] self.versions@[j]).id@ != id@,
            decreases self.versions.len() - i,
        {
            if str_eq(self.versions[i].id.as_str(), id) {
                assert(is_first_with_id(self.versions@, id@, i as int));
                return Some(&self.versions[i]);
            }
            i = i + 1;
        }
        None
    }
}

impl Version {
    /// Is this a release?
    pub fn is_release(&self) -> (r: bool)
        ensures
            r == (self.type_field@ == "release"@),
    {
        str_eq(self.type_field.as_str(), "release")
    }

    /// Is this a snapshot?
    pub fn is_snapshot(&self) -> (r: bool)
        ensures
            r == (self.type_field@ == "snapshot"@),
    {
        str_eq(self.type_field.as_str(), "snapshot")
    }

    /// Is this one of the oldest alpha versions?
    pub fn is_old_alpha(&self) -> (r: bool)
        ensures
            r == (self.type_field@ == "old_alpha"@),
    {
        str_eq(self.type_field.as_str(), "old_alpha")
    }

    /// The hash that the version's metadata URL carries: for
    /// ".../v1/packages/<hash>/<id>.json" it is `<hash>`.
    pub fn get_hash(&self) -> (r: Option<String>)
        ensures
            opt_view(r) == hash_of_url(self.url@),
    {
        let marker_text = "/packages/";
        proof {
            reveal_strlit("/packages/");
        }
        let url = chars_of(self.url.as_str());
        let marker = chars_of(marker_text);
        assert(marker@ =~= packages_marker());
        match find_from(&url, &marker, 0) {
            None => None,
            Some(i) => {
                assert(occurs_at(url@, marker@, i as int));
                assert(i + marker@.len() <= url@.len());
                assert(marker@.len() == marker.len());
                assert(url@.len() == url.len());
                let start = i + marker.len();
                let slash_text = "/";
                proof {
                    reveal_strlit("/");
                }
                let slash = chars_of(slash_text);
                assert(slash@ =~= seq!['/']);
                let end = match find_from(&url, &slash, start) {
                    Some(j) => j,
                    None => url.len(),
                };
                proof {
                    let rest = url@.skip(start as int);
                    lemma_shifted_first_occurrence(url@, seq!['/'], start as int);
                    if end < url.len() {
                        assert(rest.take(end - start) =~= url@.subrange(start as int, end as int));
                    } else {
                        assert(rest =~= url@.subrange(start as int, end as int));
                    }
                }
                Some(substring(self.url.as_str(), start, end))
            },
        }
    }
}

/// A version is of at most one kind: release, snapshot or old alpha.
pub proof fn law_version_kinds_exclusive(v: Version)
    ensures
        !(v.type_field@ == "release"@ && v.type_field@ == "snapshot"@),
        !(v.type_field@ == "release"@ && v.type_field@ == "old_alpha"@),
        !(v.type_field@ == "snapshot"@ && v.type_field@ == "old_alpha"@),
{
    reveal_strlit("release");
    reveal_strlit("snapshot");
    reveal_strlit("old_alpha");
    assert("release"@[0] != "snapshot"@[0]);
    assert("release"@[0] != "old_alpha"@[0]);
    assert("snapshot"@[0] != "old_alpha"@[0]);
}

/// Searching `s` from `start` is searching `s.skip(start)` from its beginning.
pub proof fn lemma_shifted_first_occurrence(s: Seq<char>, pat: Seq<char>, start: int)
    requires
        0 <= start <= s.len(),
    ensures
        first_occurrence_from(s.skip(start), pat, 0) == match first_occurrence_from(s, pat, start) {
            Some(j) => Some(j - start),
            None => None::<int>,
        },
{
    let t = s.skip(start);
    assert forall|k: int| 0 <= k implies (#[trigger] occurs_at(t, pat, k) <==> occurs_at(s, pat, k + start)) by {
        if 0 <= k && k + pat.len() <= t.len() {
            assert(t.subrange(k, k + pat.len()) =~= s.subrange(k + start, k + start + pat.len()));
        }
    }
    lemma_first_occurrence_from(s, pat, start);
    lemma_first_occurrence_from(t, pat, 0);
    match first_occurrence_from(s, pat, start) {
        Some(j) => {
            assert(occurs_at(t, pat, j - start));
            assert(is_first_occurrence_from(t, pat, 0, j - start)) by {
                assert forall|m: int| 0 <= m < j - start implies !#[trigger] occurs_at(t, pat, m) by {
                    assert(!occurs_at(s, pat, m + start));
                }
            }
            match first_occurrence_from(t, pat, 0) {
                Some(k) => {
                    lemma_first_occurrence_unique(t, pat, 0, k, j - start);
                },
                None => {
                    assert(!occurs_at(t, pat, j - start));
                },
            }
        },
        None => {
            match first_occurrence_from(t, pat, 0) {
                Some(k) => {
                    assert(occurs_at(s, pat, k + start));
                },
                None => {},
            }
        },
    }
}

} // verus!
