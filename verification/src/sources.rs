//! Where documents and files come from, and how a downloaded file is checked.
use crate::hashing::{hex_encode, hex_lower, sha1, sha1_digest};
use crate::models::manifest::{hash_of_url, packages_marker};
use crate::text::{
    concat, concat3, first_occurrence_from, is_first_occurrence_from, lemma_first_occurrence_from,
    lemma_first_occurrence_unique, occurs_at, str_eq,
};
use vstd::prelude::*;
use vstd::string::StringExecFns;

verus! {

/// Something that can be fetched from a URL.
pub trait AsUrl {
    fn as_url(&self) -> String;
}

/// The JSON documents the launcher reads.
#[derive(Debug)]
pub enum Sources {
    /// The list of all versions.
    Manifest,
    /// The metadata of one version, published under its hash.
    PistonMeta { hash: String, version: String },
    /// An asset index, at the URL the version's metadata gives.
    AssetIndex(String),
}

/// Where the version manifest is published.
pub open spec fn manifest_url() -> Seq<char> {
    "https://piston-meta.mojang.com/mc/game/version_manifest_v2.json"@
}

/// What a metadata URL starts with, up to the hash.
pub open spec fn piston_meta_prefix() -> Seq<char> {
    "https://piston-meta.mojang.com/v1/packages/"@
}

/// The URL a source is fetched from.
pub open spec fn source_url(source: Sources) -> Seq<char> {
    match source {
        Sources::Manifest => manifest_url(),
        Sources::PistonMeta { hash, version } => piston_meta_prefix() + hash@ + seq!['/']
            + version@ + ".json"@,
        Sources::AssetIndex(url) => url@,
    }
}

impl AsUrl for Sources {
    fn as_url(&self) -> (r: String)
        ensures
            r@ == source_url(*self),
    {
        match self {
            Sources::Manifest => "https://piston-meta.mojang.com/mc/game/version_manifest_v2.json".to_owned(),
            Sources::PistonMeta { hash, version } => {
                let mut r = concat("https://piston-meta.mojang.com/v1/packages/", hash.as_str());
                let slash = "/";
                proof {
                    reveal_strlit("/");
                }
                r.append(slash);
                r.append(version.as_str());
                r.append(".json");
                r
            },
            Sources::AssetIndex(url) => url.clone(),
        }
    }
}

/// A file to download to `dest`, accepted only when its SHA-1 is `expected_hash`.
#[derive(Debug)]
pub struct VerifiedFiledSource {
    pub url: String,
    pub dest: String,
    /// Lowercase hex.
    pub expected_hash: String,
}

/// A download target as plain text: (url, destination, expected hash).
pub open spec fn target_view(t: VerifiedFiledSource) -> (Seq<char>, Seq<char>, Seq<char>) {
    (t.url@, t.dest@, t.expected_hash@)
}

/// The targets of a list, as plain text.
pub open spec fn targets_view(ts: Seq<VerifiedFiledSource>) -> Seq<(Seq<char>, Seq<char>, Seq<char>)> {
    ts.map_values(|t: VerifiedFiledSource| target_view(t))
}

impl Clone for VerifiedFiledSource {
    fn clone(&self) -> (r: Self)
        ensures
            r == *self,
    {
        VerifiedFiledSource {
            url: self.url.clone(),
            dest: self.dest.clone(),
            expected_hash: self.expected_hash.clone(),
        }
    }
}

/// The targets in `ts` whose file is not present yet, in order.
pub open spec fn missing_targets(
    ts: Seq<(Seq<char>, Seq<char>, Seq<char>)>,
    present: Seq<bool>,
) -> Seq<(Seq<char>, Seq<char>, Seq<char>)>
    decreases ts.len(),
{
    if ts.len() == 0 {
        Seq::empty()
    } else {
        let rest = missing_targets(ts.drop_last(), present);
        if present[ts.len() - 1] {
            rest
        } else {
            rest.push(ts.last())
        }
    }
}

/// The targets whose file is not there yet: `present[i]` tells whether
/// `targets[i]`'s destination already exists.
pub fn select_missing(targets: &Vec<VerifiedFiledSource>, present: &Vec<bool>) -> (r: Vec<VerifiedFiledSource>)
    requires
        targets@.len() == present@.len(),
    ensures
        targets_view(r@) == missing_targets(targets_view(targets@), present@),
{
    let mut r: Vec<VerifiedFiledSource> = Vec::new();
    let mut i: usize = 0;
    while i < targets.len()
        invariant
            i <= targets@.len(),
            targets@.len() == present@.len(),
            targets_view(r@) == missing_targets(targets_view(targets@.take(i as int)), present@),
        decreases targets.len() - i,
    {
        assert(targets_view(targets@.take(i + 1)).drop_last() =~= targets_view(targets@.take(i as int)));
        if !present[i] {
            let ghost before = r@;
            r.push(targets[i].clone());
            assert(targets_view(r@) =~= targets_view(before).push(target_view(targets@[i as int])));
        }
        i = i + 1;
    }
    assert(targets@.take(i as int) =~= targets@);
    r
}

/// A downloaded file was refused: its SHA-1 is not the one expected.
#[derive(Debug, Clone)]
pub struct HashMismatch {
    /// Where the file was downloaded from.
    pub url: String,
    pub expected: String,
    pub found: String,
}

/// "Hash mismatch for <url>: expected <expected>, got <found>"
pub open spec fn hash_mismatch_message(url: Seq<char>, expected: Seq<char>, found: Seq<char>) -> Seq<char> {
    "Hash mismatch for "@ + url + ": expected "@ + expected + ", got "@ + found
}

impl HashMismatch {
    /// The message that tells which download was refused, and why.
    pub fn message(&self) -> (r: String)
        ensures
            r@ == hash_mismatch_message(self.url@, self.expected@, self.found@),
    {
        let mut r = concat3("Hash mismatch for ", self.url.as_str(), ": expected ");
        r.append(self.expected.as_str());
        r.append(", got ");
        r.append(self.found.as_str());
        r
    }
}

/// The answer to a file from `url` whose SHA-1, in hex, is `found`: accepted
/// when it is the expected hash, else refused with the URL and both hashes.
pub open spec fn digest_verdict(
    url: Seq<char>,
    expected: Seq<char>,
    found: Seq<char>,
    r: Result<(), HashMismatch>,
) -> bool {
    if found == expected {
        r is Ok
    } else {
        r matches Err(e) && e.url@ == url && e.expected@ == expected && e.found@ == found
    }
}

impl VerifiedFiledSource {
    /// Where the file is downloaded from.
    pub fn url(&self) -> (r: String)
        ensures
            r == self.url,
    {
        self.url.clone()
    }

    /// Judges a file from its SHA-1 digest.
    pub fn check_digest(&self, digest: &[u8]) -> (r: Result<(), HashMismatch>)
        ensures
            digest_verdict(self.url@, self.expected_hash@, hex_lower(digest@), r),
    {
        let found = hex_encode(digest);
        if str_eq(found.as_str(), self.expected_hash.as_str()) {
            Ok(())
        } else {
            Err(HashMismatch { url: self.url.clone(), expected: self.expected_hash.clone(), found })
        }
    }

    /// Judges downloaded bytes: they are accepted exactly when their SHA-1, in
    /// lowercase hex, is the expected hash.
    pub fn check_bytes(&self, bytes: &[u8]) -> (r: Result<(), HashMismatch>)
        ensures
            digest_verdict(self.url@, self.expected_hash@, hex_lower(sha1_digest(bytes@)), r),
    {
        let digest = sha1(bytes);
        self.check_digest(digest.as_slice())
    }
}

} // verus!

verus! {

/// A version whose metadata URL is the one built for `hash` and `version`
/// gives that hash back, as long as the hash holds no `/`.
pub proof fn law_metadata_url_gives_back_its_hash(hash: String, version: String)
    requires
        !hash@.contains('/'),
    ensures
        hash_of_url(source_url(Sources::PistonMeta { hash, version })) == Some(hash@),
{
    let url = source_url(Sources::PistonMeta { hash, version });
    let m = packages_marker();
    let p = piston_meta_prefix();
    reveal_strlit("https://piston-meta.mojang.com/v1/packages/");
    assert(p.len() == 43);
    assert(url.subrange(0, 43) =~= p);
    assert(occurs_at(url, m, 33)) by {
        assert(url.subrange(33, 43) =~= m);
    }
    assert forall|j: int| 0 <= j < 33 implies !#[trigger] occurs_at(url, m, j) by {
        if occurs_at(url, m, j) {
            assert(url.subrange(j, j + 10)[0] == url[j]);
            assert(url.subrange(j, j + 10)[1] == url[j + 1]);
            assert(url.subrange(j, j + 10)[2] == url[j + 2]);
            assert(url[j] == p[j]);
            assert(url[j + 1] == p[j + 1]);
            assert(url[j + 2] == p[j + 2]);
        }
    }
    assert(is_first_occurrence_from(url, m, 0, 33));
    lemma_first_occurrence_from(url, m, 0);
    let f = first_occurrence_from(url, m, 0);
    lemma_first_occurrence_unique(url, m, 0, f->0, 33);
    let rest = url.skip(43);
    assert(rest =~= hash@ + seq!['/'] + version@ + ".json"@);
    let slash = seq!['/'];
    let n = hash@.len() as int;
    assert(occurs_at(rest, slash, n)) by {
        assert(rest.subrange(n, n + 1) =~= slash);
    }
    assert forall|j: int| 0 <= j < n implies !#[trigger] occurs_at(rest, slash, j) by {
        if occurs_at(rest, slash, j) {
            assert(rest.subrange(j, j + 1)[0] == rest[j]);
            assert(rest[j] == hash@[j]);
            assert(hash@.contains('/'));
        }
    }
    assert(is_first_occurrence_from(rest, slash, 0, n));
    lemma_first_occurrence_from(rest, slash, 0);
    let g = first_occurrence_from(rest, slash, 0);
    lemma_first_occurrence_unique(rest, slash, 0, g->0, n);
    assert(rest.take(n) =~= hash@);
}

} // verus!

verus! {

/// When every file is present nothing is missing, and when none is present
/// every target is missing.
pub proof fn law_missing_targets_extremes(ts: Seq<(Seq<char>, Seq<char>, Seq<char>)>, present: Seq<bool>)
    requires
        ts.len() == present.len(),
    ensures
        (forall|i: int| 0 <= i < present.len() ==> #[trigger] present[i]) ==> missing_targets(
            ts,
            present,
        ).len() == 0,
        (forall|i: int| 0 <= i < present.len() ==> !#[trigger] present[i]) ==> missing_targets(
            ts,
            present,
        ) == ts,
    decreases ts.len(),
{
    if ts.len() > 0 {
        let rest = ts.drop_last();
        let pr = present.drop_last();
        law_missing_targets_extremes(rest, pr);
        lemma_missing_targets_prefix(rest, present, pr);
        if forall|i: int| 0 <= i < present.len() ==> !#[trigger] present[i] {
            assert(!present[ts.len() - 1]);
            assert(forall|i: int| 0 <= i < pr.len() ==> !#[trigger] pr[i] || !present[i]);
            assert(missing_targets(rest, pr) == rest);
            assert(rest.push(ts.last()) =~= ts);
        }
        if forall|i: int| 0 <= i < present.len() ==> #[trigger] present[i] {
            assert(present[ts.len() - 1]);
            assert(forall|i: int| 0 <= i < pr.len() ==> #[trigger] pr[i] || present[i]);
        }
    }
}

/// Only the flags of the targets considered matter.
proof fn lemma_missing_targets_prefix(
    ts: Seq<(Seq<char>, Seq<char>, Seq<char>)>,
    p1: Seq<bool>,
    p2: Seq<bool>,
)
    requires
        ts.len() <= p1.len(),
        ts.len() <= p2.len(),
        forall|i: int| 0 <= i < ts.len() ==> p1[i] == p2[i],
    ensures
        missing_targets(ts, p1) == missing_targets(ts, p2),
    decreases ts.len(),
{
    if ts.len() > 0 {
        lemma_missing_targets_prefix(ts.drop_last(), p1, p2);
    }
}

} // verus!

verus! {

/// Each target is selected by its own flag alone: nothing is selected from
/// no targets, and a target added at the end is selected (at the end)
/// exactly when its flag says its file is missing, whatever the flags
/// before it say.
pub proof fn law_each_target_selected_by_its_own_flag(
    ts: Seq<(Seq<char>, Seq<char>, Seq<char>)>,
    t: (Seq<char>, Seq<char>, Seq<char>),
    present: Seq<bool>,
)
    requires
        ts.len() < present.len(),
    ensures
        missing_targets(Seq::empty(), present) == Seq::<(Seq<char>, Seq<char>, Seq<char>)>::empty(),
        !present[ts.len() as int] ==> missing_targets(ts.push(t), present) == missing_targets(
            ts,
            present,
        ).push(t),
        present[ts.len() as int] ==> missing_targets(ts.push(t), present) == missing_targets(
            ts,
            present,
        ),
{
    assert(ts.push(t).drop_last() =~= ts);
}

/// A target is selected exactly when its file is missing: every selected
/// target is some target whose flag is false, and every target whose flag
/// is false is selected.
pub proof fn law_missing_targets_are_the_missing_ones(
    ts: Seq<(Seq<char>, Seq<char>, Seq<char>)>,
    present: Seq<bool>,
)
    requires
        ts.len() <= present.len(),
    ensures
        forall|i: int| 0 <= i < ts.len() && !present[i] ==> missing_targets(ts, present).contains(
            #[trigger] ts[i],
        ),
        forall|x: (Seq<char>, Seq<char>, Seq<char>)|
            #[trigger] missing_targets(ts, present).contains(x) ==> exists|i: int|
                0 <= i < ts.len() && ts[i] == x && !present[i],
    decreases ts.len(),
{
    if ts.len() > 0 {
        let rest = ts.drop_last();
        law_missing_targets_are_the_missing_ones(rest, present);
        let m = missing_targets(ts, present);
        let mr = missing_targets(rest, present);
        assert forall|i: int| 0 <= i < ts.len() && !present[i] implies m.contains(#[trigger] ts[i]) by {
            if i < ts.len() - 1 {
                assert(rest[i] == ts[i]);
                assert(mr.contains(rest[i]));
                let k = choose|k: int| 0 <= k < mr.len() && mr[k] == rest[i];
                if !present[ts.len() - 1] {
                    assert(m[k] == mr[k]);
                }
            } else {
                assert(m[m.len() - 1] == ts[i]);
            }
        }
        assert forall|x: (Seq<char>, Seq<char>, Seq<char>)| #[trigger] m.contains(x) implies exists|i: int|
            0 <= i < ts.len() && ts[i] == x && !present[i] by {
            let k = choose|k: int| 0 <= k < m.len() && m[k] == x;
            if k < mr.len() {
                assert(mr[k] == x);
                assert(mr.contains(x));
                let i = choose|i: int| 0 <= i < rest.len() && rest[i] == x && !present[i];
                assert(ts[i] == x);
            } else {
                assert(ts[ts.len() - 1] == x);
            }
        }
    }
}

} // verus!
