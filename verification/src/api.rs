//! Questions answered from the documents the servers publish: which versions
//! there are, and whether a Java is new enough.
use crate::models::manifest::{has_no_id, is_first_with_id, Manifest, Version};
use crate::dirs::starts_with;
use crate::models::piston_meta::java_status;
use crate::models::PistonMeta;
use crate::text::str_eq;
use vstd::prelude::*;

verus! {

/// The versions in `versions` whose type is `kind`, in their order.
pub open spec fn versions_of_type(versions: Seq<Version>, kind: Seq<char>) -> Seq<Version>
    decreases versions.len(),
{
    if versions.len() == 0 {
        Seq::empty()
    } else {
        let rest = versions_of_type(versions.drop_last(), kind);
        if versions.last().type_field@ == kind {
            rest.push(versions.last())
        } else {
            rest
        }
    }
}

/// The type that a filter keeps: releases, or else snapshots.
pub open spec fn filter_kind(is_release: bool) -> Seq<char> {
    if is_release {
        "release"@
    } else {
        "snapshot"@
    }
}

/// Filtering keeps exactly the versions of the kind: a version is in the
/// result when, and only when, it is listed and of that kind.
pub proof fn law_filter_keeps_exactly_the_kind(versions: Seq<Version>, kind: Seq<char>)
    ensures
        forall|v: Version|
            #[trigger] versions_of_type(versions, kind).contains(v) <==> (versions.contains(v)
                && v.type_field@ == kind),
    decreases versions.len(),
{
    if versions.len() > 0 {
        let rest = versions.drop_last();
        law_filter_keeps_exactly_the_kind(rest, kind);
        assert forall|v: Version|
            #[trigger] versions_of_type(versions, kind).contains(v) <==> (versions.contains(v)
                && v.type_field@ == kind) by {
            if versions.contains(v) {
                let i = choose|i: int| 0 <= i < versions.len() && versions[i] == v;
                if i < versions.len() - 1 {
                    assert(rest[i] == v);
                }
            }
            if rest.contains(v) {
                let i = choose|i: int| 0 <= i < rest.len() && rest[i] == v;
                assert(versions[i] == v);
            }
            if versions_of_type(versions, kind).contains(v) && !versions_of_type(rest, kind).contains(v) {
                let out = versions_of_type(versions, kind);
                let i = choose|i: int| 0 <= i < out.len() && out[i] == v;
                assert(out == versions_of_type(rest, kind).push(versions.last()));
                if i < out.len() - 1 {
                    assert(versions_of_type(rest, kind)[i] == v);
                }
                assert(v == versions.last());
                assert(versions[versions.len() - 1] == v);
            }
            if versions_of_type(rest, kind).contains(v) {
                let r = versions_of_type(rest, kind);
                let i = choose|i: int| 0 <= i < r.len() && r[i] == v;
                if versions.last().type_field@ == kind {
                    assert(versions_of_type(versions, kind)[i] == v);
                }
            }
            if v == versions.last() && v.type_field@ == kind {
                let out = versions_of_type(versions, kind);
                assert(out[out.len() - 1] == v);
            }
        }
    }
}

/// Filtering a second time changes nothing.
pub proof fn law_filter_is_idempotent(versions: Seq<Version>, kind: Seq<char>)
    ensures
        versions_of_type(versions_of_type(versions, kind), kind) == versions_of_type(versions, kind),
    decreases versions.len(),
{
    if versions.len() > 0 {
        let rest = versions.drop_last();
        law_filter_is_idempotent(rest, kind);
        if versions.last().type_field@ == kind {
            let once = versions_of_type(versions, kind);
            assert(once.drop_last() =~= versions_of_type(rest, kind));
        }
    }
}

/// No version is both among the releases and among the snapshots.
pub proof fn law_releases_and_snapshots_are_apart(versions: Seq<Version>, v: Version)
    ensures
        !(versions_of_type(versions, filter_kind(true)).contains(v) && versions_of_type(
            versions,
            filter_kind(false),
        ).contains(v)),
{
    law_filter_keeps_exactly_the_kind(versions, filter_kind(true));
    law_filter_keeps_exactly_the_kind(versions, filter_kind(false));
    crate::models::manifest::law_version_kinds_exclusive(v);
}

/// The releases of the manifest (or, when `is_release` is false, its
/// snapshots), in the manifest's order.
pub fn get_filtered_versions(manifest: &Manifest, is_release: bool) -> (r: Vec<Version>)
    ensures
        r@ == versions_of_type(manifest.versions@, filter_kind(is_release)),
{
    let target_type = if is_release {
        "release"
    } else {
        "snapshot"
    };
    let mut r: Vec<Version> = Vec::new();
    let mut i: usize = 0;
    while i < manifest.versions.len()
        invariant
            i <= manifest.versions@.len(),
            target_type@ == filter_kind(is_release),
            r@ == versions_of_type(manifest.versions@.take(i as int), filter_kind(is_release)),
        decreases manifest.versions.len() - i,
    {
        let v = &manifest.versions[i];
        assert(manifest.versions@.take(i + 1).drop_last() =~= manifest.versions@.take(i as int));
        if str_eq(v.type_field.as_str(), target_type) {
            r.push(v.clone());
        }
        i = i + 1;
    }
    assert(manifest.versions@.take(i as int) =~= manifest.versions@);
    r
}

/// A version is listed: a release, or, unless only releases are asked for, a snapshot.
pub open spec fn is_listed(v: Version, releases_only: bool) -> bool {
    v.type_field@ == "release"@ || (!releases_only && v.type_field@ == "snapshot"@)
}

/// The versions in `versions` that are listed, in their order.
pub open spec fn listed_versions(versions: Seq<Version>, releases_only: bool) -> Seq<Version>
    decreases versions.len(),
{
    if versions.len() == 0 {
        Seq::empty()
    } else {
        let rest = listed_versions(versions.drop_last(), releases_only);
        if is_listed(versions.last(), releases_only) {
            rest.push(versions.last())
        } else {
            rest
        }
    }
}

/// The versions to offer, in the manifest's order: the releases when
/// `releases_only`, otherwise every release and snapshot.
pub fn versions(manifest: &Manifest, releases_only: bool) -> (r: Vec<Version>)
    ensures
        r@ == listed_versions(manifest.versions@, releases_only),
{
    let mut r: Vec<Version> = Vec::new();
    let mut i: usize = 0;
    while i < manifest.versions.len()
        invariant
            i <= manifest.versions@.len(),
            r@ == listed_versions(manifest.versions@.take(i as int), releases_only),
        decreases manifest.versions.len() - i,
    {
        let v = &manifest.versions[i];
        assert(manifest.versions@.take(i + 1).drop_last() =~= manifest.versions@.take(i as int));
        if v.is_release() || (!releases_only && v.is_snapshot()) {
            r.push(v.clone());
        }
        i = i + 1;
    }
    assert(manifest.versions@.take(i as int) =~= manifest.versions@);
    r
}

/// With only releases asked for, the versions offered are the releases.
pub proof fn law_releases_only_lists_the_releases(versions: Seq<Version>)
    ensures
        listed_versions(versions, true) == versions_of_type(versions, filter_kind(true)),
    decreases versions.len(),
{
    if versions.len() > 0 {
        law_releases_only_lists_the_releases(versions.drop_last());
    }
}

/// The versions offered are exactly the listed versions of the manifest:
/// with `releases_only` false, every release and every snapshot.
pub proof fn law_versions_offered_are_the_listed_ones(versions: Seq<Version>, releases_only: bool)
    ensures
        forall|v: Version|
            #[trigger] listed_versions(versions, releases_only).contains(v) <==> (versions.contains(
                v,
            ) && is_listed(v, releases_only)),
    decreases versions.len(),
{
    if versions.len() > 0 {
        let rest = versions.drop_last();
        law_versions_offered_are_the_listed_ones(rest, releases_only);
        let out = listed_versions(versions, releases_only);
        let r = listed_versions(rest, releases_only);
        assert forall|v: Version|
            #[trigger] listed_versions(versions, releases_only).contains(v) <==> (versions.contains(
                v,
            ) && is_listed(v, releases_only)) by {
            if versions.contains(v) {
                let i = choose|i: int| 0 <= i < versions.len() && versions[i] == v;
                if i < versions.len() - 1 {
                    assert(rest[i] == v);
                }
            }
            if rest.contains(v) {
                let i = choose|i: int| 0 <= i < rest.len() && rest[i] == v;
                assert(versions[i] == v);
            }
            if out.contains(v) && !r.contains(v) {
                let i = choose|i: int| 0 <= i < out.len() && out[i] == v;
                assert(out == r.push(versions.last()));
                if i < out.len() - 1 {
                    assert(r[i] == v);
                }
                assert(versions[versions.len() - 1] == v);
            }
            if r.contains(v) {
                let i = choose|i: int| 0 <= i < r.len() && r[i] == v;
                if is_listed(versions.last(), releases_only) {
                    assert(out[i] == v);
                }
            }
            if v == versions.last() && is_listed(v, releases_only) {
                assert(out[out.len() - 1] == v);
            }
        }
    }
}

/// The first version of the manifest whose id is `id`.
pub fn find_version_by_id(manifest: &Manifest, id: &str) -> (r: Option<Version>)
    ensures
        r matches Some(v) ==> exists|i: int|
            is_first_with_id(manifest.versions@, id@, i) && v == #[trigger] manifest.versions@[i],
        r is None ==> has_no_id(manifest.versions@, id@),
{
    match manifest.find_version(id) {
        Some(v) => Some(v.clone()),
        None => None,
    }
}

/// Can a user with Java `user_java_version` run the version `metadata`
/// describes? Only if that Java is at least the one it requires.
pub fn check_java_compatibility(metadata: &PistonMeta, user_java_version: i64) -> (r: bool)
    ensures
        r == (user_java_version >= metadata.java_version.major_version),
{
    let required_java = metadata.java_version.major_version;
    user_java_version >= required_java
}

} // verus!

verus! {

/// The status message and the compatibility check agree: the message begins
/// with "Compatible" exactly when the user's Java is at least the required one.
pub proof fn law_java_status_agrees_with_check(required: i64, current: i64)
    ensures
        starts_with(java_status(current as int, required as int), "Compatible"@) <==> current
            >= required,
{
    reveal_strlit("Compatible");
    reveal_strlit("Compatible: Java ");
    reveal_strlit("Incompatible: Java ");
    let m = java_status(current as int, required as int);
    if current >= required {
        assert(m.take(10) =~= "Compatible"@);
    } else {
        assert(m[0] == 'I');
        assert("Compatible"@[0] == 'C');
        assert(m.take(10)[0] == 'I');
    }
}

} // verus!

verus! {

/// Only releases and snapshots are ever offered, and a version is offered
/// exactly when the manifest lists it and it is a release, or a snapshot
/// while not only releases are asked for; a version added at the end of the
/// manifest is added at the end of the offer exactly then.
pub proof fn law_versions_offered_are_releases_and_snapshots(
    versions: Seq<Version>,
    releases_only: bool,
    v: Version,
)
    ensures
        forall|i: int|
            0 <= i < listed_versions(versions, releases_only).len() ==> {
                let t = (#[trigger] listed_versions(versions, releases_only)[i]).type_field@;
                t == "release"@ || (!releases_only && t == "snapshot"@)
            },
        listed_versions(versions, releases_only).contains(v) <==> (versions.contains(v) && (
        (!releases_only && v.type_field@ == "snapshot"@) || v.type_field@ == "release"@)),
        listed_versions(versions.push(v), releases_only) == if v.type_field@ == "release"@ || (
        !releases_only && v.type_field@ == "snapshot"@) {
            listed_versions(versions, releases_only).push(v)
        } else {
            listed_versions(versions, releases_only)
        },
{
    law_versions_offered_are_the_listed_ones(versions, releases_only);
    let out = listed_versions(versions, releases_only);
    assert forall|i: int| 0 <= i < out.len() implies {
        let t = (#[trigger] out[i]).type_field@;
        t == "release"@ || (!releases_only && t == "snapshot"@)
    } by {
        assert(out.contains(out[i]));
    }
    assert(versions.push(v).drop_last() =~= versions);
}

} // verus!
