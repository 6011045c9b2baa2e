//! Which library jars a version needs downloaded, and how their progress is told.
use crate::dirs::{join_path, join_path_exec, MinecraftDirs};
use crate::models::piston_meta::{rules_allow, Library};
use crate::models::{PistonMeta, ProgressReport};
use crate::sources::{targets_view, VerifiedFiledSource};
use crate::text::{concat, decimal, decimal_u64};
use vstd::prelude::*;
use vstd::string::StringExecFns;

verus! {

/// The download of a library's jar: from its artifact URL to its path under
/// the libraries directory, checked against its artifact hash.
pub open spec fn library_target(lib: Library, dirs: MinecraftDirs) -> (Seq<char>, Seq<char>, Seq<char>) {
    (
        lib.downloads.artifact.url@,
        dirs.join(dirs.spec_libraries_dir(), lib.downloads.artifact.path@),
        lib.downloads.artifact.sha1@,
    )
}

/// The downloads of the libraries used on this system, in order.
pub open spec fn library_targets(libs: Seq<Library>, dirs: MinecraftDirs) -> Seq<
    (Seq<char>, Seq<char>, Seq<char>),
>
    decreases libs.len(),
{
    if libs.len() == 0 {
        Seq::empty()
    } else {
        let rest = library_targets(libs.drop_last(), dirs);
        if rules_allow(libs.last().rules@) {
            rest.push(library_target(libs.last(), dirs))
        } else {
            rest
        }
    }
}

/// The message shown after `current` of `total` library downloads have finished.
pub open spec fn library_progress_message(current: nat, total: nat) -> Seq<char> {
    "Downloading "@ + decimal(current) + " out of "@ + decimal(total)
}

/// The downloads of every library of `meta` that is used on this system, in
/// the order `meta` lists them, whether or not the file is already there.
pub fn plan_downloads(meta: &PistonMeta, dirs: &MinecraftDirs) -> (r: Vec<VerifiedFiledSource>)
    ensures
        targets_view(r@) == library_targets(meta.libraries@, *dirs),
{
    let mut r: Vec<VerifiedFiledSource> = Vec::new();
    let libs_dir = dirs.libraries_dir();
    let mut i: usize = 0;
    while i < meta.libraries.len()
        invariant
            i <= meta.libraries@.len(),
            libs_dir@ == dirs.spec_libraries_dir(),
            targets_view(r@) == library_targets(meta.libraries@.take(i as int), *dirs),
        decreases meta.libraries.len() - i,
    {
        let lib = &meta.libraries[i];
        assert(meta.libraries@.take(i + 1).drop_last() =~= meta.libraries@.take(i as int));
        if lib.is_compatible() {
            let artifact = &lib.downloads.artifact;
            let dest = join_path_exec(libs_dir.as_str(), dirs.separator.as_str(), artifact.path.as_str());
            let t = VerifiedFiledSource {
                url: artifact.url.clone(),
                dest,
                expected_hash: artifact.sha1.clone(),
            };
            let ghost before = r@;
            r.push(t);
            assert(targets_view(r@) =~= targets_view(before).push(library_target(*lib, *dirs)));
        }
        i = i + 1;
    }
    assert(meta.libraries@.take(i as int) =~= meta.libraries@);
    r
}

/// The report after `current` of `total` library downloads have finished.
pub fn progress(current: usize, total: usize) -> (r: ProgressReport)
    ensures
        r.current == current,
        r.total == total,
        r.message@ == library_progress_message(current as nat, total as nat),
{
    let c = decimal_u64(current as u64);
    let t = decimal_u64(total as u64);
    let mut message = concat("Downloading ", c.as_str());
    message.append(" out of ");
    message.append(t.as_str());
    ProgressReport { current, total, message }
}

} // verus!

verus! {

/// The class path names exactly the jars that are downloaded for the
/// libraries: the same files, in the same order.
pub proof fn law_classpath_names_downloaded_jars(libs: Seq<Library>, dirs: MinecraftDirs)
    ensures
        crate::launcher::library_jars(libs, dirs) == library_targets(libs, dirs).map_values(
            |t: (Seq<char>, Seq<char>, Seq<char>)| t.1,
        ),
    decreases libs.len(),
{
    if libs.len() > 0 {
        law_classpath_names_downloaded_jars(libs.drop_last(), dirs);
        let f = |t: (Seq<char>, Seq<char>, Seq<char>)| t.1;
        let rest = library_targets(libs.drop_last(), dirs);
        if rules_allow(libs.last().rules@) {
            assert(rest.push(library_target(libs.last(), dirs)).map_values(f) =~= rest.map_values(
                f,
            ).push(library_target(libs.last(), dirs).1));
        }
    }
}

} // verus!

verus! {

/// Every library whose rules allow it here is downloaded, and no other: no
/// library gives no download, and a library added at the end adds its jar's
/// download at the end exactly when its rules allow it; the same holds of
/// the class path, which gains the jar's path under the libraries directory.
pub proof fn law_allowed_libraries_are_planned(libs: Seq<Library>, lib: Library, dirs: MinecraftDirs)
    ensures
        library_targets(Seq::empty(), dirs) == Seq::<(Seq<char>, Seq<char>, Seq<char>)>::empty(),
        rules_allow(lib.rules@) ==> library_targets(libs.push(lib), dirs) == library_targets(
            libs,
            dirs,
        ).push(
            (
                lib.downloads.artifact.url@,
                join_path(dirs.spec_libraries_dir(), dirs.separator@, lib.downloads.artifact.path@),
                lib.downloads.artifact.sha1@,
            ),
        ),
        !rules_allow(lib.rules@) ==> library_targets(libs.push(lib), dirs) == library_targets(
            libs,
            dirs,
        ),
        crate::launcher::library_jars(Seq::empty(), dirs) == Seq::<Seq<char>>::empty(),
        rules_allow(lib.rules@) ==> crate::launcher::library_jars(libs.push(lib), dirs)
            == crate::launcher::library_jars(libs, dirs).push(
            join_path(dirs.spec_libraries_dir(), dirs.separator@, lib.downloads.artifact.path@),
        ),
        !rules_allow(lib.rules@) ==> crate::launcher::library_jars(libs.push(lib), dirs)
            == crate::launcher::library_jars(libs, dirs),
{
    assert(libs.push(lib).drop_last() =~= libs);
}

} // verus!
