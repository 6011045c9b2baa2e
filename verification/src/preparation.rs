//! The decisions of preparing a version: which version, which hash, and
//! which client jar.
use crate::dirs::MinecraftDirs;
use crate::models::manifest::{has_no_id, hash_of_url, is_first_with_id, Manifest, Version};
use crate::models::{OxiditeError, PistonMeta};
use crate::sources::{law_metadata_url_gives_back_its_hash, source_url, Sources, VerifiedFiledSource};
use vstd::prelude::*;

verus! {

/// The id that preparing asks for: the given one, else the latest release.
pub open spec fn requested_id(manifest: Manifest, version_id: Option<&str>) -> Seq<char> {
    match version_id {
        Some(id) => id@,
        None => manifest.latest.release@,
    }
}

/// The message of the error for a version URL without a hash.
pub open spec fn missing_hash_message() -> Seq<char> {
    "Could not extract hash from manifest URL"@
}

/// The outcome of choosing a version to prepare: the first version with the
/// requested id and the hash its URL carries; `VersionNotFound` with the id
/// when none has it; `MetadataError` when its URL carries no hash.
pub open spec fn selection(
    manifest: Manifest,
    version_id: Option<&str>,
    r: Result<(Version, String), OxiditeError>,
) -> bool {
    let id = requested_id(manifest, version_id);
    if has_no_id(manifest.versions@, id) {
        r matches Err(OxiditeError::VersionNotFound(s)) && s@ == id
    } else {
        exists|i: int|
            #![trigger manifest.versions@[i]]
            is_first_with_id(manifest.versions@, id, i) && match hash_of_url(
                manifest.versions@[i].url@,
            ) {
                Some(h) => r matches Ok((v, hash)) && v == manifest.versions@[i] && hash@ == h,
                None => r matches Err(OxiditeError::MetadataError(m)) && m@
                    == missing_hash_message(),
            }
    }
}

/// Chooses the version to prepare, `version_id` or else the latest release,
/// and the hash under which its metadata is published.
pub fn select_version(manifest: &Manifest, version_id: Option<&str>) -> (r: Result<
    (Version, String),
    OxiditeError,
>)
    ensures
        selection(*manifest, version_id, r),
{
    let id: &str = match version_id {
        Some(id) => id,
        None => manifest.latest.release.as_str(),
    };
    match manifest.find_version(id) {
        None => Err(OxiditeError::VersionNotFound(id.to_owned())),
        Some(entry) => match entry.get_hash() {
            Some(hash) => Ok((entry.clone(), hash)),
            None => Err(
                OxiditeError::MetadataError("Could not extract hash from manifest URL".to_owned()),
            ),
        },
    }
}

/// The download of a version's client jar: from the URL its metadata gives
/// to `versions/<id>/<id>.jar`, checked against the hash its metadata gives.
pub fn client_download(meta: &PistonMeta, dirs: &MinecraftDirs) -> (r: VerifiedFiledSource)
    ensures
        r.url == meta.downloads.client.url,
        r.dest@ == dirs.spec_client_jar_path(meta.id@),
        r.expected_hash == meta.downloads.client.sha1,
{
    VerifiedFiledSource {
        url: meta.downloads.client.url.clone(),
        dest: dirs.client_jar_path(meta.id.as_str()),
        expected_hash: meta.downloads.client.sha1.clone(),
    }
}

} // verus!

verus! {

/// When the manifest lists a version under the metadata URL built from its
/// hash and id (the hash holding no `/`), preparing it succeeds and fetches
/// the metadata from that very URL.
pub proof fn law_prepared_metadata_url_is_the_listed_one(
    manifest: Manifest,
    version_id: Option<&str>,
    r: Result<(Version, String), OxiditeError>,
    i: int,
    hash: String,
)
    requires
        selection(manifest, version_id, r),
        is_first_with_id(manifest.versions@, requested_id(manifest, version_id), i),
        manifest.versions@[i].url@ == source_url(
            Sources::PistonMeta { hash, version: manifest.versions@[i].id },
        ),
        !hash@.contains('/'),
    ensures
        r matches Ok((v, h)) && v == manifest.versions@[i] && source_url(
            Sources::PistonMeta { hash: h, version: v.id },
        ) == manifest.versions@[i].url@,
{
    let id = requested_id(manifest, version_id);
    law_metadata_url_gives_back_its_hash(hash, manifest.versions@[i].id);
    assert(!has_no_id(manifest.versions@, id));
    let k = choose|k: int|
        #![trigger manifest.versions@[k]]
        is_first_with_id(manifest.versions@, id, k) && match hash_of_url(
            manifest.versions@[k].url@,
        ) {
            Some(h) => r matches Ok((v, hash)) && v == manifest.versions@[k] && hash@ == h,
            None => r matches Err(OxiditeError::MetadataError(m)) && m@ == missing_hash_message(),
        };
    if k < i {
        assert(manifest.versions@[k].id@ != id);
    } else if i < k {
        assert(manifest.versions@[i].id@ != id);
    }
}

} // verus!
