//! Which asset files a version needs, where each is stored, and how their
//! progress is told.
//!
//! An asset is stored under `assets/objects/<first two bytes of its hash>/<hash>`
//! and served from `https://resources.download.minecraft.net/<same two bytes>/<hash>`.
use crate::dirs::{join_path, join_path_exec, MinecraftDirs};
use crate::models::assets::{AssetIndex, AssetObject};
use crate::models::ProgressReport;
use crate::sources::{targets_view, VerifiedFiledSource};
use crate::text::{chars_of, concat, concat3, decimal, decimal_u64, substring};
use vstd::prelude::*;
use vstd::string::StringExecFns;

verus! {

/// The first two bytes of `hash` (in UTF-8) are whole characters, so the
/// hash can be cut there: one character below U+0080 then another, or one
/// character from U+0080 to U+07FF.
pub open spec fn cuttable_hash(hash: Seq<char>) -> bool {
    ||| hash.len() >= 2 && (hash[0] as u32) < 0x80 && (hash[1] as u32) < 0x80
    ||| hash.len() >= 1 && 0x80 <= (hash[0] as u32) < 0x800
}

/// The characters in the first two bytes of a cuttable hash.
pub open spec fn hash_prefix(hash: Seq<char>) -> Seq<char> {
    if (hash[0] as u32) < 0x80 {
        hash.take(2)
    } else {
        hash.take(1)
    }
}

/// Where the asset with this hash is served.
pub open spec fn asset_url(hash: Seq<char>) -> Seq<char> {
    "https://resources.download.minecraft.net/"@ + hash_prefix(hash) + seq!['/'] + hash
}

/// Where the asset with this hash is stored.
pub open spec fn asset_dest(dirs: MinecraftDirs, hash: Seq<char>) -> Seq<char> {
    dirs.join(dirs.join(dirs.join(dirs.spec_assets_dir(), "objects"@), hash_prefix(hash)), hash)
}

/// The download of one asset.
pub open spec fn asset_target(dirs: MinecraftDirs, object: AssetObject) -> (Seq<char>, Seq<char>, Seq<char>) {
    (asset_url(object.hash@), asset_dest(dirs, object.hash@), object.hash@)
}

/// Every object of the index can be cut.
pub open spec fn all_cuttable(objects: Seq<(String, AssetObject)>) -> bool {
    forall|i: int| 0 <= i < objects.len() ==> cuttable_hash((#[trigger] objects[i]).1.hash@)
}

/// The message shown after `current` of `total` assets have been handled.
pub open spec fn asset_progress_message(current: nat, total: nat) -> Seq<char> {
    "Sincronizando assets... ("@ + decimal(current) + " de "@ + decimal(total) + ")"@
}

/// Can `hash` be cut after its first two bytes?
pub fn is_cuttable_hash(hash: &str) -> (r: bool)
    ensures
        r == cuttable_hash(hash@),
{
    let cs = chars_of(hash);
    if cs.len() >= 2 && (cs[0] as u32) < 0x80 && (cs[1] as u32) < 0x80 {
        true
    } else {
        cs.len() >= 1 && 0x80 <= (cs[0] as u32) && (cs[0] as u32) < 0x800
    }
}

/// The characters in the first two bytes of `hash`.
pub fn prefix_of_hash(hash: &str) -> (r: String)
    requires
        cuttable_hash(hash@),
    ensures
        r@ == hash_prefix(hash@),
{
    let cs = chars_of(hash);
    let n: usize = if (cs[0] as u32) < 0x80 {
        2
    } else {
        1
    };
    let r = substring(hash, 0, n);
    assert(r@ =~= hash_prefix(hash@));
    r
}

/// The download of the asset with this hash.
pub fn asset_download(dirs: &MinecraftDirs, object: &AssetObject) -> (r: VerifiedFiledSource)
    requires
        cuttable_hash(object.hash@),
    ensures
        r.url@ == asset_url(object.hash@),
        r.dest@ == asset_dest(*dirs, object.hash@),
        r.expected_hash@ == object.hash@,
{
    let hash = object.hash.as_str();
    let prefix = prefix_of_hash(hash);
    let assets = dirs.assets_dir();
    let objects = join_path_exec(assets.as_str(), dirs.separator.as_str(), "objects");
    let bucket = join_path_exec(objects.as_str(), dirs.separator.as_str(), prefix.as_str());
    let dest = join_path_exec(bucket.as_str(), dirs.separator.as_str(), hash);
    let slash = "/";
    proof {
        reveal_strlit("/");
    }
    let mut url = concat3("https://resources.download.minecraft.net/", prefix.as_str(), slash);
    url.append(hash);
    VerifiedFiledSource { url, dest, expected_hash: object.hash.clone() }
}

/// The downloads of all the objects of `index`, in its order, whether or not
/// the file is already there.
pub fn plan_downloads(index: &AssetIndex, dirs: &MinecraftDirs) -> (r: Vec<VerifiedFiledSource>)
    requires
        all_cuttable(index.entries()),
    ensures
        r@.len() == index.entries().len(),
        forall|i: int|
            0 <= i < r@.len() ==> targets_view(r@)[i] == asset_target(
                *dirs,
                #[trigger] index.entries()[i].1,
            ),
{
    let objects = index.objects();
    let mut r: Vec<VerifiedFiledSource> = Vec::new();
    let mut i: usize = 0;
    while i < objects.len()
        invariant
            i <= objects@.len(),
            objects@ == index.entries(),
            all_cuttable(objects@),
            r@.len() == i,
            forall|k: int|
                0 <= k < i ==> targets_view(r@)[k] == asset_target(
                    *dirs,
                    #[trigger] objects@[k].1,
                ),
        decreases objects.len() - i,
    {
        let object = &objects[i].1;
        assert(cuttable_hash(objects@[i as int].1.hash@));
        let t = asset_download(dirs, object);
        r.push(t);
        i = i + 1;
    }
    r
}

/// The report after `current` of `total` assets have been handled.
pub fn progress(current: usize, total: usize) -> (r: ProgressReport)
    ensures
        r.current == current,
        r.total == total,
        r.message@ == asset_progress_message(current as nat, total as nat),
{
    let c = decimal_u64(current as u64);
    let t = decimal_u64(total as u64);
    let mut message = concat("Sincronizando assets... (", c.as_str());
    message.append(" de ");
    message.append(t.as_str());
    message.append(")");
    ProgressReport { current, total, message }
}

} // verus!

verus! {

/// Joining always ends with the part joined.
proof fn lemma_join_ends_with_part(base: Seq<char>, sep: Seq<char>, seg: Seq<char>)
    ensures
        crate::dirs::ends_with(join_path(base, sep, seg), seg),
{
    let j = join_path(base, sep, seg);
    assert(j.skip(j.len() - seg.len()) =~= seg);
}

/// An asset is stored in a file named by its hash, under `assets/objects`,
/// and served from a URL that ends with its hash: the name of the file is
/// the hash it is checked against.
pub proof fn law_asset_file_is_named_by_its_hash(dirs: MinecraftDirs, object: AssetObject)
    requires
        cuttable_hash(object.hash@),
    ensures
        crate::dirs::ends_with(asset_target(dirs, object).1, object.hash@),
        crate::dirs::ends_with(asset_target(dirs, object).0, object.hash@),
        asset_target(dirs, object).2 == object.hash@,
{
    let h = object.hash@;
    let bucket = dirs.join(dirs.join(dirs.spec_assets_dir(), "objects"@), hash_prefix(h));
    lemma_join_ends_with_part(bucket, dirs.separator@, h);
    let u = asset_url(h);
    assert(u.skip(u.len() - h.len()) =~= h);
}

} // verus!

verus! {

/// An asset is served from the server root, then the first two bytes of its
/// hash as a directory, then the hash; it is stored under
/// `assets/objects/<same two bytes>/<hash>`. For a hash whose first two
/// characters are ASCII those bytes are the two characters; for one that
/// begins with a character of two bytes, they are that character.
pub proof fn law_asset_location_by_hash(dirs: MinecraftDirs, hash: Seq<char>)
    requires
        cuttable_hash(hash),
    ensures
        (hash[0] as u32) < 0x80 ==> asset_url(hash) == "https://resources.download.minecraft.net/"@
            + hash.take(2) + seq!['/'] + hash,
        (hash[0] as u32) < 0x80 ==> asset_dest(dirs, hash) == join_path(
            join_path(
                join_path(dirs.spec_assets_dir(), dirs.separator@, "objects"@),
                dirs.separator@,
                hash.take(2),
            ),
            dirs.separator@,
            hash,
        ),
        0x80 <= (hash[0] as u32) ==> asset_url(hash) == "https://resources.download.minecraft.net/"@
            + hash.take(1) + seq!['/'] + hash,
        0x80 <= (hash[0] as u32) ==> asset_dest(dirs, hash) == join_path(
            join_path(
                join_path(dirs.spec_assets_dir(), dirs.separator@, "objects"@),
                dirs.separator@,
                hash.take(1),
            ),
            dirs.separator@,
            hash,
        ),
{
}

} // verus!
