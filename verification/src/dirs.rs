//! Where the launcher keeps the game's files.
//!
//! A path is a text. The main separator is `/` or, on Windows, `\`; on
//! Windows `/` separates parts too, and a path may begin with a drive prefix
//! such as `C:`. Joining a part to a directory follows `Path::join`: a part
//! with a drive prefix stands for itself; a part that begins with a separator
//! keeps only the directory's drive prefix; otherwise the separator goes
//! between the two, unless the directory is empty, is only a drive prefix, or
//! already ends with a separator. (UNC and verbatim prefixes are not modelled.)
use crate::text::{chars_of, concat, concat3, substring};
use vstd::prelude::*;

verus! {

/// The version whose directory is made when none is asked for.
pub const DEFAULT_VERSION: &'static str = "1.21.11";

/// `s` begins with `p`.
pub open spec fn starts_with(s: Seq<char>, p: Seq<char>) -> bool {
    p.len() <= s.len() && s.take(p.len() as int) =~= p
}

/// `s` ends with `p`.
pub open spec fn ends_with(s: Seq<char>, p: Seq<char>) -> bool {
    p.len() <= s.len() && s.skip(s.len() - p.len()) =~= p
}

/// Paths use `\` as their main separator: the Windows convention.
pub open spec fn windows_style(sep: Seq<char>) -> bool {
    sep == seq!['\\']
}

/// `c` separates path parts where `sep` is the main separator: `sep` itself,
/// and with the Windows convention also `/`.
pub open spec fn is_separator(c: char, sep: Seq<char>) -> bool {
    seq![c] == sep || (windows_style(sep) && c == '/')
}

/// `c` is an ASCII letter.
pub open spec fn is_ascii_letter(c: char) -> bool {
    ('a' <= c && c <= 'z') || ('A' <= c && c <= 'Z')
}

/// The drive prefix that `p` begins with (a letter and a colon), under the
/// Windows convention; empty otherwise.
pub open spec fn drive_prefix(p: Seq<char>, sep: Seq<char>) -> Seq<char> {
    if windows_style(sep) && p.len() >= 2 && p[1] == ':' && is_ascii_letter(p[0]) {
        p.take(2)
    } else {
        Seq::empty()
    }
}

/// `p` begins with a separator.
pub open spec fn has_root(p: Seq<char>, sep: Seq<char>) -> bool {
    p.len() > 0 && is_separator(p[0], sep)
}

/// `p` does not lie inside whatever it is joined to: it has a drive prefix or
/// begins with a separator.
pub open spec fn is_rooted(p: Seq<char>, sep: Seq<char>) -> bool {
    drive_prefix(p, sep).len() > 0 || has_root(p, sep)
}

/// The path `seg` inside the directory `base`, with `sep` as the main separator.
///
/// This is `Path::join` for bases without a UNC (`\\server\share`) or
/// verbatim (`\\?\`) prefix. For such a base `Path::join` differs (under a
/// verbatim prefix it also turns each `/` of the part into `\`); this model
/// joins it as any other text.
pub open spec fn join_path(base: Seq<char>, sep: Seq<char>, seg: Seq<char>) -> Seq<char> {
    if drive_prefix(seg, sep).len() > 0 {
        seg
    } else if has_root(seg, sep) {
        drive_prefix(base, sep) + seg
    } else if base.len() == drive_prefix(base, sep).len() || is_separator(base.last(), sep) {
        base + seg
    } else {
        base + sep + seg
    }
}

/// Is `c` a separator where `sep` is the main separator?
fn is_separator_exec(c: char, sep: &Vec<char>) -> (r: bool)
    ensures
        r == is_separator(c, sep@),
{
    let own = sep.len() == 1 && sep[0] == c;
    let windows = sep.len() == 1 && sep[0] == '\\';
    proof {
        if sep@.len() == 1 {
            assert(own == (seq![c] =~= sep@));
            assert(windows == (sep@ =~= seq!['\\']));
        } else {
            assert(seq![c].len() != sep@.len());
            assert(seq!['\\'].len() != sep@.len());
        }
    }
    own || (windows && c == '/')
}

/// How many characters of `p` form its drive prefix.
fn drive_prefix_len(p: &Vec<char>, sep: &Vec<char>) -> (n: usize)
    ensures
        n == drive_prefix(p@, sep@).len(),
        n <= p@.len(),
{
    let windows = sep.len() == 1 && sep[0] == '\\';
    proof {
        if sep@.len() == 1 {
            assert(windows == (sep@ =~= seq!['\\']));
        } else {
            assert(seq!['\\'].len() != sep@.len());
        }
    }
    if windows && p.len() >= 2 && p[1] == ':' && (('a' <= p[0] && p[0] <= 'z') || ('A' <= p[0]
        && p[0] <= 'Z')) {
        2
    } else {
        0
    }
}

/// The path `seg` inside `base`.
pub fn join_path_exec(base: &str, sep: &str, seg: &str) -> (r: String)
    ensures
        r@ == join_path(base@, sep@, seg@),
{
    let bc = chars_of(base);
    let sc = chars_of(sep);
    let gc = chars_of(seg);
    if drive_prefix_len(&gc, &sc) > 0 {
        seg.to_owned()
    } else if gc.len() > 0 && is_separator_exec(gc[0], &sc) {
        let n = drive_prefix_len(&bc, &sc);
        let prefix = substring(base, 0, n);
        assert(prefix@ =~= drive_prefix(base@, sep@));
        concat(prefix.as_str(), seg)
    } else if bc.len() == drive_prefix_len(&bc, &sc) || is_separator_exec(bc[bc.len() - 1], &sc) {
        concat(base, seg)
    } else {
        concat3(base, sep, seg)
    }
}

/// The main separator of path parts on this platform.
///
/// Reads `std::path::MAIN_SEPARATOR_STR`, which is `\` on Windows and `/` on
/// every other platform std supports.
#[verifier::external_body]
fn platform_separator() -> (r: String)
    ensures
        r@ == seq!['/'] || r@ == seq!['\\'],
{
    std::path::MAIN_SEPARATOR_STR.to_string()
}

/// The directory layout of a game installation rooted at `base`.
///
/// Its paths are `join_path` of the parts; a `base` with a UNC or verbatim
/// prefix is joined as plain text, where `Path::join` would not be.
#[derive(Debug)]
pub struct MinecraftDirs {
    pub base: String,
    /// What goes between the parts of a path.
    pub separator: String,
}

impl MinecraftDirs {
    /// The separator is `/` or `\\`.
    pub open spec fn wf(&self) -> bool {
        self.separator@ == seq!['/'] || self.separator@ == seq!['\\']
    }

    /// The layout rooted at `base`, with this platform's separator.
    pub fn new(base: String) -> (r: Self)
        ensures
            r.base == base,
            r.wf(),
    {
        MinecraftDirs { base, separator: platform_separator() }
    }

    /// `seg` inside `dir`, with this layout's separator.
    pub open spec fn join(&self, dir: Seq<char>, seg: Seq<char>) -> Seq<char> {
        join_path(dir, self.separator@, seg)
    }

    pub open spec fn spec_versions_dir(&self) -> Seq<char> {
        self.join(self.base@, "versions"@)
    }

    pub open spec fn spec_version_specific_dir(&self, version: Seq<char>) -> Seq<char> {
        self.join(self.spec_versions_dir(), version)
    }

    pub open spec fn spec_client_jar_path(&self, version: Seq<char>) -> Seq<char> {
        self.join(self.spec_version_specific_dir(version), version + ".jar"@)
    }

    pub open spec fn spec_libraries_dir(&self) -> Seq<char> {
        self.join(self.base@, "libraries"@)
    }

    pub open spec fn spec_assets_dir(&self) -> Seq<char> {
        self.join(self.base@, "assets"@)
    }

    pub open spec fn spec_asset_index_path(&self, id: Seq<char>) -> Seq<char> {
        self.join(self.join(self.spec_assets_dir(), "indexes"@), id + ".json"@)
    }

    /// `<base>/versions`
    pub fn versions_dir(&self) -> (r: String)
        ensures
            r@ == self.spec_versions_dir(),
    {
        join_path_exec(self.base.as_str(), self.separator.as_str(), "versions")
    }

    /// `<base>/versions/<version>`
    pub fn version_specific_dir(&self, version: &str) -> (r: String)
        ensures
            r@ == self.spec_version_specific_dir(version@),
    {
        let versions = self.versions_dir();
        join_path_exec(versions.as_str(), self.separator.as_str(), version)
    }

    /// Returns the path to the client JAR for a specific version.
    /// Example: .minecraft/versions/1.20.1/1.20.1.jar
    pub fn client_jar_path(&self, version: &str) -> (r: String)
        ensures
            r@ == self.spec_client_jar_path(version@),
    {
        let dir = self.version_specific_dir(version);
        let file = concat(version, ".jar");
        join_path_exec(dir.as_str(), self.separator.as_str(), file.as_str())
    }

    /// `<base>/libraries`
    pub fn libraries_dir(&self) -> (r: String)
        ensures
            r@ == self.spec_libraries_dir(),
    {
        join_path_exec(self.base.as_str(), self.separator.as_str(), "libraries")
    }

    /// `<base>/assets`
    pub fn assets_dir(&self) -> (r: String)
        ensures
            r@ == self.spec_assets_dir(),
    {
        join_path_exec(self.base.as_str(), self.separator.as_str(), "assets")
    }

    /// `<base>/assets/indexes/<id>.json`
    pub fn asset_index_path(&self, id: &str) -> (r: String)
        ensures
            r@ == self.spec_asset_index_path(id@),
    {
        let assets = self.assets_dir();
        let indexes = join_path_exec(assets.as_str(), self.separator.as_str(), "indexes");
        let file = concat(id, ".json");
        join_path_exec(indexes.as_str(), self.separator.as_str(), file.as_str())
    }

    /// The directories that must exist before `version` is installed, in the
    /// order they are made: versions, the version's own, libraries, assets'
    /// objects and assets' indexes.
    pub fn create_all_targets(&self, version: &str) -> (r: Vec<String>)
        ensures
            r@.len() == 5,
            r@[0]@ == self.spec_versions_dir(),
            r@[1]@ == self.spec_version_specific_dir(version@),
            r@[2]@ == self.spec_libraries_dir(),
            r@[3]@ == self.join(self.spec_assets_dir(), "objects"@),
            r@[4]@ == self.join(self.spec_assets_dir(), "indexes"@),
    {
        let mut r: Vec<String> = Vec::new();
        r.push(self.versions_dir());
        r.push(self.version_specific_dir(version));
        r.push(self.libraries_dir());
        let assets = self.assets_dir();
        r.push(join_path_exec(assets.as_str(), self.separator.as_str(), "objects"));
        r.push(join_path_exec(assets.as_str(), self.separator.as_str(), "indexes"));
        r
    }
}

/// What `create_dir` should set up.
#[derive(Debug)]
pub struct CreateDirOptions {
    version: Option<String>,
}

impl CreateDirOptions {
    pub fn new(version: Option<String>) -> (r: Self)
        ensures
            r.version() == version,
    {
        CreateDirOptions { version }
    }

    /// The version whose directory is asked for, if any.
    pub closed spec fn version(&self) -> Option<String> {
        self.version
    }

    /// The version whose directory is made: the one asked for, else the default.
    pub open spec fn chosen_version(&self) -> Seq<char> {
        match self.version() {
            Some(v) => v@,
            None => DEFAULT_VERSION@,
        }
    }

    /// The directories that `create_dir` makes inside `dirs.base` (which it
    /// makes first when missing), in order: the chosen version's directory,
    /// libraries and assets.
    pub fn create_dir_targets(&self, dirs: &MinecraftDirs) -> (r: Vec<String>)
        ensures
            r@.len() == 3,
            r@[0]@ == dirs.spec_version_specific_dir(self.chosen_version()),
            r@[1]@ == dirs.spec_libraries_dir(),
            r@[2]@ == dirs.spec_assets_dir(),
    {
        let mut r: Vec<String> = Vec::new();
        match &self.version {
            Some(v) => r.push(dirs.version_specific_dir(v.as_str())),
            None => r.push(dirs.version_specific_dir(DEFAULT_VERSION)),
        }
        r.push(dirs.libraries_dir());
        r.push(dirs.assets_dir());
        r
    }
}

} // verus!

verus! {

/// Joining keeps the directory as a prefix, unless the part is rooted.
pub proof fn lemma_join_extends(base: Seq<char>, sep: Seq<char>, seg: Seq<char>)
    requires
        !is_rooted(seg, sep),
    ensures
        starts_with(join_path(base, sep, seg), base),
{
    let j = join_path(base, sep, seg);
    assert(j.take(base.len() as int) =~= base);
}

/// A prefix of a prefix is a prefix.
pub proof fn lemma_starts_with_trans(a: Seq<char>, b: Seq<char>, c: Seq<char>)
    requires
        starts_with(a, b),
        starts_with(b, c),
    ensures
        starts_with(a, c),
{
    assert(a.take(c.len() as int) =~= b.take(c.len() as int));
}

/// With `/` or `\\` as the main separator, only `/` and `\\` separate.
proof fn lemma_separator_chars(c: char, sep: Seq<char>)
    requires
        sep == seq!['/'] || sep == seq!['\\'],
    ensures
        is_separator(c, sep) ==> (c == '/' || c == '\\'),
{
    if seq![c] == sep {
        assert(seq![c][0] == sep[0]);
    }
}

/// A text that begins with a lowercase letter then another one, or with a
/// dot, is not rooted.
proof fn lemma_not_rooted(seg: Seq<char>, sep: Seq<char>)
    requires
        sep == seq!['/'] || sep == seq!['\\'],
        seg.len() >= 2,
        seg[0] != '/' && seg[0] != '\\',
        seg[1] != ':',
    ensures
        !is_rooted(seg, sep),
{
    lemma_separator_chars(seg[0], sep);
}

/// Appending a suffix that begins with a dot to a part that is not rooted
/// leaves a part that is not rooted.
proof fn lemma_not_rooted_with_extension(part: Seq<char>, ext: Seq<char>, sep: Seq<char>)
    requires
        sep == seq!['/'] || sep == seq!['\\'],
        !is_rooted(part, sep),
        ext.len() >= 2,
        ext[0] == '.',
        ext[1] != ':',
    ensures
        !is_rooted(part + ext, sep),
{
    let p = part + ext;
    lemma_separator_chars(p[0], sep);
    lemma_separator_chars(ext[0], sep);
    if part.len() > 0 {
        lemma_separator_chars(part[0], sep);
    }
    if part.len() == 0 {
        assert(p =~= ext);
    } else if part.len() == 1 {
        assert(p[0] == part[0]);
        assert(p[1] == '.');
    } else {
        assert(p[0] == part[0]);
        assert(p[1] == part[1]);
        if drive_prefix(p, sep).len() > 0 {
            assert(drive_prefix(part, sep).len() > 0);
        }
    }
}

/// Every path of a layout lies inside its base directory, and a version's
/// files lie inside its own directory, inside the versions directory; this
/// holds for a version id and an asset index id that are not themselves
/// rooted (no drive prefix, no leading separator).
pub proof fn law_paths_lie_under_base(dirs: MinecraftDirs, version: Seq<char>, index_id: Seq<char>)
    requires
        dirs.wf(),
        !is_rooted(version, dirs.separator@),
        !is_rooted(index_id, dirs.separator@),
    ensures
        starts_with(dirs.spec_versions_dir(), dirs.base@),
        starts_with(dirs.spec_version_specific_dir(version), dirs.spec_versions_dir()),
        starts_with(dirs.spec_client_jar_path(version), dirs.spec_version_specific_dir(version)),
        starts_with(dirs.spec_client_jar_path(version), dirs.base@),
        starts_with(dirs.spec_libraries_dir(), dirs.base@),
        starts_with(dirs.spec_assets_dir(), dirs.base@),
        starts_with(dirs.spec_asset_index_path(index_id), dirs.spec_assets_dir()),
        starts_with(dirs.spec_asset_index_path(index_id), dirs.base@),
{
    let sep = dirs.separator@;
    reveal_strlit("versions");
    reveal_strlit("libraries");
    reveal_strlit("assets");
    reveal_strlit("indexes");
    reveal_strlit(".jar");
    reveal_strlit(".json");
    lemma_not_rooted("versions"@, sep);
    lemma_not_rooted("libraries"@, sep);
    lemma_not_rooted("assets"@, sep);
    lemma_not_rooted("indexes"@, sep);
    lemma_join_extends(dirs.base@, sep, "versions"@);
    lemma_join_extends(dirs.spec_versions_dir(), sep, version);
    lemma_join_extends(dirs.base@, sep, "libraries"@);
    lemma_join_extends(dirs.base@, sep, "assets"@);
    lemma_not_rooted_with_extension(version, ".jar"@, sep);
    lemma_join_extends(dirs.spec_version_specific_dir(version), sep, version + ".jar"@);
    lemma_starts_with_trans(dirs.spec_version_specific_dir(version), dirs.spec_versions_dir(), dirs.base@);
    lemma_starts_with_trans(dirs.spec_client_jar_path(version), dirs.spec_version_specific_dir(version), dirs.base@);
    lemma_not_rooted_with_extension(index_id, ".json"@, sep);
    let indexes = dirs.join(dirs.spec_assets_dir(), "indexes"@);
    lemma_join_extends(dirs.spec_assets_dir(), sep, "indexes"@);
    lemma_join_extends(indexes, sep, index_id + ".json"@);
    lemma_starts_with_trans(dirs.spec_asset_index_path(index_id), indexes, dirs.spec_assets_dir());
    lemma_starts_with_trans(dirs.spec_asset_index_path(index_id), dirs.spec_assets_dir(), dirs.base@);
}

/// `p` is one path part: not empty, not rooted, and without a separator.
pub open spec fn is_single_part(p: Seq<char>, sep: Seq<char>) -> bool {
    &&& p.len() > 0
    &&& !is_rooted(p, sep)
    &&& forall|i: int| 0 <= i < p.len() ==> !is_separator(#[trigger] p[i], sep)
}

/// Joining a part to a directory that ends in an ordinary part puts exactly
/// one separator between them.
proof fn lemma_join_child(dir: Seq<char>, sep: Seq<char>, part: Seq<char>)
    requires
        sep == seq!['/'] || sep == seq!['\\'],
        dir.len() > 2,
        !is_separator(dir.last(), sep),
        !is_rooted(part, sep),
    ensures
        join_path(dir, sep, part) == dir + sep + part,
{
}

/// A version's directory is the versions directory, a separator, and the
/// version id; its client jar is that directory, a separator, and the id
/// followed by ".jar". So, for an id that is one path part (not empty, no
/// separator, not rooted), the jar's parent is the version's directory,
/// whose parent is the versions directory, which is `versions` inside the base.
pub proof fn law_version_directory_is_a_child(dirs: MinecraftDirs, version: Seq<char>)
    requires
        dirs.wf(),
        is_single_part(version, dirs.separator@),
    ensures
        dirs.spec_versions_dir() == join_path(dirs.base@, dirs.separator@, "versions"@),
        dirs.spec_version_specific_dir(version) == dirs.spec_versions_dir() + dirs.separator@
            + version,
        dirs.spec_client_jar_path(version) == dirs.spec_version_specific_dir(version)
            + dirs.separator@ + version + ".jar"@,
{
    let sep = dirs.separator@;
    reveal_strlit("versions");
    reveal_strlit(".jar");
    lemma_not_rooted("versions"@, sep);
    let vd = dirs.spec_versions_dir();
    assert(ends_with(vd, "versions"@)) by {
        assert(vd.skip(vd.len() - 8) =~= "versions"@);
    }
    assert(vd.last() == 's') by {
        assert(vd.last() == vd.skip(vd.len() - 8)[7]);
    }
    lemma_separator_chars('s', sep);
    lemma_join_child(vd, sep, version);
    let vsd = dirs.spec_version_specific_dir(version);
    assert(vsd.last() == version.last());
    assert(!is_separator(version[version.len() - 1], sep));
    assert(vsd.len() > 2);
    lemma_not_rooted_with_extension(version, ".jar"@, sep);
    lemma_join_child(vsd, sep, version + ".jar"@);
}

} // verus!
