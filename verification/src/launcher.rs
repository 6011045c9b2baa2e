//! How the game is started: the class path and the command line.
use crate::dirs::{join_path_exec, MinecraftDirs};
use crate::models::piston_meta::{rules_allow, Library};
use crate::models::{OxiditeConfig, PistonMeta};
use crate::text::{chars_of, concat, concat3, decimal, decimal_u64, str_eq, substring};
use vstd::prelude::*;
use vstd::string::StringExecFns;

verus! {

/// Who plays, and which Java runs the game.
#[derive(Debug)]
pub struct LaunchSettings {
    pub username: String,
    pub uuid: String,
    pub access_token: String,
    /// Either "java" or a custom path to javaw.exe
    pub java_path: String,
}

/// A program to run and the arguments to give it.
#[derive(Debug)]
pub struct LaunchCommand {
    pub program: String,
    pub args: Vec<String>,
}

/// The texts of a list of strings.
pub open spec fn texts(v: Seq<String>) -> Seq<Seq<char>> {
    v.map_values(|s: String| s@)
}

/// The parts joined, with `sep` between each two.
pub open spec fn join_with(parts: Seq<Seq<char>>, sep: Seq<char>) -> Seq<char>
    decreases parts.len(),
{
    if parts.len() == 0 {
        Seq::empty()
    } else if parts.len() == 1 {
        parts[0]
    } else {
        join_with(parts.drop_last(), sep) + sep + parts.last()
    }
}

/// The jar paths of the libraries used on this system, in their order.
pub open spec fn library_jars(libs: Seq<Library>, dirs: MinecraftDirs) -> Seq<Seq<char>>
    decreases libs.len(),
{
    if libs.len() == 0 {
        Seq::empty()
    } else {
        let rest = library_jars(libs.drop_last(), dirs);
        let lib = libs.last();
        if rules_allow(lib.rules@) {
            rest.push(dirs.join(dirs.spec_libraries_dir(), lib.downloads.artifact.path@))
        } else {
            rest
        }
    }
}

/// What separates class path entries: ";" where paths use "\" (Windows), ":" elsewhere.
pub open spec fn classpath_separator(path_separator: Seq<char>) -> Seq<char> {
    if path_separator == seq!['\\'] {
        seq![';']
    } else {
        seq![':']
    }
}

/// The class path of a version: its libraries' jars, then the client jar.
pub open spec fn classpath(meta: PistonMeta, dirs: MinecraftDirs) -> Seq<char> {
    join_with(
        library_jars(meta.libraries@, dirs).push(dirs.spec_client_jar_path(meta.id@)),
        classpath_separator(dirs.separator@),
    )
}

/// `s` without the copies of `c` at its end.
pub open spec fn trim_end_char(s: Seq<char>, c: char) -> Seq<char>
    decreases s.len(),
{
    if s.len() > 0 && s.last() == c {
        trim_end_char(s.drop_last(), c)
    } else {
        s
    }
}

/// The JVM's memory options: at most `memory_gb` GB of heap, starting at 1 GB.
pub open spec fn memory_args(memory_gb: u8) -> Seq<Seq<char>> {
    seq!["-Xmx"@ + decimal(memory_gb as nat) + "G"@, "-Xms1G"@]
}

/// The arguments that start a version: the heap size the configuration
/// asks for, the configuration's extra JVM arguments in their order, then the
/// native library path, class path, main class and the game's own options.
pub open spec fn launch_args(
    settings: LaunchSettings,
    meta: PistonMeta,
    dirs: MinecraftDirs,
    config: OxiditeConfig,
) -> Seq<Seq<char>> {
    memory_args(config.memory_gb) + texts(config.extra_jvm_args@) + game_args(settings, meta, dirs)
}

/// The arguments after the JVM options: native library path, class path,
/// main class, then the game's own options.
pub open spec fn game_args(settings: LaunchSettings, meta: PistonMeta, dirs: MinecraftDirs) -> Seq<
    Seq<char>,
> {
    seq![
        "-Djava.library.path="@ + trim_end_char(dirs.spec_libraries_dir(), '\\'),
        "-cp"@,
        classpath(meta, dirs),
        meta.main_class@,
        "--username"@,
        settings.username@,
        "--version"@,
        meta.id@,
        "--gameDir"@,
        dirs.base@,
        "--assetsDir"@,
        dirs.spec_assets_dir(),
        "--assetIndex"@,
        meta.asset_index.id@,
        "--uuid"@,
        settings.uuid@,
        "--accessToken"@,
        settings.access_token@,
        "--userType"@,
        "mojang"@,
        "--versionType"@,
        "release"@,
    ]
}

/// Joins the texts of `parts` with `sep` between each two.
pub fn join_strings(parts: &Vec<String>, sep: &str) -> (r: String)
    ensures
        r@ == join_with(texts(parts@), sep@),
{
    let mut r = String::new();
    let mut i: usize = 0;
    while i < parts.len()
        invariant
            i <= parts@.len(),
            r@ == join_with(texts(parts@.take(i as int)), sep@),
        decreases parts.len() - i,
    {
        assert(texts(parts@.take(i + 1)).drop_last() =~= texts(parts@.take(i as int)));
        if i > 0 {
            r.append(sep);
        } else {
            assert(texts(parts@.take(1)) =~= seq![parts@[0]@]);
        }
        r.append(parts[i].as_str());
        i = i + 1;
    }
    assert(parts@.take(i as int) =~= parts@);
    r
}

/// `s` without the backslashes at its end.
pub fn trim_end_backslashes(s: &str) -> (r: String)
    ensures
        r@ == trim_end_char(s@, '\\'),
{
    let cs = chars_of(s);
    let mut end = cs.len();
    assert(cs@.take(end as int) =~= s@);
    while end > 0 && cs[end - 1] == '\\'
        invariant
            end <= cs@.len(),
            trim_end_char(cs@.take(end as int), '\\') == trim_end_char(s@, '\\'),
        decreases end,
    {
        assert(cs@.take(end as int).drop_last() =~= cs@.take(end - 1));
        end = end - 1;
    }
    assert(cs@.take(end as int) =~= s@.subrange(0, end as int));
    substring(s, 0, end)
}

impl LaunchSettings {
    /// Settings for playing offline as `username`: the UUID and token are
    /// placeholders, which the game does not check offline, and Java is
    /// "java", looked up on the PATH (java.exe on Windows, the platform's java
    /// binary elsewhere).
    pub fn offline(username: &str) -> (r: Self)
        ensures
            r.username@ == username@,
            r.uuid@ == "00000000-0000-0000-0000-000000000000"@,
            r.access_token@ == "oxidite_token"@,
            r.java_path@ == "java"@,
    {
        LaunchSettings {
            username: username.to_owned(),
            uuid: "00000000-0000-0000-0000-000000000000".to_owned(),
            access_token: "oxidite_token".to_owned(),
            java_path: "java".to_owned(),
        }
    }

    /// The class path of `meta`: the jars of the libraries used on this
    /// system, in order, then the client jar, joined by the platform's class
    /// path separator.
    pub fn build_classpath(&self, meta: &PistonMeta, dirs: &MinecraftDirs) -> (r: String)
        ensures
            r@ == classpath(*meta, *dirs),
    {
        let mut parts: Vec<String> = Vec::new();
        let libs_dir = dirs.libraries_dir();
        let mut i: usize = 0;
        while i < meta.libraries.len()
            invariant
                i <= meta.libraries@.len(),
                libs_dir@ == dirs.spec_libraries_dir(),
                texts(parts@) == library_jars(meta.libraries@.take(i as int), *dirs),
            decreases meta.libraries.len() - i,
        {
            let lib = &meta.libraries[i];
            assert(meta.libraries@.take(i + 1).drop_last() =~= meta.libraries@.take(i as int));
            if lib.is_compatible() {
                let p = join_path_exec(
                    libs_dir.as_str(),
                    dirs.separator.as_str(),
                    lib.downloads.artifact.path.as_str(),
                );
                let ghost before = parts@;
                parts.push(p);
                assert(texts(parts@) =~= texts(before).push(p@));
            }
            i = i + 1;
        }
        assert(meta.libraries@.take(i as int) =~= meta.libraries@);
        let ghost jars = parts@;
        parts.push(dirs.client_jar_path(meta.id.as_str()));
        assert(texts(parts@) =~= texts(jars).push(dirs.spec_client_jar_path(meta.id@)));
        let windows_separator = "\\";
        proof {
            reveal_strlit("\\");
            reveal_strlit(";");
            reveal_strlit(":");
            assert(windows_separator@ =~= seq!['\\']);
            assert(";"@ =~= seq![';']);
            assert(":"@ =~= seq![':']);
        }
        let on_windows = str_eq(dirs.separator.as_str(), windows_separator);
        let sep = if on_windows {
            ";"
        } else {
            ":"
        };
        assert(sep@ == classpath_separator(dirs.separator@));
        assert(texts(parts@) == library_jars(meta.libraries@, *dirs).push(dirs.spec_client_jar_path(meta.id@)));
        join_strings(&parts, sep)
    }

    /// The command that starts `meta`'s version with these settings: the
    /// heap is limited to `config.memory_gb` GB and `config.extra_jvm_args`
    /// are passed to the JVM, in order, before the game's arguments.
    pub fn create_command(&self, meta: &PistonMeta, dirs: &MinecraftDirs, config: &OxiditeConfig) -> (r:
        LaunchCommand)
        ensures
            r.program == self.java_path,
            texts(r.args@) == launch_args(*self, *meta, *dirs, *config),
    {
        let classpath = self.build_classpath(meta, dirs);
        let lib_dir = dirs.libraries_dir();
        let lib_path = trim_end_backslashes(lib_dir.as_str());
        let mut args: Vec<String> = Vec::new();
        let gb = decimal_u64(config.memory_gb as u64);
        args.push(concat3("-Xmx", gb.as_str(), "G"));
        args.push("-Xms1G".to_owned());
        assert(texts(args@) =~= memory_args(config.memory_gb));
        let mut i: usize = 0;
        while i < config.extra_jvm_args.len()
            invariant
                i <= config.extra_jvm_args@.len(),
                texts(args@) == memory_args(config.memory_gb) + texts(
                    config.extra_jvm_args@.take(i as int),
                ),
            decreases config.extra_jvm_args.len() - i,
        {
            let ghost before = args@;
            args.push(config.extra_jvm_args[i].clone());
            assert(config.extra_jvm_args@.take(i + 1) =~= config.extra_jvm_args@.take(i as int).push(
                config.extra_jvm_args@[i as int],
            ));
            assert(texts(args@) =~= texts(before).push(config.extra_jvm_args@[i as int]@));
            assert(texts(config.extra_jvm_args@.take(i + 1)) =~= texts(
                config.extra_jvm_args@.take(i as int),
            ).push(config.extra_jvm_args@[i as int]@));
            i = i + 1;
        }
        assert(config.extra_jvm_args@.take(i as int) =~= config.extra_jvm_args@);
        let ghost head = args@;
        args.push(concat("-Djava.library.path=", lib_path.as_str()));
        args.push("-cp".to_owned());
        args.push(classpath);
        args.push(meta.main_class.clone());
        args.push("--username".to_owned());
        args.push(self.username.clone());
        args.push("--version".to_owned());
        args.push(meta.id.clone());
        args.push("--gameDir".to_owned());
        args.push(dirs.base.clone());
        args.push("--assetsDir".to_owned());
        args.push(dirs.assets_dir());
        args.push("--assetIndex".to_owned());
        args.push(meta.asset_index.id.clone());
        args.push("--uuid".to_owned());
        args.push(self.uuid.clone());
        args.push("--accessToken".to_owned());
        args.push(self.access_token.clone());
        args.push("--userType".to_owned());
        args.push("mojang".to_owned());
        args.push("--versionType".to_owned());
        args.push("release".to_owned());
        assert(texts(args@) =~= texts(head) + game_args(*self, *meta, *dirs));
        LaunchCommand { program: self.java_path.clone(), args }
    }
}

} // verus!

verus! {

/// The command passes the class path the way `build_classpath` builds it:
/// after the two memory options and the extra JVM arguments come the native
/// library path, then "-cp" followed by exactly that class path, then the
/// main class. Under the Windows layout the class path's entries are
/// separated by ";", elsewhere by ":".
pub proof fn law_command_carries_the_classpath(
    settings: LaunchSettings,
    meta: PistonMeta,
    dirs: MinecraftDirs,
    config: OxiditeConfig,
)
    ensures
        ({
            let args = launch_args(settings, meta, dirs, config);
            let k: int = 3 + config.extra_jvm_args@.len() as int;
            &&& args.len() == k + 21
            &&& args[k] == "-cp"@
            &&& args[k + 1] == classpath(meta, dirs)
            &&& args[k + 2] == meta.main_class@
        }),
        dirs.separator@ == seq!['\\'] ==> classpath(meta, dirs) == join_with(
            library_jars(meta.libraries@, dirs).push(dirs.spec_client_jar_path(meta.id@)),
            seq![';'],
        ),
        dirs.separator@ != seq!['\\'] ==> classpath(meta, dirs) == join_with(
            library_jars(meta.libraries@, dirs).push(dirs.spec_client_jar_path(meta.id@)),
            seq![':'],
        ),
{
    let args = launch_args(settings, meta, dirs, config);
    let head = memory_args(config.memory_gb) + texts(config.extra_jvm_args@);
    assert(head.len() == 2 + config.extra_jvm_args@.len());
    let k: int = 3 + config.extra_jvm_args@.len() as int;
    assert(args[k] == game_args(settings, meta, dirs)[1]);
    assert(args[k + 1] == game_args(settings, meta, dirs)[2]);
    assert(args[k + 2] == game_args(settings, meta, dirs)[3]);
}

/// Joining two or more parts puts the separator between the joined first
/// parts and the last one; a single part is itself.
pub proof fn law_join_with_parts(parts: Seq<Seq<char>>, last: Seq<char>, sep: Seq<char>)
    ensures
        join_with(seq![last], sep) == last,
        parts.len() > 0 ==> join_with(parts.push(last), sep) == join_with(parts, sep) + sep + last,
{
    assert(parts.push(last).drop_last() =~= parts);
}

} // verus!
