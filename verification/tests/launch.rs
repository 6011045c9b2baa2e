use oxidite_core::dirs::MinecraftDirs;
use oxidite_core::launcher::LaunchSettings;
use oxidite_core::models::piston_meta::{Artifact, Library, LibraryDownloads, Os4, Rule4};
use oxidite_core::models::{OxiditeConfig, PistonMeta};

fn rule(action: &str, os: Option<&str>) -> Rule4 {
    Rule4 { action: action.to_string(), os: os.map(|n| Os4 { name: n.to_string() }) }
}

fn library(path: &str, rules: Vec<Rule4>) -> Library {
    Library {
        downloads: LibraryDownloads {
            artifact: Artifact {
                path: path.to_string(),
                sha1: format!("sha-of-{}", path),
                size: 1,
                url: format!("https://libraries.minecraft.net/{}", path),
            },
        },
        name: path.to_string(),
        rules,
    }
}

fn sample_meta() -> PistonMeta {
    let mut meta = PistonMeta::default();
    meta.id = "1.20.1".to_string();
    meta.main_class = "net.minecraft.client.main.Main".to_string();
    meta.asset_index.id = "5".to_string();
    meta.libraries = vec![
        library("a/a.jar", vec![]),
        library("b/b-natives-osx.jar", vec![rule("allow", Some("osx"))]),
        library("c/c.jar", vec![rule("allow", None), rule("disallow", Some("osx"))]),
        library("d/d-natives-windows.jar", vec![rule("allow", Some("windows"))]),
        library("e/e.jar", vec![rule("allow", None), rule("disallow", Some("windows"))]),
    ];
    meta
}

#[test]
fn is_compatible_rules() {
    assert!(library("x", vec![]).is_compatible());
    assert!(!library("x", vec![rule("allow", Some("linux"))]).is_compatible());
    assert!(library("x", vec![rule("allow", Some("windows"))]).is_compatible());
    assert!(!library("x", vec![rule("disallow", None)]).is_compatible());
    assert!(library("x", vec![rule("allow", None), rule("disallow", Some("osx"))]).is_compatible());
    assert!(!library("x", vec![rule("allow", None), rule("disallow", Some("windows"))]).is_compatible());
    assert!(library("x", vec![rule("disallow", None), rule("allow", Some("windows"))]).is_compatible());
    assert!(!library("x", vec![rule("Allow", None)]).is_compatible());
}

#[test]
fn offline_settings() {
    let s = LaunchSettings::offline("Alejandro");
    assert_eq!(s.username, "Alejandro");
    assert_eq!(s.uuid, "00000000-0000-0000-0000-000000000000");
    assert_eq!(s.access_token, "oxidite_token");
    assert_eq!(s.java_path, "java");
}

#[test]
fn classpath_lists_used_libraries_then_client() {
    let d = MinecraftDirs::new("mc".to_string());
    let s = LaunchSettings::offline("Steve");
    let cp = s.build_classpath(&sample_meta(), &d);
    assert_eq!(
        cp,
        "mc/libraries/a/a.jar:mc/libraries/c/c.jar:mc/libraries/d/d-natives-windows.jar:mc/versions/1.20.1/1.20.1.jar"
    );
}

#[test]
fn classpath_with_no_libraries_is_the_client_jar() {
    let d = MinecraftDirs::new("mc".to_string());
    let mut meta = sample_meta();
    meta.libraries.clear();
    assert_eq!(LaunchSettings::offline("x").build_classpath(&meta, &d), "mc/versions/1.20.1/1.20.1.jar");
}

#[test]
fn classpath_on_windows_layout_uses_semicolons() {
    let d = MinecraftDirs { base: "C:\\mc".to_string(), separator: "\\".to_string() };
    let mut meta = sample_meta();
    meta.libraries.truncate(1);
    assert_eq!(
        LaunchSettings::offline("x").build_classpath(&meta, &d),
        "C:\\mc\\libraries\\a/a.jar;C:\\mc\\versions\\1.20.1\\1.20.1.jar"
    );
}

#[test]
fn command_line() {
    let d = MinecraftDirs::new("mc".to_string());
    let s = LaunchSettings::offline("Steve");
    let meta = sample_meta();
    let mut config = OxiditeConfig::default();
    config.memory_gb = 4;
    config.extra_jvm_args = vec!["-XX:+UseG1GC".to_string(), "-Dfoo=bar".to_string()];
    let cmd = s.create_command(&meta, &d, &config);
    assert_eq!(cmd.program, "java");
    let cp = s.build_classpath(&meta, &d);
    let expected: Vec<String> = vec![
        "-Xmx4G", "-Xms1G", "-XX:+UseG1GC", "-Dfoo=bar", "-Djava.library.path=mc/libraries", "-cp", cp.as_str(),
        "net.minecraft.client.main.Main", "--username", "Steve", "--version", "1.20.1",
        "--gameDir", "mc", "--assetsDir", "mc/assets", "--assetIndex", "5", "--uuid",
        "00000000-0000-0000-0000-000000000000", "--accessToken", "oxidite_token", "--userType",
        "mojang", "--versionType", "release",
    ]
    .into_iter()
    .map(|s| s.to_string())
    .collect();
    assert_eq!(cmd.args, expected);
}

#[test]
fn library_path_loses_trailing_backslashes() {
    let d = MinecraftDirs { base: "C:\\mc".to_string(), separator: "\\".to_string() };
    let cmd = LaunchSettings::offline("x").create_command(&sample_meta(), &d, &OxiditeConfig::default());
    assert_eq!(cmd.args[0], "-Xmx2G");
    assert_eq!(cmd.args[2], "-Djava.library.path=C:\\mc\\libraries");
    assert_eq!(oxidite_core::launcher::trim_end_backslashes("a\\b\\\\"), "a\\b");
    assert_eq!(oxidite_core::launcher::trim_end_backslashes("\\\\"), "");
}
