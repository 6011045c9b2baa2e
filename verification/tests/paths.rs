use oxidite_core::dirs::{CreateDirOptions, MinecraftDirs};
use oxidite_core::models::OxiditeConfig;

fn dirs(base: &str) -> MinecraftDirs {
    let d = MinecraftDirs::new(base.to_string());
    assert_eq!(d.separator, std::path::MAIN_SEPARATOR_STR);
    d
}

#[test]
fn client_jar_path_example() {
    let d = dirs(".minecraft");
    assert_eq!(d.client_jar_path("1.20.1"), ".minecraft/versions/1.20.1/1.20.1.jar");
}

#[test]
fn layout_paths() {
    let d = dirs("/games/mc");
    assert_eq!(d.versions_dir(), "/games/mc/versions");
    assert_eq!(d.version_specific_dir("1.21.1"), "/games/mc/versions/1.21.1");
    assert_eq!(d.libraries_dir(), "/games/mc/libraries");
    assert_eq!(d.assets_dir(), "/games/mc/assets");
    assert_eq!(d.asset_index_path("17"), "/games/mc/assets/indexes/17.json");
}

#[test]
fn paths_agree_with_pathbuf_join() {
    for base in ["/games/mc", "mc/", "", "a"] {
        let d = dirs(base);
        let expected = std::path::PathBuf::from(base).join("versions").join("1.2").join("1.2.jar");
        assert_eq!(d.client_jar_path("1.2"), expected.to_str().unwrap());
        let expected = std::path::PathBuf::from(base).join("assets").join("indexes").join("5.json");
        assert_eq!(d.asset_index_path("5"), expected.to_str().unwrap());
    }
}

#[test]
fn rooted_version_replaces_the_directory() {
    let d = dirs("/games/mc");
    assert_eq!(d.version_specific_dir("/tmp/x"), "/tmp/x");
}

#[test]
fn create_all_targets_in_order() {
    let d = dirs("base");
    assert_eq!(
        d.create_all_targets("1.20.1"),
        vec![
            "base/versions".to_string(),
            "base/versions/1.20.1".to_string(),
            "base/libraries".to_string(),
            "base/assets/objects".to_string(),
            "base/assets/indexes".to_string(),
        ]
    );
}

#[test]
fn create_dir_targets_default_version() {
    let d = dirs("root");
    let none = CreateDirOptions::new(None);
    assert_eq!(
        none.create_dir_targets(&d),
        vec![
            "root/versions/1.21.11".to_string(),
            "root/libraries".to_string(),
            "root/assets".to_string(),
        ]
    );
    let some = CreateDirOptions::new(Some("1.8.9".to_string()));
    assert_eq!(some.create_dir_targets(&d)[0], "root/versions/1.8.9");
}

#[test]
fn default_config() {
    let c = OxiditeConfig::default();
    assert_eq!(c.base_path, "./minecraft.oxidite");
    assert_eq!(c.java_path, "java");
    assert_eq!(c.max_parallel_downloads, 10);
    assert_eq!(c.memory_gb, 2);
    assert!(c.extra_jvm_args.is_empty());
}

fn windows(base: &str) -> MinecraftDirs {
    MinecraftDirs { base: base.to_string(), separator: "\\".to_string() }
}

#[test]
fn windows_layout_joins() {
    let d = windows("C:\\.minecraft_oxidite");
    assert_eq!(d.client_jar_path("1.20.1"), "C:\\.minecraft_oxidite\\versions\\1.20.1\\1.20.1.jar");
    assert_eq!(windows("C:\\mc\\").versions_dir(), "C:\\mc\\versions");
    assert_eq!(windows("C:\\mc/").versions_dir(), "C:\\mc/versions");
    assert_eq!(windows("C:").versions_dir(), "C:versions");
    assert_eq!(windows("C:\\mc").version_specific_dir("\\other"), "C:\\other");
    assert_eq!(windows("C:\\mc").version_specific_dir("/other"), "C:/other");
    assert_eq!(windows("C:\\mc").version_specific_dir("D:\\x"), "D:\\x");
    assert_eq!(windows("C:\\mc").version_specific_dir("D:x"), "D:x");
}

#[test]
fn version_directory_is_a_child() {
    let d = dirs("/games/mc");
    let v = "1.20.1";
    assert_eq!(d.version_specific_dir(v), format!("{}/{}", d.versions_dir(), v));
    assert_eq!(d.client_jar_path(v), format!("{}/{}.jar", d.version_specific_dir(v), v));
    let jar = std::path::PathBuf::from(d.client_jar_path(v));
    assert_eq!(jar.parent().unwrap().to_str().unwrap(), d.version_specific_dir(v));
    let dir = std::path::PathBuf::from(d.version_specific_dir(v));
    assert_eq!(dir.parent().unwrap().to_str().unwrap(), d.versions_dir());
    assert_eq!(dir.file_name().unwrap().to_str().unwrap(), v);
}
