use oxidite_core::api::{check_java_compatibility, get_filtered_versions};
use oxidite_core::assets;
use oxidite_core::dirs::MinecraftDirs;
use oxidite_core::launcher::LaunchSettings;
use oxidite_core::libraries;
use oxidite_core::models::assets::{AssetIndex, AssetObject};
use oxidite_core::models::manifest::{Latest, Manifest, Version};
use oxidite_core::models::piston_meta::{Artifact, Library, LibraryDownloads, Os4, Rule4};
use oxidite_core::models::PistonMeta;
use oxidite_core::preparation::select_version;
use oxidite_core::sources::{AsUrl, Sources};

fn version(id: &str, kind: &str) -> Version {
    Version { id: id.to_string(), type_field: kind.to_string(), ..Default::default() }
}

fn rule(action: &str, os: Option<&str>) -> Rule4 {
    Rule4 { action: action.to_string(), os: os.map(|n| Os4 { name: n.to_string() }) }
}

fn library(path: &str, rules: Vec<Rule4>) -> Library {
    Library {
        downloads: LibraryDownloads {
            artifact: Artifact { path: path.to_string(), sha1: "h".to_string(), size: 0, url: "u".to_string() },
        },
        name: path.to_string(),
        rules,
    }
}

#[test]
fn releases_and_snapshots_share_nothing() {
    let m = Manifest {
        latest: Latest::default(),
        versions: vec![version("a", "release"), version("b", "snapshot"), version("c", "old_beta"), version("d", "release")],
    };
    let releases = get_filtered_versions(&m, true);
    let snapshots = get_filtered_versions(&m, false);
    assert!(releases.iter().all(|r| !snapshots.contains(r)));
    assert_eq!(releases.len() + snapshots.len(), 3);
}

#[test]
fn java_status_agrees_with_check() {
    for (required, current) in [(17, 21), (17, 17), (21, 17), (8, -1), (0, 0)] {
        let mut meta = PistonMeta::default();
        meta.java_version.major_version = required;
        assert_eq!(
            meta.get_java_status(current).starts_with("Compatible"),
            check_java_compatibility(&meta, current)
        );
    }
}

#[test]
fn last_applicable_rule_decides() {
    let base = vec![rule("disallow", None), rule("allow", Some("osx"))];
    let mut with_allow = base.clone();
    with_allow.push(rule("allow", Some("windows")));
    assert!(library("x", with_allow).is_compatible());
    let mut with_disallow = vec![rule("allow", None)];
    with_disallow.push(rule("disallow", None));
    assert!(!library("x", with_disallow).is_compatible());
}

#[test]
fn rule_for_other_system_changes_nothing() {
    let before = vec![rule("allow", None)];
    let mut after = before.clone();
    after.push(rule("disallow", Some("linux")));
    assert_eq!(library("x", before).is_compatible(), library("x", after).is_compatible());
    assert!(!library("x", vec![rule("allow", Some("osx")), rule("allow", Some("linux"))]).is_compatible());
    assert!(library("x", vec![]).is_compatible());
}

#[test]
fn paths_lie_under_base() {
    let d = MinecraftDirs::new("/srv/mc".to_string());
    for p in [d.versions_dir(), d.version_specific_dir("1.2"), d.client_jar_path("1.2"), d.libraries_dir(), d.assets_dir(), d.asset_index_path("5")] {
        assert!(p.starts_with("/srv/mc"), "{}", p);
    }
    assert!(d.client_jar_path("1.2").starts_with(&d.version_specific_dir("1.2")));
    assert!(d.asset_index_path("5").starts_with(&d.assets_dir()));
}

#[test]
fn classpath_names_downloaded_jars() {
    let d = MinecraftDirs::new("mc".to_string());
    let mut meta = PistonMeta::default();
    meta.id = "1.0".to_string();
    meta.libraries = vec![
        library("a.jar", vec![]),
        library("b.jar", vec![rule("allow", Some("osx"))]),
        library("c.jar", vec![rule("allow", Some("windows"))]),
    ];
    let cp = LaunchSettings::offline("x").build_classpath(&meta, &d);
    let entries: Vec<&str> = cp.split(':').collect();
    let planned: Vec<String> = libraries::plan_downloads(&meta, &d).into_iter().map(|t| t.dest).collect();
    assert_eq!(entries[..entries.len() - 1].to_vec(), planned.iter().map(|s| s.as_str()).collect::<Vec<_>>());
    assert_eq!(*entries.last().unwrap(), d.client_jar_path("1.0"));
}

#[test]
fn asset_file_is_named_by_its_hash() {
    let d = MinecraftDirs::new("mc".to_string());
    let hash = "5ff04807c356f1beed0b86ccf659b44b9983e3fa".to_string();
    let mut index = AssetIndex::new();
    index.insert("minecraft/lang/en_us.json".to_string(), AssetObject { hash: hash.clone(), size: 9 });
    let t = &assets::plan_downloads(&index, &d)[0];
    assert!(t.dest.ends_with(&hash));
    assert!(t.url.ends_with(&hash));
    assert_eq!(t.expected_hash, hash);
}

#[test]
fn prepared_metadata_url_is_the_listed_one() {
    let url = Sources::PistonMeta { hash: "00aa11".to_string(), version: "1.20.4".to_string() }.as_url();
    let m = Manifest {
        latest: Latest { release: "1.20.4".to_string(), snapshot: String::new() },
        versions: vec![Version { id: "1.20.4".to_string(), type_field: "release".to_string(), url: url.clone(), ..Default::default() }],
    };
    let (v, hash) = select_version(&m, None).unwrap();
    assert_eq!(Sources::PistonMeta { hash, version: v.id.clone() }.as_url(), url);
}
