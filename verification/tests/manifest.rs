use oxidite_core::api::{check_java_compatibility, find_version_by_id, get_filtered_versions, versions};
use oxidite_core::models::manifest::{Latest, Manifest, Version};
use oxidite_core::models::piston_meta::JavaVersion;
use oxidite_core::models::{OxiditeError, PistonMeta};
use oxidite_core::preparation::select_version;

fn version(id: &str, kind: &str, url: &str) -> Version {
    Version {
        id: id.to_string(),
        type_field: kind.to_string(),
        url: url.to_string(),
        time: String::new(),
        release_time: String::new(),
    }
}

fn meta_url(hash: &str, id: &str) -> String {
    format!("https://piston-meta.mojang.com/v1/packages/{}/{}.json", hash, id)
}

fn sample_manifest() -> Manifest {
    Manifest {
        latest: Latest { release: "1.21.1".to_string(), snapshot: "24w40a".to_string() },
        versions: vec![
            version("24w40a", "snapshot", &meta_url("aaa111", "24w40a")),
            version("1.21.1", "release", &meta_url("bbb222", "1.21.1")),
            version("1.20.1", "release", &meta_url("ccc333", "1.20.1")),
            version("a1.0.4", "old_alpha", &meta_url("ddd444", "a1.0.4")),
            version("1.20.1", "release", &meta_url("eee555", "1.20.1")),
            version("broken", "release", "https://example.com/no-hash-here.json"),
        ],
    }
}

#[test]
fn version_kinds() {
    let v = version("1.21.1", "release", "");
    assert!(v.is_release());
    assert!(!v.is_snapshot());
    assert!(!v.is_old_alpha());
    let s = version("24w40a", "snapshot", "");
    assert!(s.is_snapshot());
    assert!(!s.is_release());
    let a = version("a1.0.4", "old_alpha", "");
    assert!(a.is_old_alpha());
    assert!(!version("x", "Release", "").is_release());
}

#[test]
fn get_hash_takes_the_part_after_packages() {
    let v = version("1.20.1", "release", &meta_url("715ccf3330885e75b205124f09f8712542cbe7e0", "1.20.1"));
    assert_eq!(v.get_hash(), Some("715ccf3330885e75b205124f09f8712542cbe7e0".to_string()));
}

#[test]
fn get_hash_edge_cases() {
    assert_eq!(version("x", "release", "https://example.com/file.json").get_hash(), None);
    assert_eq!(version("x", "release", "").get_hash(), None);
    assert_eq!(version("x", "release", "/packages/").get_hash(), Some(String::new()));
    assert_eq!(version("x", "release", "a/packages/abc").get_hash(), Some("abc".to_string()));
    assert_eq!(
        version("x", "release", "a/packages/abc/packages/def/x").get_hash(),
        Some("abc".to_string())
    );
}

#[test]
fn find_version_returns_the_first_match() {
    let m = sample_manifest();
    let found = m.find_version("1.20.1").unwrap();
    assert_eq!(found.url, meta_url("ccc333", "1.20.1"));
    assert!(m.find_version("9.9.9").is_none());
    assert!(m.find_version("").is_none());
}

#[test]
fn filtered_versions_keep_order_and_kind() {
    let m = sample_manifest();
    let releases = get_filtered_versions(&m, true);
    let ids: Vec<&str> = releases.iter().map(|v| v.id.as_str()).collect();
    assert_eq!(ids, vec!["1.21.1", "1.20.1", "1.20.1", "broken"]);
    let snapshots = get_filtered_versions(&m, false);
    let ids: Vec<&str> = snapshots.iter().map(|v| v.id.as_str()).collect();
    assert_eq!(ids, vec!["24w40a"]);
    let empty = Manifest::default();
    assert!(get_filtered_versions(&empty, true).is_empty());
}

#[test]
fn filtering_twice_changes_nothing() {
    let m = sample_manifest();
    let once = get_filtered_versions(&m, true);
    let again = get_filtered_versions(&Manifest { latest: Latest::default(), versions: once.clone() }, true);
    assert_eq!(once, again);
}

#[test]
fn find_version_by_id_clones_the_first_match() {
    let m = sample_manifest();
    let v = find_version_by_id(&m, "1.20.1").unwrap();
    assert_eq!(v.url, meta_url("ccc333", "1.20.1"));
    assert_eq!(find_version_by_id(&m, "nope"), None);
}

#[test]
fn select_version_defaults_to_latest_release() {
    let m = sample_manifest();
    let (v, hash) = select_version(&m, None).unwrap();
    assert_eq!(v.id, "1.21.1");
    assert_eq!(hash, "bbb222");
    let (v, hash) = select_version(&m, Some("24w40a")).unwrap();
    assert_eq!(v.id, "24w40a");
    assert_eq!(hash, "aaa111");
}

#[test]
fn select_version_errors() {
    let m = sample_manifest();
    match select_version(&m, Some("0.0.0")) {
        Err(OxiditeError::VersionNotFound(id)) => assert_eq!(id, "0.0.0"),
        other => panic!("unexpected {:?}", other),
    }
    match select_version(&m, Some("broken")) {
        Err(OxiditeError::MetadataError(msg)) => {
            assert_eq!(msg, "Could not extract hash from manifest URL")
        }
        other => panic!("unexpected {:?}", other),
    }
    let mut no_latest = sample_manifest();
    no_latest.latest.release = "2.0".to_string();
    match select_version(&no_latest, None) {
        Err(OxiditeError::VersionNotFound(id)) => assert_eq!(id, "2.0"),
        other => panic!("unexpected {:?}", other),
    }
}

#[test]
fn java_compatibility() {
    let mut meta = PistonMeta::default();
    meta.java_version = JavaVersion { component: "java-runtime-delta".to_string(), major_version: 25 };
    assert!(!check_java_compatibility(&meta, 21));
    assert!(check_java_compatibility(&meta, 25));
    assert!(check_java_compatibility(&meta, 26));
}

#[test]
fn java_status_messages() {
    let mut meta = PistonMeta::default();
    meta.java_version.major_version = 17;
    assert_eq!(meta.get_java_status(21), "Compatible: Java 21 detected (minimum 17)");
    assert_eq!(meta.get_java_status(17), "Compatible: Java 17 detected (minimum 17)");
    assert_eq!(meta.get_java_status(8), "Incompatible: Java 17 is required, but you have 8");
    assert_eq!(meta.get_java_status(-3), "Incompatible: Java 17 is required, but you have -3");
    meta.java_version.major_version = i64::MIN;
    assert_eq!(
        meta.get_java_status(i64::MIN),
        "Compatible: Java -9223372036854775808 detected (minimum -9223372036854775808)"
    );
}

#[test]
fn versions_offered() {
    let m = sample_manifest();
    let all: Vec<String> = versions(&m, false).into_iter().map(|v| v.id).collect();
    assert_eq!(all, vec!["24w40a", "1.21.1", "1.20.1", "1.20.1", "broken"]);
    let releases: Vec<String> = versions(&m, true).into_iter().map(|v| v.id).collect();
    assert_eq!(releases, vec!["1.21.1", "1.20.1", "1.20.1", "broken"]);
    assert_eq!(versions(&m, true), get_filtered_versions(&m, true));
}
