use oxidite_core::assets;
use oxidite_core::dirs::MinecraftDirs;
use oxidite_core::libraries;
use oxidite_core::models::assets::{AssetIndex, AssetObject};
use oxidite_core::models::piston_meta::{Artifact, Library, LibraryDownloads, Os4, Rule4};
use oxidite_core::models::PistonMeta;
use oxidite_core::preparation::client_download;
use oxidite_core::sources::{select_missing, AsUrl, Sources, VerifiedFiledSource};

fn library(path: &str, os: Option<&str>) -> Library {
    Library {
        downloads: LibraryDownloads {
            artifact: Artifact {
                path: path.to_string(),
                sha1: format!("h-{}", path),
                size: 1,
                url: format!("https://libraries.minecraft.net/{}", path),
            },
        },
        name: path.to_string(),
        rules: match os {
            Some(n) => vec![Rule4 { action: "allow".to_string(), os: Some(Os4 { name: n.to_string() }) }],
            None => vec![],
        },
    }
}

fn target(url: &str, dest: &str, hash: &str) -> VerifiedFiledSource {
    VerifiedFiledSource { url: url.to_string(), dest: dest.to_string(), expected_hash: hash.to_string() }
}

#[test]
fn source_urls() {
    assert_eq!(
        Sources::Manifest.as_url(),
        "https://piston-meta.mojang.com/mc/game/version_manifest_v2.json"
    );
    assert_eq!(
        Sources::PistonMeta { hash: "abc123".to_string(), version: "1.20.1".to_string() }.as_url(),
        "https://piston-meta.mojang.com/v1/packages/abc123/1.20.1.json"
    );
    assert_eq!(Sources::AssetIndex("https://x/y.json".to_string()).as_url(), "https://x/y.json");
}

#[test]
fn metadata_url_round_trip() {
    let url = Sources::PistonMeta { hash: "715ccf".to_string(), version: "1.20.1".to_string() }.as_url();
    let v = oxidite_core::models::Version { url, ..Default::default() };
    assert_eq!(v.get_hash(), Some("715ccf".to_string()));
}

#[test]
fn sha1_check_accepts_the_right_hash() {
    let t = target("u", "d", "a9993e364706816aba3e25717850c26c9cd0d89d");
    assert!(t.check_bytes(b"abc").is_ok());
    let empty = target("u", "d", "da39a3ee5e6b4b0d3255bfef95601890afd80709");
    assert!(empty.check_bytes(b"").is_ok());
}

#[test]
fn sha1_check_reports_both_hashes() {
    let t = target("u", "d", "0000");
    match t.check_bytes(b"abc") {
        Err(e) => {
            assert_eq!(e.expected, "0000");
            assert_eq!(e.found, "a9993e364706816aba3e25717850c26c9cd0d89d");
        }
        other => panic!("unexpected {:?}", other),
    }
    let upper = target("u", "d", "A9993E364706816ABA3E25717850C26C9CD0D89D");
    assert!(upper.check_bytes(b"abc").is_err());
}

#[test]
fn digest_check_uses_lowercase_hex() {
    let t = target("u", "d", "00ff10");
    assert!(t.check_digest(&[0x00, 0xff, 0x10]).is_ok());
    assert!(t.check_digest(&[0x00, 0xff]).is_err());
    assert_eq!(t.url(), "u");
}

#[test]
fn library_plan_keeps_used_libraries() {
    let d = MinecraftDirs::new("mc".to_string());
    let mut meta = PistonMeta::default();
    meta.libraries = vec![library("a/a.jar", None), library("b/b.jar", Some("osx")), library("c/c.jar", Some("windows"))];
    let plan = libraries::plan_downloads(&meta, &d);
    assert_eq!(
        plan.iter().map(|t| (t.url.as_str(), t.dest.as_str(), t.expected_hash.as_str())).collect::<Vec<_>>(),
        vec![
            ("https://libraries.minecraft.net/a/a.jar", "mc/libraries/a/a.jar", "h-a/a.jar"),
            ("https://libraries.minecraft.net/c/c.jar", "mc/libraries/c/c.jar", "h-c/c.jar"),
        ]
    );
}

#[test]
fn missing_targets_only() {
    let ts = vec![target("1", "1", "1"), target("2", "2", "2"), target("3", "3", "3")];
    let r = select_missing(&ts, &vec![true, false, true]);
    assert_eq!(r.len(), 1);
    assert_eq!(r[0].url, "2");
    assert!(select_missing(&ts, &vec![true, true, true]).is_empty());
    assert_eq!(select_missing(&ts, &vec![false, false, false]).len(), 3);
}

#[test]
fn progress_messages() {
    let p = libraries::progress(3, 12);
    assert_eq!((p.current, p.total), (3, 12));
    assert_eq!(p.message, "Downloading 3 out of 12");
    let a = assets::progress(0, 4096);
    assert_eq!(a.message, "Sincronizando assets... (0 de 4096)");
    assert_eq!(assets::progress(usize::MAX, 10).message, format!("Sincronizando assets... ({} de 10)", usize::MAX));
}

#[test]
fn asset_plan() {
    let d = MinecraftDirs::new("mc".to_string());
    let mut index = AssetIndex::new();
    index.insert(
        "icons/icon_16x16.png".to_string(),
        AssetObject { hash: "bdf48ef6b5d0d23bbb02e17d04865216179f510a".to_string(), size: 3665 },
    );
    index.insert("lang/es_es.json".to_string(), AssetObject { hash: "0a".to_string(), size: 1 });
    let plan = assets::plan_downloads(&index, &d);
    assert_eq!(plan.len(), 2);
    assert_eq!(plan[0].url, "https://resources.download.minecraft.net/bd/bdf48ef6b5d0d23bbb02e17d04865216179f510a");
    assert_eq!(plan[0].dest, "mc/assets/objects/bd/bdf48ef6b5d0d23bbb02e17d04865216179f510a");
    assert_eq!(plan[0].expected_hash, "bdf48ef6b5d0d23bbb02e17d04865216179f510a");
    assert_eq!(plan[1].dest, "mc/assets/objects/0a/0a");
}

#[test]
fn cuttable_hashes() {
    assert!(assets::is_cuttable_hash("ab"));
    assert!(assets::is_cuttable_hash("abc"));
    assert!(!assets::is_cuttable_hash("a"));
    assert!(!assets::is_cuttable_hash(""));
    assert!(assets::is_cuttable_hash("éx"));
    assert_eq!(assets::prefix_of_hash("éx"), "é");
    assert_eq!(&"éx"[..2], "é");
    assert!(!assets::is_cuttable_hash("aé"));
    assert!(!assets::is_cuttable_hash("€x"));
}

#[test]
fn client_jar_download() {
    let d = MinecraftDirs::new("mc".to_string());
    let mut meta = PistonMeta::default();
    meta.id = "1.21.1".to_string();
    meta.downloads.client.url = "https://piston-data.mojang.com/client.jar".to_string();
    meta.downloads.client.sha1 = "abcd".to_string();
    let t = client_download(&meta, &d);
    assert_eq!(t.url, "https://piston-data.mojang.com/client.jar");
    assert_eq!(t.dest, "mc/versions/1.21.1/1.21.1.jar");
    assert_eq!(t.expected_hash, "abcd");
}

#[test]
fn asset_index_insert_replaces_same_name() {
    let mut index = AssetIndex::new();
    index.insert("a".to_string(), AssetObject { hash: "11".to_string(), size: 1 });
    index.insert("b".to_string(), AssetObject { hash: "22".to_string(), size: 2 });
    index.insert("a".to_string(), AssetObject { hash: "33".to_string(), size: 3 });
    assert_eq!(index.len(), 2);
    let objects = index.objects();
    assert_eq!(objects[0].0, "a");
    assert_eq!(objects[0].1.hash, "33");
    assert_eq!(objects[1].0, "b");
}

#[test]
fn hash_mismatch_message_names_the_url() {
    let t = target("u", "d", "00");
    match t.check_bytes(b"abc") {
        Err(e) => {
            assert_eq!(e.message(), "Hash mismatch for u: expected 00, got a9993e364706816aba3e25717850c26c9cd0d89d");
            assert_eq!(e.url, "u");
        }
        Ok(()) => panic!("accepted"),
    }
}
