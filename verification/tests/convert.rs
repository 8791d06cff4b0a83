use mrpack_convert::convert::{convert_manifest, translate_file, translate_files, IntegrityError};
use mrpack_convert::modpacksch::{
    VersionManifest, VersionManifestFile, VersionManifestFileCurseForge, VersionManifestTarget,
};
use mrpack_convert::modrinth::{Format, FormatFile};

const SHA1_ABC: &str = "a9993e364706816aba3e25717850c26c9cd0d89d";
const SHA512_ABC: &str = "ddaf35a193617abacc417349ae20413112e6fa4e89a97ea20a9eeee64b55d39a\
                          2192992a274fc1a836ba3c23a3feebbd454d4423643ce80e2a9ac94fa54ca49f";
const SHA1_EMPTY: &str = "da39a3ee5e6b4b0d3255bfef95601890afd80709";
const SHA512_EMPTY: &str = "cf83e1357eefb8bdf1542850d66d8007d620e4050b5715dc83f4a921d36ce9ce\
                            47d0d13c5d85f2b0ff8318d2877eec2f63b931bd47417a81a538327af927da3e";

fn mk_file(name: &str, sha1: &str, size: u64) -> VersionManifestFile {
    VersionManifestFile {
        path: "mods/".to_string(),
        url: format!("https://example.com/{}", name),
        sha1: sha1.to_string(),
        size,
        clientonly: false,
        serveronly: false,
        optional: false,
        name: name.to_string(),
        curseforge: None,
    }
}

#[test]
fn translate_file_builds_the_full_entry() {
    let mut f = mk_file("a.jar", SHA1_ABC, 3);
    f.clientonly = true;
    let out = translate_file(&f, &b"abc".to_vec()).unwrap();
    assert_eq!(out.path, "mods/a.jar");
    assert_eq!(out.hashes.sha1, SHA1_ABC);
    assert_eq!(out.hashes.sha512, SHA512_ABC);
    let env = out.env.unwrap();
    assert_eq!(env.client, "required");
    assert_eq!(env.server, "unsupported");
    assert_eq!(out.downloads, vec!["https://example.com/a.jar".to_string()]);
    assert_eq!(out.file_size, 3);
}

#[test]
fn translate_file_normalizes_uppercase_checksum_to_lowercase() {
    let f = mk_file("a.jar", "A9993E364706816ABA3E25717850C26C9CD0D89D", 3);
    let out = translate_file(&f, &b"abc".to_vec()).unwrap();
    assert_eq!(out.hashes.sha1, SHA1_ABC);
}

#[test]
fn translate_file_prefers_the_indirect_ref() {
    let mut f = mk_file("a.jar", SHA1_ABC, 3);
    f.curseforge = Some(VersionManifestFileCurseForge {
        project: 7,
        file: 9,
    });
    let out = translate_file(&f, &b"abc".to_vec()).unwrap();
    assert_eq!(
        out.downloads,
        vec!["https://www.curseforge.com/api/v1/mods/7/files/9/download".to_string()]
    );
}

#[test]
fn translate_file_rejects_mismatching_bytes() {
    let f = mk_file("a.jar", SHA1_ABC, 3);
    let err = translate_file(&f, &b"abd".to_vec()).unwrap_err();
    match err {
        IntegrityError::ChecksumMismatch { name } => assert_eq!(name, "a.jar"),
        IntegrityError::FetchFailed { .. } => panic!("wrong error variant"),
    }
}

#[test]
fn batch_stops_at_first_mismatch_and_keeps_the_prefix() {
    let files = vec![
        mk_file("a.jar", SHA1_ABC, 3),
        mk_file("b.jar", SHA1_ABC, 9),
        mk_file("c.jar", SHA1_EMPTY, 0),
    ];
    let bodies = vec![b"abc".to_vec(), b"not abc".to_vec(), Vec::new()];
    let (out, err) = translate_files(&files, &bodies);
    // only the first entry is appended: the second mismatches, the third is
    // never processed although its checksum would match
    assert_eq!(out.len(), 1);
    assert_eq!(out[0].path, "mods/a.jar");
    match err.unwrap() {
        IntegrityError::ChecksumMismatch { name } => assert_eq!(name, "b.jar"),
        IntegrityError::FetchFailed { .. } => panic!("wrong error variant"),
    }
}

#[test]
fn batch_with_all_matching_bodies_reports_no_error() {
    let files = vec![mk_file("a.jar", SHA1_ABC, 3), mk_file("b.jar", SHA1_EMPTY, 0)];
    let bodies = vec![b"abc".to_vec(), Vec::new()];
    let (out, err) = translate_files(&files, &bodies);
    assert_eq!(out.len(), 2);
    assert!(err.is_none());
}

fn mk_manifest() -> VersionManifest {
    VersionManifest {
        files: vec![mk_file("a.jar", SHA1_ABC, 3), mk_file("b.jar", SHA1_EMPTY, 0)],
        targets: vec![
            VersionManifestTarget {
                version: "1.20.1".to_string(),
                name: "minecraft".to_string(),
            },
            VersionManifestTarget {
                version: "47.2.0".to_string(),
                name: "forge".to_string(),
            },
        ],
        parent: 11,
        id: 22,
        name: "My Pack 1.0".to_string(),
    }
}

fn mk_bodies() -> Vec<Vec<u8>> {
    vec![b"abc".to_vec(), Vec::new()]
}

#[test]
fn convert_manifest_assembles_the_output() {
    let (out, err) = convert_manifest(mk_manifest(), &mk_bodies());
    assert!(err.is_none());
    assert_eq!(out.format_version, 1);
    assert_eq!(out.game, "minecraft");
    assert_eq!(out.version_id, "My Pack 1.0");
    assert_eq!(out.name, "example_name");
    assert_eq!(out.summary, None);
    assert_eq!(out.files.len(), 2);
    assert_eq!(out.files[0].hashes.sha512, SHA512_ABC);
    assert_eq!(out.files[1].hashes.sha512, SHA512_EMPTY);
    assert_eq!(out.dependencies.minecraft.as_deref(), Some("1.20.1"));
    assert_eq!(out.dependencies.forge.as_deref(), Some("47.2.0"));
    assert_eq!(out.dependencies.neoforge, None);
    assert_eq!(out.dependencies.fabric_loader, None);
    assert_eq!(out.dependencies.quilt_loader, None);
}

#[test]
fn convert_manifest_stops_before_a_mismatching_file() {
    let (out, err) = convert_manifest(mk_manifest(), &vec![b"abc".to_vec(), b"x".to_vec()]);
    assert_eq!(out.files.len(), 1);
    match err.unwrap() {
        IntegrityError::ChecksumMismatch { name } => assert_eq!(name, "b.jar"),
        IntegrityError::FetchFailed { .. } => panic!("wrong error variant"),
    }
}

fn file_entries_equal(a: &FormatFile, b: &FormatFile) -> bool {
    a.path == b.path
        && a.hashes.sha1 == b.hashes.sha1
        && a.hashes.sha512 == b.hashes.sha512
        && match (&a.env, &b.env) {
            (None, None) => true,
            (Some(x), Some(y)) => x.client == y.client && x.server == y.server,
            _ => false,
        }
        && a.downloads == b.downloads
        && a.file_size == b.file_size
}

fn formats_equal(a: &Format, b: &Format) -> bool {
    a.format_version == b.format_version
        && a.game == b.game
        && a.version_id == b.version_id
        && a.name == b.name
        && a.summary == b.summary
        && a.files.len() == b.files.len()
        && a.files
            .iter()
            .zip(b.files.iter())
            .all(|(x, y)| file_entries_equal(x, y))
        && a.dependencies.minecraft == b.dependencies.minecraft
        && a.dependencies.forge == b.dependencies.forge
        && a.dependencies.neoforge == b.dependencies.neoforge
        && a.dependencies.fabric_loader == b.dependencies.fabric_loader
        && a.dependencies.quilt_loader == b.dependencies.quilt_loader
}

#[test]
fn converting_twice_with_stable_content_gives_identical_output() {
    let (out1, err1) = convert_manifest(mk_manifest(), &mk_bodies());
    let (out2, err2) = convert_manifest(mk_manifest(), &mk_bodies());
    assert!(err1.is_none() && err2.is_none());
    assert!(formats_equal(&out1, &out2));
}
