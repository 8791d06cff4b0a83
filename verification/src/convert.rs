//! The format translator: turning verified downloads into output file
//! entries, the batch loop with its abort-on-mismatch policy, and the
//! assembly of the output manifest.

use crate::digest::{checksum_ok, sha1_hex, sha1_of, sha512_hex, sha512_of, verify_bytes};
use crate::hex::hex_lower;
use crate::modpacksch::{resolved_url, VersionManifest, VersionManifestFile, VersionManifestTarget};
use crate::modrinth::{
    client_supported, dep_for, env_word, opt_view, server_supported, Format, FormatDeps,
    FormatFile, FormatFileEnv, FormatFileHashes,
};
use vstd::prelude::*;

verus! {

/// Why the pipeline stopped: downloaded bytes did not match the manifest's
/// primary checksum for the named file, or a URL could not be fetched at all.
#[derive(Debug)]
pub enum IntegrityError {
    ChecksumMismatch { name: String },
    FetchFailed { url: String },
}

/// `out` is the translation of the manifest entry `f` whose fetched bytes
/// are `bytes`: combined path (direct concatenation of path and name), dual
/// lowercase-hex checksums of the bytes, the per-side environment words, the
/// one resolved download URL, and the recorded size.
pub open spec fn is_translation(out: FormatFile, f: VersionManifestFile, bytes: Seq<u8>) -> bool {
    &&& out.path@ == f.path@ + f.name@
    &&& out.hashes.sha1@ == hex_lower(sha1_of(bytes))
    &&& out.hashes.sha512@ == hex_lower(sha512_of(bytes))
    &&& out.env matches Some(e) && e.client@ == env_word(
        client_supported(f.clientonly, f.serveronly),
        f.optional,
    ) && e.server@ == env_word(server_supported(f.clientonly, f.serveronly), f.optional)
    &&& out.downloads@.len() == 1
    &&& out.downloads@[0]@ == resolved_url(f)
    &&& out.file_size == f.size
}

/// Translates one manifest entry from its fetched bytes. Succeeds exactly
/// when the bytes match the entry's primary checksum; on mismatch the error
/// carries the entry's name.
pub fn translate_file(f: &VersionManifestFile, bytes: &Vec<u8>) -> (r: Result<
    FormatFile,
    IntegrityError,
>)
    ensures
        r is Ok <==> checksum_ok(bytes@, f.sha1@),
        r matches Ok(out) ==> is_translation(out, *f, bytes@),
        r matches Err(e) ==> e matches IntegrityError::ChecksumMismatch { name } && name@
            == f.name@,
{
    let url = f.resolve();
    if !verify_bytes(bytes, f.sha1.as_str()) {
        return Err(IntegrityError::ChecksumMismatch { name: f.name.clone() });
    }
    let sha1 = sha1_hex(bytes);
    let sha512 = sha512_hex(bytes);
    let mut path = f.path.clone();
    path.append(f.name.as_str());
    let env = FormatFileEnv::from_flags(f.clientonly, f.serveronly, f.optional);
    let mut downloads: Vec<String> = Vec::new();
    downloads.push(url);
    Ok(
        FormatFile {
            path,
            hashes: FormatFileHashes { sha1, sha512 },
            env: Some(env),
            downloads,
            file_size: f.size,
        },
    )
}

/// The views of a list of fetched bodies.
pub open spec fn views_of(bodies: Seq<Vec<u8>>) -> Seq<Seq<u8>> {
    bodies.map_values(|b: Vec<u8>| b@)
}

/// How many entries the batch processes before stopping: the length of the
/// longest prefix of `files` whose bodies all match their primary checksums.
pub open spec fn ok_prefix_len(files: Seq<VersionManifestFile>, bodies: Seq<Seq<u8>>) -> int
    decreases files.len(),
{
    if files.len() == 0 {
        0
    } else if !checksum_ok(bodies[0], files[0].sha1@) {
        0
    } else {
        1 + ok_prefix_len(files.skip(1), bodies.skip(1))
    }
}

proof fn lemma_ok_prefix_len_at(files: Seq<VersionManifestFile>, bodies: Seq<Seq<u8>>, k: int)
    requires
        files.len() == bodies.len(),
        0 <= k <= files.len(),
        forall|j: int| 0 <= j < k ==> checksum_ok(bodies[j], files[j].sha1@),
        k < files.len() ==> !checksum_ok(bodies[k], files[k].sha1@),
    ensures
        ok_prefix_len(files, bodies) == k,
    decreases files.len(),
{
    if files.len() == 0 || k == 0 {
    } else {
        assert(checksum_ok(bodies[0], files[0].sha1@));
        assert forall|j: int| 0 <= j < k - 1 implies checksum_ok(
            bodies.skip(1)[j],
            files.skip(1)[j].sha1@,
        ) by {
            assert(files.skip(1)[j] == files[j + 1]);
            assert(bodies.skip(1)[j] == bodies[j + 1]);
        }
        if k - 1 < files.skip(1).len() {
            assert(files.skip(1)[k - 1] == files[k]);
            assert(bodies.skip(1)[k - 1] == bodies[k]);
        }
        lemma_ok_prefix_len_at(files.skip(1), bodies.skip(1), k - 1);
    }
}

/// Translates a batch of entries in manifest order from their fetched
/// bodies, stopping at the first checksum mismatch: entries from the first
/// mismatching one on are not appended, and the error names that entry.
pub fn translate_files(files: &Vec<VersionManifestFile>, bodies: &Vec<Vec<u8>>) -> (r: (
    Vec<FormatFile>,
    Option<IntegrityError>,
))
    requires
        files@.len() == bodies@.len(),
    ensures
        r.0@.len() == ok_prefix_len(files@, views_of(bodies@)),
        forall|j: int| 0 <= j < r.0@.len() ==> is_translation(r.0@[j], files@[j], bodies@[j]@),
        r.1 is None <==> r.0@.len() == files@.len(),
        r.1 is Some ==> r.0@.len() < files@.len(),
        r.1 matches Some(e) ==> (e matches IntegrityError::ChecksumMismatch { name } && name@
            == files@[r.0@.len() as int].name@),
{
    let n = files.len();
    let mut out: Vec<FormatFile> = Vec::new();
    let mut err: Option<IntegrityError> = None;
    let mut i: usize = 0;
    while i < n
        invariant_except_break
            err is None,
        invariant
            n == files@.len(),
            files@.len() == bodies@.len(),
            i <= n,
            out@.len() == i,
            forall|j: int| 0 <= j < i ==> checksum_ok(bodies@[j]@, files@[j].sha1@),
            forall|j: int| 0 <= j < i ==> is_translation(out@[j], files@[j], bodies@[j]@),
        ensures
            i <= n,
            out@.len() == i,
            forall|j: int| 0 <= j < i ==> checksum_ok(bodies@[j]@, files@[j].sha1@),
            forall|j: int| 0 <= j < i ==> is_translation(out@[j], files@[j], bodies@[j]@),
            err is None ==> i == n,
            err is Some ==> i < n && !checksum_ok(bodies@[i as int]@, files@[i as int].sha1@),
            err matches Some(e) ==> (e matches IntegrityError::ChecksumMismatch { name } && name@
                == files@[i as int].name@),
        decreases n - i,
    {
        match translate_file(&files[i], &bodies[i]) {
            Ok(of) => {
                out.push(of);
            },
            Err(e) => {
                err = Some(e);
                break;
            },
        }
        i += 1;
    }
    proof {
        assert forall|j: int| 0 <= j < i implies checksum_ok(
            views_of(bodies@)[j],
            files@[j].sha1@,
        ) by {
            assert(views_of(bodies@)[j] == bodies@[j]@);
        }
        if (i as int) < files@.len() {
            assert(views_of(bodies@)[i as int] == bodies@[i as int]@);
        }
        lemma_ok_prefix_len_at(files@, views_of(bodies@), i as int);
    }
    (out, err)
}

/// Assembles the output manifest from an already-translated file list and
/// the manifest's targets: constant format version and game, the manifest
/// name as version id, a fixed placeholder display name, no summary, and the
/// dependency block built from the targets.
pub fn assemble(version_id: String, files: Vec<FormatFile>, targets: &Vec<
    VersionManifestTarget,
>) -> (r: Format)
    ensures
        r.format_version == 1,
        r.game@ == "minecraft"@,
        r.version_id == version_id,
        r.name@ == "example_name"@,
        r.summary is None,
        r.files == files,
        opt_view(r.dependencies.minecraft) == dep_for(targets@, "minecraft"@),
        opt_view(r.dependencies.forge) == dep_for(targets@, "forge"@),
        opt_view(r.dependencies.neoforge) == dep_for(targets@, "neoforge"@),
        opt_view(r.dependencies.fabric_loader) == dep_for(targets@, "fabric"@),
        r.dependencies.quilt_loader is None,
{
    let dependencies = FormatDeps::from_targets(targets);
    Format {
        format_version: 1,
        game: String::from_str("minecraft"),
        version_id,
        name: String::from_str("example_name"),
        summary: None,
        files,
        dependencies,
    }
}

/// The full characterization of a converted manifest: `out` is what the
/// format translator produces from manifest `m` when fetching each file of
/// `m` returned the corresponding element of `bodies`.
pub open spec fn format_matches(out: Format, m: VersionManifest, bodies: Seq<Vec<u8>>) -> bool {
    &&& out.format_version == 1
    &&& out.game@ == "minecraft"@
    &&& out.version_id@ == m.name@
    &&& out.name@ == "example_name"@
    &&& out.summary is None
    &&& out.files@.len() == ok_prefix_len(m.files@, views_of(bodies))
    &&& forall|j: int|
        0 <= j < out.files@.len() ==> is_translation(out.files@[j], m.files@[j], bodies[j]@)
    &&& opt_view(out.dependencies.minecraft) == dep_for(m.targets@, "minecraft"@)
    &&& opt_view(out.dependencies.forge) == dep_for(m.targets@, "forge"@)
    &&& opt_view(out.dependencies.neoforge) == dep_for(m.targets@, "neoforge"@)
    &&& opt_view(out.dependencies.fabric_loader) == dep_for(m.targets@, "fabric"@)
    &&& out.dependencies.quilt_loader is None
}

/// The convert pipeline over prefetched bodies: translates every file up to
/// the first checksum mismatch and assembles the output manifest. The second
/// component reports the mismatch that stopped the batch, if any.
pub fn convert_manifest(manifest: VersionManifest, bodies: &Vec<Vec<u8>>) -> (r: (
    Format,
    Option<IntegrityError>,
))
    requires
        manifest.files@.len() == bodies@.len(),
    ensures
        format_matches(r.0, manifest, bodies@),
        r.1 is None <==> r.0.files@.len() == manifest.files@.len(),
        r.1 is Some ==> r.0.files@.len() < manifest.files@.len(),
        r.1 matches Some(e) ==> (e matches IntegrityError::ChecksumMismatch { name } && name@
            == manifest.files@[r.0.files@.len() as int].name@),
{
    let (out_files, err) = translate_files(&manifest.files, bodies);
    let fmt = assemble(manifest.name, out_files, &manifest.targets);
    (fmt, err)
}

/// Field-by-field equality of the observable content of two output file
/// entries.
pub open spec fn file_view_eq(a: FormatFile, b: FormatFile) -> bool {
    &&& a.path@ == b.path@
    &&& a.hashes.sha1@ == b.hashes.sha1@
    &&& a.hashes.sha512@ == b.hashes.sha512@
    &&& (a.env is None <==> b.env is None)
    &&& (a.env matches Some(ae) ==> b.env matches Some(be) && ae.client@ == be.client@
        && ae.server@ == be.server@)
    &&& a.downloads@.len() == b.downloads@.len()
    &&& forall|k: int| 0 <= k < a.downloads@.len() ==> a.downloads@[k]@ == b.downloads@[k]@
    &&& a.file_size == b.file_size
}

/// The translation is a function of the manifest and the fetched bytes
/// alone: two runs of the format translator on the same manifest with the
/// same remote content produce manifests equal in every observable field.
pub proof fn lemma_translation_deterministic(
    f1: Format,
    f2: Format,
    m: VersionManifest,
    bodies: Seq<Vec<u8>>,
)
    requires
        format_matches(f1, m, bodies),
        format_matches(f2, m, bodies),
    ensures
        f1.format_version == f2.format_version,
        f1.game@ == f2.game@,
        f1.version_id@ == f2.version_id@,
        f1.name@ == f2.name@,
        f1.summary is None && f2.summary is None,
        f1.files@.len() == f2.files@.len(),
        forall|j: int| 0 <= j < f1.files@.len() ==> file_view_eq(f1.files@[j], f2.files@[j]),
        opt_view(f1.dependencies.minecraft) == opt_view(f2.dependencies.minecraft),
        opt_view(f1.dependencies.forge) == opt_view(f2.dependencies.forge),
        opt_view(f1.dependencies.neoforge) == opt_view(f2.dependencies.neoforge),
        opt_view(f1.dependencies.fabric_loader) == opt_view(f2.dependencies.fabric_loader),
        f1.dependencies.quilt_loader is None && f2.dependencies.quilt_loader is None,
{
    assert forall|j: int| 0 <= j < f1.files@.len() implies file_view_eq(
        f1.files@[j],
        f2.files@[j],
    ) by {
        assert(is_translation(f1.files@[j], m.files@[j], bodies[j]@));
        assert(is_translation(f2.files@[j], m.files@[j], bodies[j]@));
    }
}

} // verus!
