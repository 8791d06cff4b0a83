//! The source manifest model: one modpack version as the launcher API
//! describes it, and the resolution of each file entry's download URL.

use crate::decimal::{dec_of, u64_to_dec};
use vstd::prelude::*;

verus! {

/// One modpack version manifest.
#[derive(Debug)]
pub struct VersionManifest {
    pub files: Vec<VersionManifestFile>,
    pub targets: Vec<VersionManifestTarget>,
    pub parent: u64,
    pub id: u64,
    pub name: String,
}

/// One mod/resource entry of a manifest. `path` and `name` together determine
/// the on-disk location; when `curseforge` is present it is authoritative for
/// fetching and `url` is retained only as a record.
#[derive(Debug)]
pub struct VersionManifestFile {
    pub path: String,
    pub url: String,
    pub sha1: String,
    pub size: u64,
    pub clientonly: bool,
    pub serveronly: bool,
    pub optional: bool,
    pub name: String,
    pub curseforge: Option<VersionManifestFileCurseForge>,
}

/// An indirect registry reference: the project and file identifiers from
/// which a download URL is synthesized.
#[derive(Debug)]
pub struct VersionManifestFileCurseForge {
    pub project: u64,
    pub file: u64,
}

/// One platform/loader version target of a manifest.
#[derive(Debug)]
pub struct VersionManifestTarget {
    pub version: String,
    pub name: String,
}

/// The registry download URL synthesized from an indirect reference.
pub open spec fn registry_url(project: u64, file: u64) -> Seq<char> {
    "https://www.curseforge.com/api/v1/mods/"@ + dec_of(project as nat) + "/files/"@ + dec_of(
        file as nat,
    ) + "/download"@
}

/// The download URL of a file entry: the synthesized registry URL when an
/// indirect reference is present (the direct URL is then ignored), else the
/// direct URL unchanged.
pub open spec fn resolved_url(f: VersionManifestFile) -> Seq<char> {
    match f.curseforge {
        Some(cf) => registry_url(cf.project, cf.file),
        None => f.url@,
    }
}

impl VersionManifestFile {
    /// Resolves the download URL of this entry.
    pub fn resolve(&self) -> (r: String)
        ensures
            r@ == resolved_url(*self),
    {
        match &self.curseforge {
            Some(cf) => {
                let mut s = String::from_str("https://www.curseforge.com/api/v1/mods/");
                s.append(u64_to_dec(cf.project).as_str());
                s.append("/files/");
                s.append(u64_to_dec(cf.file).as_str());
                s.append("/download");
                proof {
                    assert(s@ =~= registry_url(cf.project, cf.file));
                }
                s
            },
            None => self.url.clone(),
        }
    }
}

/// The name of the directory the download pipeline materializes into:
/// `<parent>_<id>`.
pub fn dir_name(parent: u64, id: u64) -> (r: String)
    ensures
        r@ == dec_of(parent as nat) + "_"@ + dec_of(id as nat),
{
    let mut s = u64_to_dec(parent);
    s.append("_");
    s.append(u64_to_dec(id).as_str());
    s
}

} // verus!
