//! The output manifest model: the archive format a converted manifest is
//! serialized into, the tri-state environment-support mapping, and the
//! dependency block built from the manifest's targets.

use crate::modpacksch::VersionManifestTarget;
use vstd::prelude::*;

verus! {

/// The output manifest.
#[derive(Debug)]
pub struct Format {
    pub format_version: u64,
    pub game: String,
    pub version_id: String,
    pub name: String,
    pub summary: Option<String>,
    pub files: Vec<FormatFile>,
    pub dependencies: FormatDeps,
}

/// One file entry of the output manifest.
#[derive(Debug)]
pub struct FormatFile {
    pub path: String,
    pub hashes: FormatFileHashes,
    pub env: Option<FormatFileEnv>,
    pub downloads: Vec<String>,
    pub file_size: u64,
}

/// The dual checksums of one output file entry, both lowercase hex.
#[derive(Debug)]
pub struct FormatFileHashes {
    pub sha1: String,
    pub sha512: String,
}

/// The dependency block: one optional version per recognized loader or game
/// name. Absent fields are omitted from the serialized form.
#[derive(Debug)]
pub struct FormatDeps {
    pub minecraft: Option<String>,
    pub forge: Option<String>,
    pub neoforge: Option<String>,
    pub fabric_loader: Option<String>,
    pub quilt_loader: Option<String>,
}

/// Per-side support of one file entry; each field is one of "required",
/// "optional" and "unsupported".
#[derive(Debug)]
pub struct FormatFileEnv {
    pub client: String,
    pub server: String,
}

/// The client side is supported unless the file is server-only.
pub open spec fn client_supported(clientonly: bool, serveronly: bool) -> bool {
    clientonly || !serveronly
}

/// The server side is supported unless the file is client-only.
pub open spec fn server_supported(clientonly: bool, serveronly: bool) -> bool {
    !clientonly || serveronly
}

/// The support word of one side: "unsupported" where the side is not
/// supported, else "optional" or "required" by the optional flag.
pub open spec fn env_word(supported: bool, optional: bool) -> Seq<char> {
    if !supported {
        "unsupported"@
    } else if optional {
        "optional"@
    } else {
        "required"@
    }
}

/// The environment mapping is a tri-state: for every combination of flags
/// the word of a side is exactly one of the three support levels, which are
/// pairwise distinct.
pub proof fn lemma_env_word_tristate(supported: bool, optional: bool)
    ensures
        env_word(supported, optional) == "required"@ || env_word(supported, optional)
            == "optional"@ || env_word(supported, optional) == "unsupported"@,
        "required"@ != "optional"@,
        "required"@ != "unsupported"@,
        "optional"@ != "unsupported"@,
{
    reveal_strlit("required");
    reveal_strlit("optional");
    reveal_strlit("unsupported");
    assert("required"@.len() == 8);
    assert("optional"@.len() == 8);
    assert("unsupported"@.len() == 11);
    assert("required"@[0] == 'r');
    assert("optional"@[0] == 'o');
}

fn env_word_exec(supported: bool, optional: bool) -> (r: String)
    ensures
        r@ == env_word(supported, optional),
{
    if !supported {
        String::from_str("unsupported")
    } else if optional {
        String::from_str("optional")
    } else {
        String::from_str("required")
    }
}

impl FormatFileEnv {
    /// Maps a file entry's three flags to its per-side support words,
    /// independently per side.
    pub fn from_flags(clientonly: bool, serveronly: bool, optional: bool) -> (r: FormatFileEnv)
        ensures
            r.client@ == env_word(client_supported(clientonly, serveronly), optional),
            r.server@ == env_word(server_supported(clientonly, serveronly), optional),
    {
        FormatFileEnv {
            client: env_word_exec(clientonly || !serveronly, optional),
            server: env_word_exec(!clientonly || serveronly, optional),
        }
    }
}

/// The view of an optional string.
pub open spec fn opt_view(o: Option<String>) -> Option<Seq<char>> {
    match o {
        Some(s) => Some(s@),
        None => None,
    }
}

/// The version of the last target named `name`, if any: a later occurrence
/// of a name overwrites an earlier one.
pub open spec fn dep_for(targets: Seq<VersionManifestTarget>, name: Seq<char>) -> Option<Seq<char>>
    decreases targets.len(),
{
    if targets.len() == 0 {
        None
    } else if targets.last().name@ == name {
        Some(targets.last().version@)
    } else {
        dep_for(targets.drop_last(), name)
    }
}

proof fn lemma_dep_for_step(s: Seq<VersionManifestTarget>, i: int, name: Seq<char>)
    requires
        0 <= i < s.len(),
    ensures
        dep_for(s.take(i + 1), name) == (if s[i].name@ == name {
            Some(s[i].version@)
        } else {
            dep_for(s.take(i), name)
        }),
{
    let t1 = s.take(i + 1);
    assert(t1.len() == i + 1);
    assert(t1.last() == s[i]);
    assert(t1.drop_last() =~= s.take(i));
}

impl FormatDeps {
    /// Builds the dependency block from the manifest's target list. Each
    /// recognized name ("minecraft", "forge", "neoforge", "fabric") maps to
    /// its own field, the last occurrence of a name winning; unrecognized
    /// names are dropped without error; the quilt loader field is never set.
    pub fn from_targets(targets: &Vec<VersionManifestTarget>) -> (r: FormatDeps)
        ensures
            opt_view(r.minecraft) == dep_for(targets@, "minecraft"@),
            opt_view(r.forge) == dep_for(targets@, "forge"@),
            opt_view(r.neoforge) == dep_for(targets@, "neoforge"@),
            opt_view(r.fabric_loader) == dep_for(targets@, "fabric"@),
            r.quilt_loader is None,
    {
        let name_minecraft = String::from_str("minecraft");
        let name_forge = String::from_str("forge");
        let name_neoforge = String::from_str("neoforge");
        let name_fabric = String::from_str("fabric");
        let mut deps = FormatDeps {
            minecraft: None,
            forge: None,
            neoforge: None,
            fabric_loader: None,
            quilt_loader: None,
        };
        let n = targets.len();
        let mut i: usize = 0;
        while i < n
            invariant
                n == targets@.len(),
                i <= n,
                name_minecraft@ == "minecraft"@,
                name_forge@ == "forge"@,
                name_neoforge@ == "neoforge"@,
                name_fabric@ == "fabric"@,
                opt_view(deps.minecraft) == dep_for(targets@.take(i as int), "minecraft"@),
                opt_view(deps.forge) == dep_for(targets@.take(i as int), "forge"@),
                opt_view(deps.neoforge) == dep_for(targets@.take(i as int), "neoforge"@),
                opt_view(deps.fabric_loader) == dep_for(targets@.take(i as int), "fabric"@),
                deps.quilt_loader is None,
            decreases n - i,
        {
            let t = &targets[i];
            if t.name == name_minecraft {
                deps.minecraft = Some(t.version.clone());
            } else if t.name == name_forge {
                deps.forge = Some(t.version.clone());
            } else if t.name == name_neoforge {
                deps.neoforge = Some(t.version.clone());
            } else if t.name == name_fabric {
                deps.fabric_loader = Some(t.version.clone());
            }
            proof {
                reveal_strlit("minecraft");
                reveal_strlit("forge");
                reveal_strlit("neoforge");
                reveal_strlit("fabric");
                assert("minecraft"@.len() == 9);
                assert("forge"@.len() == 5);
                assert("neoforge"@.len() == 8);
                assert("fabric"@.len() == 6);
                lemma_dep_for_step(targets@, i as int, "minecraft"@);
                lemma_dep_for_step(targets@, i as int, "forge"@);
                lemma_dep_for_step(targets@, i as int, "neoforge"@);
                lemma_dep_for_step(targets@, i as int, "fabric"@);
            }
            i += 1;
        }
        proof {
            assert(targets@.take(n as int) =~= targets@);
        }
        deps
    }
}

} // verus!
