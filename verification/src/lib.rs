//! Translation of modpack version manifests.
//!
//! The library models a launcher's version manifest (a list of mod files with
//! checksums and platform flags, plus loader version targets) and provides the
//! verified core of two pipelines over it: resolving each file's download URL,
//! checking fetched bytes against the manifest's primary checksum, and
//! translating the manifest into the output archive-manifest format with dual
//! checksums and a tri-state environment-support model.

pub mod convert;
pub mod decimal;
pub mod digest;
pub mod hex;
pub mod modpacksch;
pub mod modrinth;
