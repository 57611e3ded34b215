//! Modrinth modpacks (`.mrpack`): their index, and which of its files a server imports.
use vstd::prelude::*;

verus! {

/// Whether a side needs a file.
#[derive(Debug, PartialEq, Eq, Structural, Clone, Copy)]
pub enum EnvSupport {
    Required,
    Optional,
    Unsupported,
}

/// Which sides need a file.
#[derive(Debug, PartialEq, Eq, Structural, Clone, Copy)]
pub struct Env {
    pub client: EnvSupport,
    pub server: EnvSupport,
}

/// A file of a modpack.
pub struct MRPackFile {
    pub path: String,
    pub env: Env,
    pub downloads: Vec<String>,
}

/// The index of a modpack (`modrinth.index.json`).
pub struct MRPackIndex {
    pub name: String,
    pub files: Vec<MRPackFile>,
}

/// What importing a modpack does with one of its files.
pub enum MRPackStep {
    /// Nothing: clients do not support it.
    Skip,
    /// Import it from this address.
    Import(String),
    /// It has no address: the import fails.
    NoDownload,
}

impl MRPackFile {
    /// What importing the modpack does with this file: files that clients do not support
    /// are skipped, the others are imported from their first address.
    pub fn import_step(&self) -> (r: MRPackStep)
        ensures
            self.env.client == EnvSupport::Unsupported ==> r is Skip,
            self.env.client != EnvSupport::Unsupported && self.downloads@.len() > 0 ==> (r matches MRPackStep::Import(
                u,
            ) && u@ == self.downloads@[0]@),
            self.env.client != EnvSupport::Unsupported && self.downloads@.len() == 0 ==> r is NoDownload,
    {
        if self.env.client == EnvSupport::Unsupported {
            MRPackStep::Skip
        } else if self.downloads.len() > 0 {
            MRPackStep::Import(self.downloads[0].clone())
        } else {
            MRPackStep::NoDownload
        }
    }
}

} // verus!
