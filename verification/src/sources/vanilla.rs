//! The vanilla server: which entry of Mojang's version manifest a version asks for.
use vstd::prelude::*;
use vstd::string::*;
use crate::error::McmanError;
use crate::strs::{cat3, str_eq};

verus! {

/// An entry of the version manifest.
pub struct VersionManifestVersion {
    pub id: String,
    pub url: String,
}

/// The newest release and snapshot.
pub struct VersionManifestLatest {
    pub release: String,
    pub snapshot: String,
}

/// Mojang's version manifest.
pub struct VersionManifest {
    pub latest: VersionManifestLatest,
    pub versions: Vec<VersionManifestVersion>,
}

/// The version that `version` stands for: the newest release for `latest`, the newest
/// snapshot for `latest-snapshot`.
pub open spec fn target_version(m: VersionManifest, version: Seq<char>) -> Seq<char> {
    let t = if version == "latest"@ {
        m.latest.release@
    } else {
        version
    };
    if t == "latest-snapshot"@ {
        m.latest.snapshot@
    } else {
        t
    }
}

/// The manifest entry for `version`: the first with the id it stands for, or the error
/// naming that id.
pub fn find_version(m: &VersionManifest, version: &str) -> (r: Result<usize, McmanError>)
    ensures
        match r {
            Ok(i) => 0 <= i < m.versions@.len() && m.versions@[i as int].id@ == target_version(
                *m,
                version@,
            ) && forall|j: int| 0 <= j < i ==> m.versions@[j].id@ != target_version(*m, version@),
            Err(McmanError::VanillaVersionNotFound(v)) => v@ == target_version(*m, version@)
                && forall|j: int|
                0 <= j < m.versions@.len() ==> m.versions@[j].id@ != target_version(*m, version@),
            Err(_) => false,
        },
{
    let t1: &str = if str_eq(version, "latest") {
        m.latest.release.as_str()
    } else {
        version
    };
    let t: &str = if str_eq(t1, "latest-snapshot") {
        m.latest.snapshot.as_str()
    } else {
        t1
    };
    let mut i: usize = 0;
    while i < m.versions.len()
        invariant
            i <= m.versions@.len(),
            t@ == target_version(*m, version@),
            forall|j: int| 0 <= j < i ==> m.versions@[j].id@ != t@,
        decreases m.versions@.len() - i,
    {
        if str_eq(m.versions[i].id.as_str(), t) {
            return Ok(i);
        }
        i = i + 1;
    }
    Err(McmanError::VanillaVersionNotFound(t.to_owned()))
}

/// The file name of the vanilla server jar for game version `mcver`.
pub fn vanilla_filename(mcver: &str) -> (r: String)
    ensures
        r@ == "server-"@ + mcver@ + ".jar"@,
{
    cat3("server-", mcver, ".jar")
}

} // verus!
