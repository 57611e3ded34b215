//! Packwiz packs: the records of the packwiz format, and how sources turn into packwiz mods
//! and back.
use vstd::prelude::*;
use vstd::string::*;
use crate::downloadable::{Downloadable, DownloadableView};
use crate::sources::curserinth::{version_ids, CurseRinthVersion};
use crate::sources::modrinth::{
    pick_file, picks_version, versions_view, ModrinthFile, ModrinthVersion, PickError,
};
use crate::sources::{has_id_pick, pick_id, picks_id};
use crate::lockfile::{join_path, joined_path, ResolvedFile};
use crate::paths::{diffed_path, relative_path};
use crate::strmap::{lookup_str, string_entries, StrMap};
use crate::strs::{
    after_last, suffix_after, cat2, dec_nat, ends_with, fmt_u64, has_prefix, has_suffix, parse_u64, parsed_u64, starts_with,
    str_eq,
};

verus! {

/// The hash algorithms of packwiz.
#[derive(Debug, PartialEq, Eq, Structural, Clone, Copy)]
pub enum HashFormat {
    Md5,
    Sha1,
    Sha256,
    Sha512,
    Curseforge,
}

/// How a packwiz mod is downloaded.
#[derive(Debug, PartialEq, Eq, Structural, Clone, Copy)]
pub enum DownloadMode {
    Url,
    Curseforge,
}

/// Which side a packwiz mod is for.
#[derive(Debug, PartialEq, Eq, Structural, Clone, Copy)]
pub enum Side {
    Both,
    Client,
    Server,
}

/// Where a packwiz mod comes from.
pub struct ModDownload {
    pub mode: DownloadMode,
    pub url: Option<String>,
    pub hash: String,
    pub hash_format: HashFormat,
}

/// Whether a packwiz mod is optional.
pub struct ModOption {
    pub optional: bool,
    pub default: bool,
    pub description: Option<String>,
}

/// A Modrinth project and version that a packwiz mod updates from.
pub struct ModrinthModUpdate {
    pub mod_id: String,
    pub version: String,
}

/// A CurseForge project and file that a packwiz mod updates from.
pub struct CurseforgeModUpdate {
    pub file_id: u64,
    pub project_id: u64,
}

/// Where a packwiz mod updates from.
pub struct ModUpdate {
    pub modrinth: Option<ModrinthModUpdate>,
    pub curseforge: Option<CurseforgeModUpdate>,
}

/// A packwiz mod (`*.pw.toml`).
pub struct PwMod {
    pub name: String,
    pub side: Side,
    pub filename: String,
    pub download: ModDownload,
    pub option: ModOption,
    pub update: Option<ModUpdate>,
}

/// A file listed in a pack's index.
pub struct PackFile {
    pub file: String,
    pub hash: String,
    pub hash_format: Option<String>,
    pub alias: Option<String>,
    pub metafile: bool,
    pub preserve: bool,
}

/// The hash algorithm names used when downloading.
pub open spec fn hash_name_of(f: HashFormat) -> Seq<char> {
    match f {
        HashFormat::Md5 => "md5"@,
        HashFormat::Sha1 => "sha1"@,
        HashFormat::Sha256 => "sha256"@,
        HashFormat::Sha512 => "sha512"@,
        HashFormat::Curseforge => "murmur2"@,
    }
}

/// The name of a hash algorithm.
pub fn hash_name(f: HashFormat) -> (r: String)
    ensures
        r@ == hash_name_of(f),
{
    match f {
        HashFormat::Md5 => "md5".to_owned(),
        HashFormat::Sha1 => "sha1".to_owned(),
        HashFormat::Sha256 => "sha256".to_owned(),
        HashFormat::Sha512 => "sha512".to_owned(),
        HashFormat::Curseforge => "murmur2".to_owned(),
    }
}

/// The hash algorithm with a name; MD5 for any other name.
pub open spec fn hash_format_named(name: Seq<char>) -> HashFormat {
    if name == "sha1"@ {
        HashFormat::Sha1
    } else if name == "sha256"@ {
        HashFormat::Sha256
    } else if name == "sha512"@ {
        HashFormat::Sha512
    } else if name == "murmur2"@ {
        HashFormat::Curseforge
    } else {
        HashFormat::Md5
    }
}

/// The hash algorithm with a name; MD5 for any other name.
pub fn hash_format_of(name: &str) -> (r: HashFormat)
    ensures
        r == hash_format_named(name@),
{
    if str_eq(name, "sha1") {
        HashFormat::Sha1
    } else if str_eq(name, "sha256") {
        HashFormat::Sha256
    } else if str_eq(name, "sha512") {
        HashFormat::Sha512
    } else if str_eq(name, "murmur2") {
        HashFormat::Curseforge
    } else {
        HashFormat::Md5
    }
}

/// Writing a hash algorithm's name and reading it back gives the same algorithm.
pub proof fn lemma_hash_name_round_trip(f: HashFormat)
    ensures
        hash_format_named(hash_name_of(f)) == f,
{
    reveal_strlit("md5");
    reveal_strlit("sha1");
    reveal_strlit("sha256");
    reveal_strlit("sha512");
    reveal_strlit("murmur2");
    assert("md5"@.len() == 3 && "sha1"@.len() == 4 && "murmur2"@.len() == 7);
    assert("sha256"@.len() == 6 && "sha512"@.len() == 6);
    assert("sha256"@[3] != "sha512"@[3]);
}

/// What the `url` crate gives for `rel` resolved against the URL `base` (parsed first), as
/// text; `None` where `base` is no URL or `rel` cannot be resolved against it.
pub uninterp spec fn joined_url(base: Seq<char>, rel: Seq<char>) -> Option<Seq<char>>;

/// `reqwest::Url::parse` on `base`, then `Url::join` with `rel`, the result read back with
/// `Url::as_str`. Both depend on the two texts alone; the result is named `joined_url`, with
/// nothing said of what it is.
#[verifier::external_body]
fn join_url(base: &str, rel: &str) -> (r: Option<String>)
    ensures
        match r {
            Some(u) => joined_url(base@, rel@) == Some(u@),
            None => joined_url(base@, rel@) is None,
        },
{
    match reqwest::Url::parse(base) {
        Ok(u) => match u.join(rel) {
            Ok(j) => Some(j.as_str().to_owned()),
            Err(_) => None,
        },
        Err(_) => None,
    }
}

/// The file of a remote pack's index to download: from the index entry's path resolved
/// against the pack's URL, saved under the last part of that path, with the entry's hash
/// under the name of the index's hash algorithm; `None` where the path cannot be resolved
/// against the URL.
pub fn remote_pack_file(pack_url: &str, file: &PackFile, index_format: HashFormat) -> (r: Option<
    ResolvedFile,
>)
    ensures
        match joined_url(pack_url@, file.file@) {
            Some(u) => r matches Some(f) && f.url@ == u && f.filename@ == after_last(file.file@, '/')
                && f.size is None && string_entries(f.hashes@) == seq![
                (hash_name_of(index_format), file.hash@),
            ],
            None => r is None,
        },
{
    match join_url(pack_url, file.file.as_str()) {
        Some(url) => {
            let mut hashes: StrMap<String> = StrMap::new();
            let k = hash_name(index_format);
            let v = file.hash.clone();
            proof {
                crate::strmap::lemma_inserted_fresh(hashes@, k, v);
            }
            hashes.insert(k, v);
            assert(string_entries(hashes@) =~= seq![(hash_name_of(index_format), file.hash@)]);
            Some(
                ResolvedFile {
                    url,
                    filename: suffix_after(file.file.as_str(), '/').to_owned(),
                    size: None,
                    hashes,
                },
            )
        },
        None => None,
    }
}

/// Where a file of a pack's index comes from and goes to when the pack is a local folder:
/// its path under the pack's folder, and its path under the server's `config` directory.
pub fn local_pack_file(folder: &str, server_path: &str, file: &PackFile) -> (r: (String, String))
    ensures
        r.0@ == joined_path(folder@, file.file@),
        r.1@ == joined_path(joined_path(server_path@, "config"@), file.file@),
{
    let config = join_path(server_path, "config");
    (join_path(folder, file.file.as_str()), join_path(config.as_str(), file.file.as_str()))
}

/// Whether a pack is read from the network rather than from a folder: its location starts
/// with `http`.
fn is_remote(location: &str) -> (r: bool)
    ensures
        r == has_prefix(location@, "http"@),
{
    starts_with(location, "http")
}

/// What importing a pack does with a file of its index.
#[derive(Debug, PartialEq, Eq, Structural, Clone, Copy)]
pub enum PackImport {
    /// A mod's metafile: import the mod.
    Mod,
    /// A metafile outside `mods`: not supported.
    Unsupported,
    /// Any other file: copy it into the server's configuration.
    Config,
}

/// What importing a pack does with a file of its index.
fn action_for(file: &PackFile) -> (r: PackImport)
    ensures
        r == if file.metafile {
            if has_prefix(file.file@, "mods"@) {
                PackImport::Mod
            } else {
                PackImport::Unsupported
            }
        } else {
            PackImport::Config
        },
{
    if file.metafile {
        if starts_with(file.file.as_str(), "mods") {
            PackImport::Mod
        } else {
            PackImport::Unsupported
        }
    } else {
        PackImport::Config
    }
}

/// The hash algorithm by which a mod's file can be looked up on Modrinth: SHA-512 or SHA-1,
/// where the mod has a hash.
fn hash_lookup(down: &ModDownload) -> (r: Option<String>)
    ensures
        match r {
            Some(f) => down.hash@.len() > 0 && ((down.hash_format == HashFormat::Sha512 && f@
                == "sha512"@) || (down.hash_format == HashFormat::Sha1 && f@ == "sha1"@)),
            None => down.hash@.len() == 0 || (down.hash_format != HashFormat::Sha512
                && down.hash_format != HashFormat::Sha1),
        },
{
    if down.hash.as_str().unicode_len() == 0 {
        None
    } else {
        match down.hash_format {
            HashFormat::Sha512 => Some("sha512".to_owned()),
            HashFormat::Sha1 => Some("sha1".to_owned()),
            _ => None,
        }
    }
}

/// The source that a mod's update section names: its Modrinth project and version, else its
/// CurseForge project and file (through CurseRinth).
/// `r` is the source that update section `update` names: its Modrinth project and version,
/// else its CurseForge project and file (through CurseRinth), else none.
pub open spec fn names_source(update: Option<ModUpdate>, r: Option<Downloadable>) -> bool {
    match update {
        Some(u) => match u.modrinth {
            Some(mr) => r matches Some(d) && d@ == (DownloadableView::Modrinth {
                id: mr.mod_id@,
                version: mr.version@,
            }),
            None => match u.curseforge {
                Some(cf) => r matches Some(d) && d@ == (DownloadableView::CurseRinth {
                    id: dec_nat(cf.project_id as nat),
                    version: dec_nat(cf.file_id as nat),
                }),
                None => r is None,
            },
        },
        None => r is None,
    }
}

/// `u` is the update section written for source `d`: Modrinth sources update from their
/// project and version; others have none.
pub open spec fn update_written_for(d: DownloadableView, u: Option<ModUpdate>) -> bool {
    match d {
        DownloadableView::Modrinth { id, version } => u matches Some(x) && x.curseforge is None
            && (x.modrinth matches Some(m) && m.mod_id@ == id && m.version@ == version),
        _ => u is None,
    }
}

fn source_of_update(update: &Option<ModUpdate>) -> (r: Option<Downloadable>)
    ensures
        names_source(*update, r),
{
    match update {
        Some(u) => match &u.modrinth {
            Some(mr) => Some(
                Downloadable::Modrinth { id: mr.mod_id.clone(), version: mr.version.clone() },
            ),
            None => match &u.curseforge {
                Some(cf) => Some(
                    Downloadable::CurseRinth {
                        id: fmt_u64(cf.project_id),
                        version: fmt_u64(cf.file_id),
                    },
                ),
                None => None,
            },
        },
        None => None,
    }
}

/// The update section of the mod exported for a source: Modrinth sources update from their
/// project and version; others have none.
fn update_for(dl: &Downloadable) -> (r: Option<ModUpdate>)
    ensures
        update_written_for(dl@, r),
{
    match dl {
        Downloadable::Modrinth { id, version } => Some(
            ModUpdate {
                modrinth: Some(ModrinthModUpdate { mod_id: id.clone(), version: version.clone() }),
                curseforge: None,
            },
        ),
        _ => None,
    }
}

/// A file name without its `.jar` suffix.
pub open spec fn without_jar(f: Seq<char>) -> Seq<char> {
    if has_suffix(f, ".jar"@) {
        f.subrange(0, f.len() - 4)
    } else {
        f
    }
}

/// `r` is the mod exported for a resolved file: named after the file without `.jar`,
/// downloaded from its address with the given hash, for both sides, not optional, without
/// update section.
pub open spec fn file_mod(
    filename: Seq<char>,
    url: Seq<char>,
    hash: Seq<char>,
    hash_format: Seq<char>,
    r: PwMod,
) -> bool {
    &&& r.filename@ == filename
    &&& r.name@ == without_jar(filename)
    &&& r.download.mode == DownloadMode::Url
    &&& r.download.url matches Some(u) && u@ == url
    &&& r.download.hash@ == hash
    &&& r.download.hash_format == hash_format_named(hash_format)
    &&& r.side == Side::Both
    &&& !r.option.optional
    &&& !r.option.default
    &&& r.option.description is None
    &&& r.update is None
}

fn mod_for_file(filename: &str, url: &str, hash: String, hash_format: &str) -> (r: PwMod)
    ensures
        file_mod(filename@, url@, hash@, hash_format@, r),
{
    proof {
        reveal_strlit(".jar");
    }
    let n = filename.unicode_len();
    let name = if ends_with(filename, ".jar") {
        filename.substring_char(0, n - 4).to_owned()
    } else {
        filename.to_owned()
    };
    PwMod {
        name,
        side: Side::Both,
        filename: filename.to_owned(),
        download: ModDownload {
            mode: DownloadMode::Url,
            url: Some(url.to_owned()),
            hash,
            hash_format: hash_format_of(hash_format),
        },
        option: ModOption { optional: false, default: false, description: None },
        update: None,
    }
}

/// The file name of an exported mod.
pub fn mod_filename(name: &str) -> (r: String)
    ensures
        r@ == name@ + ".pw.toml"@,
{
    cat2(name, ".pw.toml")
}

/// The index entry of an exported mod's metafile.
pub fn mod_index_entry(filename: String, hash: String) -> (r: PackFile)
    ensures
        r.file@ == filename@,
        r.hash@ == hash@,
        r.metafile,
        !r.preserve,
        r.alias is None,
        r.hash_format is None,
{
    PackFile { file: filename, hash, metafile: true, alias: None, hash_format: None, preserve: false }
}

/// The paths of a configuration file found at `entry` when a pack is exported from the
/// server at `server_path` into `output_dir`: its path relative to the server's `config`
/// directory (the name in the pack's index), the file it is copied from, and the file it is
/// copied to; `None` where it cannot be made relative to that directory.
pub fn config_export_paths(server_path: &str, output_dir: &str, entry: &str) -> (r: Option<
    (String, String, String),
>)
    ensures
        match diffed_path(entry@, joined_path(server_path@, "config"@)) {
            Some(rel) => r matches Some((a, b, c)) && a@ == rel && b@ == joined_path(
                joined_path(server_path@, "config"@),
                rel,
            ) && c@ == joined_path(output_dir@, rel),
            None => r is None,
        },
{
    let config = join_path(server_path, "config");
    match relative_path(entry, config.as_str()) {
        Some(rel) => {
            let source = join_path(config.as_str(), rel.as_str());
            let dest = join_path(output_dir, rel.as_str());
            Some((rel, source, dest))
        },
        None => None,
    }
}

/// The index entry of an exported configuration file.
pub fn config_index_entry(rel_path: String, hash: String) -> (r: PackFile)
    ensures
        r.file@ == rel_path@,
        r.hash@ == hash@,
        !r.metafile,
        !r.preserve,
        r.alias is None,
        r.hash_format is None,
{
    PackFile {
        file: rel_path,
        hash,
        metafile: false,
        alias: None,
        hash_format: None,
        preserve: false,
    }
}

/// The description of a pack (`pack.toml`).
pub struct Pack {
    pub pack_format: String,
    pub name: String,
    pub versions: StrMap<String>,
    pub author: Option<String>,
    pub description: Option<String>,
    pub version: Option<String>,
    pub index: PackFile,
}

/// The description of an exported pack: named by the `MODPACK_NAME` variable or after the
/// server, with the server's version map and the index's hash.
pub fn export_pack(
    server_name: &str,
    versions: StrMap<String>,
    name_var: Option<String>,
    author: Option<String>,
    description: Option<String>,
    version: Option<String>,
    index_hash: String,
) -> (r: Pack)
    ensures
        r.pack_format@ == "packwiz:1.1.0"@,
        r.name@ == match name_var {
            Some(n) => n@,
            None => server_name@,
        },
        r.versions@ == versions@,
        r.author == author,
        r.description == description,
        r.version == version,
        r.index.file@ == "index.toml"@,
        r.index.hash@ == index_hash@,
        r.index.hash_format matches Some(f) && f@ == "sha256"@,
        !r.index.metafile,
        !r.index.preserve,
        r.index.alias is None,
{
    let name = match name_var {
        Some(n) => n,
        None => server_name.to_owned(),
    };
    Pack {
        pack_format: "packwiz:1.1.0".to_owned(),
        name,
        versions,
        author,
        description,
        version,
        index: PackFile {
            file: "index.toml".to_owned(),
            hash: index_hash,
            hash_format: Some("sha256".to_owned()),
            metafile: false,
            preserve: false,
            alias: None,
        },
    }
}

/// How a site says a project works on one side.
#[derive(Debug, PartialEq, Eq, Structural, Clone, Copy)]
pub enum SideSupport {
    Required,
    Optional,
    Unsupported,
    Incompatible,
    Unknown,
}

/// Whether a side cannot run a project.
pub open spec fn refuses(s: SideSupport) -> bool {
    s == SideSupport::Incompatible || s == SideSupport::Unsupported
}

/// The side of the packwiz mod for a project: the client where the server cannot run it,
/// the server where the client cannot, else both.
pub open spec fn side_for(server_side: SideSupport, client_side: SideSupport) -> Side {
    if refuses(server_side) {
        Side::Client
    } else if refuses(client_side) {
        Side::Server
    } else {
        Side::Both
    }
}

/// The side of the packwiz mod for a project.
pub fn side_of(server_side: SideSupport, client_side: SideSupport) -> (r: Side)
    ensures
        r == side_for(server_side, client_side),
{
    if server_side == SideSupport::Incompatible || server_side == SideSupport::Unsupported {
        Side::Client
    } else if client_side == SideSupport::Incompatible || client_side
        == SideSupport::Unsupported {
        Side::Server
    } else {
        Side::Both
    }
}

/// What a site reports about a project, as an exported mod needs it.
pub struct ProjectSummary {
    pub id: String,
    pub slug: String,
    pub title: String,
    pub description: String,
    pub server_side: SideSupport,
    pub client_side: SideSupport,
}

/// Why a source cannot become a packwiz mod.
#[derive(Debug, PartialEq, Eq, Structural, Clone, Copy)]
pub enum PwError {
    /// No version of the project matches the request.
    ReleaseNotFound,
    /// The matching version has no files.
    NoFiles,
    /// The file has no hash of the kind packwiz needs.
    MissingHash,
    /// An id of the CurseForge version is no number.
    BadId,
}

/// The description of an exported mod: the override unless it is empty.
pub open spec fn described(desc_override: Seq<char>, own: Seq<char>) -> Seq<char> {
    if desc_override.len() == 0 {
        own
    } else {
        desc_override
    }
}

/// `(name, m)` is the packwiz mod (with its metafile name) for Modrinth version `version`
/// of project `proj` among `versions`: the first file of the picked version, with its
/// SHA-512 hash, updating from the project's id and that version.
pub open spec fn modrinth_export(
    proj: ProjectSummary,
    version: Seq<char>,
    versions: Seq<ModrinthVersion>,
    is_opt: Option<bool>,
    desc_override: Seq<char>,
    name: String,
    m: PwMod,
) -> bool {
    &&& name@ == proj.slug@ + ".pw.toml"@
    &&& exists|i: int|
        picks_version(versions_view(versions), version, i) && versions[i].files@.len() > 0 && {
            let f = versions[i].files@[0];
            &&& m.filename@ == f.filename@
            &&& m.download.url matches Some(u) && u@ == f.url@
            &&& lookup_str(f.hashes@, "sha512"@) == Some(m.download.hash@)
        }
    &&& m.name@ == proj.title@
    &&& m.side == side_for(proj.server_side, proj.client_side)
    &&& m.download.mode == DownloadMode::Url
    &&& m.download.hash_format == HashFormat::Sha512
    &&& m.option.optional == match is_opt {
        Some(b) => b,
        None => proj.client_side == SideSupport::Optional,
    }
    &&& !m.option.default
    &&& m.option.description matches Some(d) && d@ == described(desc_override, proj.description@)
    &&& m.update matches Some(u) && u.curseforge is None && (u.modrinth matches Some(mr)
        && mr.mod_id@ == proj.id@ && mr.version@ == version)
}

/// The packwiz mod (with its metafile name) for Modrinth version `version` of a project,
/// given its versions: the first file of the picked version, with its SHA-512 hash.
pub fn modrinth_pw_mod(
    proj: &ProjectSummary,
    version: &str,
    versions: &Vec<ModrinthVersion>,
    is_opt: Option<bool>,
    desc_override: &str,
) -> (r: Result<(String, PwMod), PwError>)
    ensures
        match r {
            Ok((name, m)) => modrinth_export(
                *proj,
                version@,
                versions@,
                is_opt,
                desc_override@,
                name,
                m,
            ),
            Err(PwError::ReleaseNotFound) => !crate::sources::modrinth::has_pick(
                versions_view(versions@),
                version@,
            ),
            Err(PwError::NoFiles) => exists|i: int|
                picks_version(versions_view(versions@), version@, i) && versions@[i].files@.len()
                    == 0,
            Err(PwError::MissingHash) => exists|i: int|
                picks_version(versions_view(versions@), version@, i) && versions@[i].files@.len()
                    > 0 && lookup_str(versions@[i].files@[0].hashes@, "sha512"@) is None,
            Err(PwError::BadId) => false,
        },
{
    let file = match pick_file(versions, version) {
        Ok(f) => f,
        Err(PickError::ReleaseNotFound) => {
            return Err(PwError::ReleaseNotFound);
        },
        Err(PickError::NoFiles) => {
            return Err(PwError::NoFiles);
        },
    };
    let hash = match file.hashes.get("sha512") {
        Some(h) => h.clone(),
        None => {
            return Err(PwError::MissingHash);
        },
    };
    let optional = match is_opt {
        Some(b) => b,
        None => proj.client_side == SideSupport::Optional,
    };
    let description = if desc_override.unicode_len() == 0 {
        proj.description.clone()
    } else {
        desc_override.to_owned()
    };
    let m = PwMod {
        name: proj.title.clone(),
        side: side_of(proj.server_side, proj.client_side),
        filename: file.filename.clone(),
        download: ModDownload {
            mode: DownloadMode::Url,
            url: Some(file.url.clone()),
            hash,
            hash_format: HashFormat::Sha512,
        },
        option: ModOption { optional, default: false, description: Some(description) },
        update: Some(
            ModUpdate {
                modrinth: Some(
                    ModrinthModUpdate { mod_id: proj.id.clone(), version: version.to_owned() },
                ),
                curseforge: None,
            },
        ),
    };
    Ok((cat2(proj.slug.as_str(), ".pw.toml"), m))
}

/// The packwiz mod (with its metafile name) for CurseRinth version `version` of a project,
/// given its versions: the first file of the picked version, with its SHA-1 hash, downloaded
/// from CurseForge's CDN when `cf_usecdn` is set (without update section), else through
/// CurseForge (updating from the version's file and project ids).
pub fn curserinth_pw_mod(
    proj: &ProjectSummary,
    version: &str,
    versions: &Vec<CurseRinthVersion>,
    cf_usecdn: bool,
    is_opt: Option<bool>,
    desc_override: &str,
) -> (r: Result<(String, PwMod), PwError>)
    ensures
        match r {
            Ok((name, m)) => {
                &&& name@ == proj.slug@ + ".pw.toml"@
                &&& exists|i: int|
                    picks_id(version_ids(versions@), version@, i) && versions@[i].files@.len() > 0
                        && {
                        let f = versions@[i].files@[0];
                        &&& m.filename@ == f.filename@
                        &&& lookup_str(f.hashes@, "sha1"@) == Some(m.download.hash@)
                        &&& if cf_usecdn {
                            &&& m.download.mode == DownloadMode::Url
                            &&& m.download.url matches Some(u) && u@ == f.url@
                            &&& m.update is None
                        } else {
                            &&& m.download.mode == DownloadMode::Curseforge
                            &&& m.download.url is None
                            &&& m.update matches Some(u) && u.modrinth is None && (u.curseforge matches Some(
                                cf,
                            ) && parsed_u64(versions@[i].id@) == Some(cf.file_id) && parsed_u64(
                                versions@[i].project_id@,
                            ) == Some(cf.project_id))
                        }
                    }
                &&& m.name@ == proj.title@
                &&& m.side == side_for(proj.server_side, proj.client_side)
                &&& m.download.hash_format == HashFormat::Sha1
                &&& m.option.optional == match is_opt {
                    Some(b) => b,
                    None => proj.client_side == SideSupport::Optional,
                }
                &&& !m.option.default
                &&& m.option.description matches Some(d) && d@ == described(
                    desc_override@,
                    proj.description@,
                )
            },
            Err(PwError::ReleaseNotFound) => !has_id_pick(version_ids(versions@), version@),
            Err(PwError::NoFiles) => exists|i: int|
                picks_id(version_ids(versions@), version@, i) && versions@[i].files@.len() == 0,
            Err(PwError::MissingHash) => exists|i: int|
                picks_id(version_ids(versions@), version@, i) && versions@[i].files@.len() > 0
                    && lookup_str(versions@[i].files@[0].hashes@, "sha1"@) is None,
            Err(PwError::BadId) => !cf_usecdn && exists|i: int|
                picks_id(version_ids(versions@), version@, i) && versions@[i].files@.len() > 0
                    && lookup_str(versions@[i].files@[0].hashes@, "sha1"@) is Some && (parsed_u64(
                    versions@[i].id@,
                ) is None || parsed_u64(versions@[i].project_id@) is None),
        },
{
    let file = match crate::sources::curserinth::pick_file(versions, version) {
        Ok(f) => f,
        Err(PickError::ReleaseNotFound) => {
            return Err(PwError::ReleaseNotFound);
        },
        Err(PickError::NoFiles) => {
            return Err(PwError::NoFiles);
        },
    };
    let ghost fv = file@;
    let ghost k = choose|i: int|
        picks_id(version_ids(versions@), version@, i) && versions@[i].files@.len() > 0
            && fv == versions@[i].files@[0]@;
    let idx = pick_version_index(versions, version);
    proof {
        crate::sources::lemma_picks_id_unique(version_ids(versions@), version@, k, idx as int);
    }
    let hash = match file.hashes.get("sha1") {
        Some(h) => h.clone(),
        None => {
            return Err(PwError::MissingHash);
        },
    };
    let optional = match is_opt {
        Some(b) => b,
        None => proj.client_side == SideSupport::Optional,
    };
    let description = if desc_override.unicode_len() == 0 {
        proj.description.clone()
    } else {
        desc_override.to_owned()
    };
    let (download, update) = if cf_usecdn {
        (
            ModDownload {
                mode: DownloadMode::Url,
                url: Some(file.url.clone()),
                hash,
                hash_format: HashFormat::Sha1,
            },
            None,
        )
    } else {
        let file_id = match parse_u64(versions[idx].id.as_str()) {
            Some(n) => n,
            None => {
                return Err(PwError::BadId);
            },
        };
        let project_id = match parse_u64(versions[idx].project_id.as_str()) {
            Some(n) => n,
            None => {
                return Err(PwError::BadId);
            },
        };
        (
            ModDownload { mode: DownloadMode::Curseforge, url: None, hash, hash_format: HashFormat::Sha1 },
            Some(
                ModUpdate {
                    modrinth: None,
                    curseforge: Some(CurseforgeModUpdate { file_id, project_id }),
                },
            ),
        )
    };
    let m = PwMod {
        name: proj.title.clone(),
        side: side_of(proj.server_side, proj.client_side),
        filename: file.filename.clone(),
        download,
        option: ModOption { optional, default: false, description: Some(description) },
        update,
    };
    Ok((cat2(proj.slug.as_str(), ".pw.toml"), m))
}

fn pick_version_index(versions: &Vec<CurseRinthVersion>, version: &str) -> (r: usize)
    requires
        has_id_pick(version_ids(versions@), version@),
    ensures
        picks_id(version_ids(versions@), version@, r as int),
{
    let mut ids: Vec<String> = Vec::new();
    let mut i: usize = 0;
    while i < versions.len()
        invariant
            i <= versions.len(),
            ids.deep_view() =~= version_ids(versions@).take(i as int),
        decreases versions.len() - i,
    {
        let ghost before = ids.deep_view();
        ids.push(versions[i].id.clone());
        proof {
            assert(ids.deep_view() =~= before.push(versions@[i as int].id@));
            assert(version_ids(versions@).take(i + 1) =~= version_ids(versions@).take(i as int).push(
                versions@[i as int].id@,
            ));
        }
        i = i + 1;
    }
    assert(version_ids(versions@).take(versions.len() as int) =~= version_ids(versions@));
    match pick_id(&ids, version) {
        Some(k) => k,
        None => {
            proof {
                assert(false);
            }
            0
        },
    }
}

/// How a source is exported as a packwiz mod.
#[derive(Debug, PartialEq, Eq, Structural, Clone, Copy)]
pub enum PwExport {
    /// From its Modrinth project and version (`modrinth_pw_mod`).
    Modrinth,
    /// From its CurseRinth project and version (`curserinth_pw_mod`).
    CurseRinth,
    /// From its address and the hash of its file (`url_pw_mod`).
    Url,
    /// It cannot become a packwiz mod: it is left out with a warning.
    Unsupported,
}

/// How a source is exported as a packwiz mod: Modrinth, CurseRinth and plain URL sources
/// each their own way; Spigot, Hangar, GitHub release, Jenkins and Maven sources not at all.
pub open spec fn export_way(d: DownloadableView) -> PwExport {
    match d {
        DownloadableView::Modrinth { .. } => PwExport::Modrinth,
        DownloadableView::CurseRinth { .. } => PwExport::CurseRinth,
        DownloadableView::Url { .. } => PwExport::Url,
        _ => PwExport::Unsupported,
    }
}

impl Downloadable {
    /// How this source is exported as a packwiz mod.
    pub fn pw_export_way(&self) -> (r: PwExport)
        ensures
            r == export_way(self@),
    {
        match self {
            Downloadable::Modrinth { .. } => PwExport::Modrinth,
            Downloadable::CurseRinth { .. } => PwExport::CurseRinth,
            Downloadable::Url { .. } => PwExport::Url,
            _ => PwExport::Unsupported,
        }
    }
}

/// The packwiz mod (with its metafile name) for a plain URL source, given its file name and
/// the SHA-256 hash of its file.
pub fn url_pw_mod(
    url: &str,
    desc: &Option<String>,
    filename: &str,
    hash: String,
    is_opt: Option<bool>,
    desc_override: &str,
) -> (r: (String, PwMod))
    ensures
        r.0@ == filename@ + ".pw.toml"@,
        r.1.name@ == filename@,
        r.1.filename@ == filename@,
        r.1.side == Side::Both,
        r.1.download.mode == DownloadMode::Url,
        r.1.download.url matches Some(u) && u@ == url@,
        r.1.download.hash@ == hash@,
        r.1.download.hash_format == HashFormat::Sha256,
        r.1.option.optional == match is_opt {
            Some(b) => b,
            None => false,
        },
        !r.1.option.default,
        desc_override@.len() == 0 ==> r.1.option.description == *desc,
        desc_override@.len() > 0 ==> (r.1.option.description matches Some(d) && d@
            == desc_override@),
        r.1.update is None,
{
    let description = if desc_override.unicode_len() == 0 {
        match desc {
            Some(d) => Some(d.clone()),
            None => None,
        }
    } else {
        Some(desc_override.to_owned())
    };
    let optional = match is_opt {
        Some(b) => b,
        None => false,
    };
    let m = PwMod {
        name: filename.to_owned(),
        side: Side::Both,
        filename: filename.to_owned(),
        download: ModDownload {
            mode: DownloadMode::Url,
            url: Some(url.to_owned()),
            hash,
            hash_format: HashFormat::Sha256,
        },
        option: ModOption { optional, default: false, description },
        update: None,
    };
    (cat2(filename, ".pw.toml"), m)
}


/// Packwiz packs of a server.
pub struct PackwizInterop<'a>(pub &'a crate::server::Server);

impl<'a> PackwizInterop<'a> {
    /// Whether a pack is read from the network rather than from a folder: its location
    /// starts with `http`.
    pub fn get_file_provider(location: &str) -> (r: bool)
        ensures
            r == has_prefix(location@, "http"@),
    {
        is_remote(location)
    }

    /// What importing a pack does with a file of its index.
    pub fn import_action(file: &PackFile) -> (r: PackImport)
        ensures
            r == if file.metafile {
                if has_prefix(file.file@, "mods"@) {
                    PackImport::Mod
                } else {
                    PackImport::Unsupported
                }
            } else {
                PackImport::Config
            },
    {
        action_for(file)
    }

    /// The hash algorithm by which a mod's file can be looked up on Modrinth: SHA-512 or
    /// SHA-1, where the mod has a hash.
    pub fn dl_from_hash(down: &ModDownload) -> (r: Option<String>)
        ensures
            match r {
                Some(f) => down.hash@.len() > 0 && ((down.hash_format == HashFormat::Sha512 && f@
                    == "sha512"@) || (down.hash_format == HashFormat::Sha1 && f@ == "sha1"@)),
                None => down.hash@.len() == 0 || (down.hash_format != HashFormat::Sha512
                    && down.hash_format != HashFormat::Sha1),
            },
    {
        hash_lookup(down)
    }

    /// The source that a mod's update section names: its Modrinth project and version, else
    /// its CurseForge project and file (through CurseRinth).
    pub fn dl_from_mod_update(update: &Option<ModUpdate>) -> (r: Option<Downloadable>)
        ensures
            names_source(*update, r),
    {
        source_of_update(update)
    }

    /// The update section of the mod exported for a source: Modrinth sources update from
    /// their project and version; others have none.
    pub fn get_mod_update(dl: &Downloadable) -> (r: Option<ModUpdate>)
        ensures
            update_written_for(dl@, r),
    {
        update_for(dl)
    }

    /// The mod exported for a resolved file: named after the file without `.jar`,
    /// downloaded from its address with the given hash.
    pub fn resolved_to_mod(filename: &str, url: &str, hash: String, hash_format: &str) -> (r:
        PwMod)
        ensures
            file_mod(filename@, url@, hash@, hash_format@, r),
    {
        mod_for_file(filename, url, hash, hash_format)
    }

    /// The description of the pack exported for the server: named by the `MODPACK_NAME`
    /// variable or after the server, with the server's version map (without `-loader`
    /// keys) and the hash of its index.
    pub fn export_pack(
        &self,
        name_var: Option<String>,
        author: Option<String>,
        description: Option<String>,
        version: Option<String>,
        index_hash: String,
    ) -> (r: Pack)
        ensures
            r.pack_format@ == "packwiz:1.1.0"@,
            r.name@ == match name_var {
                Some(n) => n@,
                None => self.0.name@,
            },
            crate::strmap::string_entries(r.versions@) == crate::server::version_rows(
                self.0.mc_version@,
                self.0.jar@,
                false,
            ),
            r.author == author,
            r.description == description,
            r.version == version,
            r.index.file@ == "index.toml"@,
            r.index.hash@ == index_hash@,
            r.index.hash_format matches Some(f) && f@ == "sha256"@,
            !r.index.metafile,
            !r.index.preserve,
            r.index.alias is None,
    {
        let versions = self.0.to_map(false);
        export_pack(self.0.name.as_str(), versions, name_var, author, description, version, index_hash)
    }
}

/// How a packwiz mod becomes a source.
pub enum FromPwMod {
    /// Its update section names the source.
    Known(Downloadable),
    /// Its update section names no site that is known.
    UnknownUpdate,
    /// It has no update section: the source is imported from its download address.
    FromUrl(String),
    /// It has neither an update section nor a download address.
    NoUrl,
}

/// `r` is how packwiz mod `m` becomes a source: by the source its update section names
/// (none where it names no known site), else by its download address.
pub open spec fn imported_as(m: PwMod, r: FromPwMod) -> bool {
    match m.update {
        Some(u) => match u.modrinth {
            Some(mr) => r matches FromPwMod::Known(d) && d@ == (DownloadableView::Modrinth {
                id: mr.mod_id@,
                version: mr.version@,
            }),
            None => match u.curseforge {
                Some(cf) => r matches FromPwMod::Known(d) && d@ == (DownloadableView::CurseRinth {
                    id: dec_nat(cf.project_id as nat),
                    version: dec_nat(cf.file_id as nat),
                }),
                None => r is UnknownUpdate,
            },
        },
        None => match m.download.url {
            Some(u) => r matches FromPwMod::FromUrl(x) && x@ == u@,
            None => r is NoUrl,
        },
    }
}

impl Downloadable {
    /// How a packwiz mod becomes a source: by its update section, else by its download
    /// address.
    pub fn from_pw_mod(m: &PwMod) -> (r: FromPwMod)
        ensures
            imported_as(*m, r),
    {
        match &m.update {
            Some(_) => match source_of_update(&m.update) {
                Some(d) => FromPwMod::Known(d),
                None => FromPwMod::UnknownUpdate,
            },
            None => match &m.download.url {
                Some(u) => FromPwMod::FromUrl(u.clone()),
                None => FromPwMod::NoUrl,
            },
        }
    }
}

/// Packwiz export then import: the update section written for a Modrinth source names that
/// same source when it is read back.
pub proof fn lemma_update_round_trip(d: DownloadableView, u: Option<ModUpdate>, back: Option<
    Downloadable,
>)
    requires
        d is Modrinth,
        update_written_for(d, u),
        names_source(u, back),
    ensures
        back matches Some(b) && b@ == d,
{
}

/// Packwiz export then import: a mod exported from a Modrinth version is imported back as
/// the Modrinth source of the project's id at that version.
pub proof fn lemma_modrinth_export_import(
    proj: ProjectSummary,
    version: Seq<char>,
    versions: Seq<ModrinthVersion>,
    is_opt: Option<bool>,
    desc_override: Seq<char>,
    name: String,
    m: PwMod,
    back: FromPwMod,
)
    requires
        modrinth_export(proj, version, versions, is_opt, desc_override, name, m),
        imported_as(m, back),
    ensures
        back matches FromPwMod::Known(d) && d@ == (DownloadableView::Modrinth {
            id: proj.id@,
            version: version,
        }),
{
}

/// Packwiz export then import: a mod exported for a resolved file is imported back from the
/// address it was exported with.
pub proof fn lemma_file_export_import(
    filename: Seq<char>,
    url: Seq<char>,
    hash: Seq<char>,
    hash_format: Seq<char>,
    m: PwMod,
    back: FromPwMod,
)
    requires
        file_mod(filename, url, hash, hash_format, m),
        imported_as(m, back),
    ensures
        back matches FromPwMod::FromUrl(x) && x@ == url,
{
}

/// The side of an exported mod: a project that the server does not support (or is
/// incompatible with) is a client mod; else one that the client does not support is a
/// server mod; any other runs on both.
pub proof fn lemma_export_side(server_side: SideSupport, client_side: SideSupport)
    ensures
        (server_side == SideSupport::Unsupported || server_side == SideSupport::Incompatible)
            ==> side_for(server_side, client_side) == Side::Client,
        !(server_side == SideSupport::Unsupported || server_side == SideSupport::Incompatible)
            && (client_side == SideSupport::Unsupported || client_side
            == SideSupport::Incompatible) ==> side_for(server_side, client_side) == Side::Server,
        !(server_side == SideSupport::Unsupported || server_side == SideSupport::Incompatible)
            && !(client_side == SideSupport::Unsupported || client_side
            == SideSupport::Incompatible) ==> side_for(server_side, client_side) == Side::Both,
{
}

/// A mod exported from a Modrinth project that the server does not support (or is
/// incompatible with) is a client-only mod.
pub proof fn lemma_modrinth_export_client_only(
    proj: ProjectSummary,
    version: Seq<char>,
    versions: Seq<ModrinthVersion>,
    is_opt: Option<bool>,
    desc_override: Seq<char>,
    name: String,
    m: PwMod,
)
    requires
        modrinth_export(proj, version, versions, is_opt, desc_override, name, m),
        proj.server_side == SideSupport::Unsupported || proj.server_side
            == SideSupport::Incompatible,
    ensures
        m.side == Side::Client,
{
}

} // verus!
