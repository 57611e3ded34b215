//! The server software a server runs: what kind it is, how it is installed and started, and
//! how it is described.
use indexmap::IndexMap;
use vstd::prelude::*;
use vstd::string::*;
use crate::downloadable::{md_link, short_string, Downloadable, DownloadableView};
use crate::error::McmanError;
use crate::json::{json_of_string_lists, string_lists_to_json};
use crate::launcher::{StartupMethod, StartupView};
use crate::ordered::{
    keys_distinct, lemma_insert_all_distinct, table_entries, table_extend, table_new,
};
use crate::strs::{cat2, cat3, clone_strings, str_eq};

verus! {

/// The broad kind of a server software.
#[derive(Debug, PartialEq, Eq, Structural, Clone, Copy)]
pub enum SoftwareType {
    Normal,
    Modded,
    Proxy,
    Unknown,
}

impl Default for SoftwareType {
    fn default() -> (r: Self)
        ensures
            r == SoftwareType::Unknown,
    {
        SoftwareType::Unknown
    }
}

/// The platforms that Hangar sorts its plugins by.
#[derive(Debug, PartialEq, Eq, Structural, Clone, Copy)]
pub enum HangarPlatform {
    Paper,
    Waterfall,
    Velocity,
}

/// The part of a Hangar version query that a server type decides.
pub struct HangarVersionsFilter {
    pub platform: Option<HangarPlatform>,
    pub platform_version: Option<String>,
}

/// The server software, with the versions it was asked for.
pub enum ServerType {
    Vanilla {},
    PaperMC { project: String, build: String },
    Purpur { build: String },
    Fabric { loader: String, installer: String },
    Quilt { loader: String, installer: String },
    NeoForge { loader: String },
    Forge { loader: String },
    BuildTools { software: String, args: Vec<String> },
    Paper {},
    Velocity {},
    Waterfall {},
    BungeeCord {},
    Downloadable { inner: Downloadable },
}

/// A `ServerType` with its strings seen as character sequences.
pub enum ServerTypeView {
    Vanilla,
    PaperMC { project: Seq<char>, build: Seq<char> },
    Purpur { build: Seq<char> },
    Fabric { loader: Seq<char>, installer: Seq<char> },
    Quilt { loader: Seq<char>, installer: Seq<char> },
    NeoForge { loader: Seq<char> },
    Forge { loader: Seq<char> },
    BuildTools { software: Seq<char>, args: Seq<Seq<char>> },
    Paper,
    Velocity,
    Waterfall,
    BungeeCord,
    Downloadable { inner: DownloadableView },
}

impl View for ServerType {
    type V = ServerTypeView;

    open spec fn view(&self) -> ServerTypeView {
        match self {
            ServerType::Vanilla {} => ServerTypeView::Vanilla,
            ServerType::PaperMC { project, build } => ServerTypeView::PaperMC {
                project: project@,
                build: build@,
            },
            ServerType::Purpur { build } => ServerTypeView::Purpur { build: build@ },
            ServerType::Fabric { loader, installer } => ServerTypeView::Fabric {
                loader: loader@,
                installer: installer@,
            },
            ServerType::Quilt { loader, installer } => ServerTypeView::Quilt {
                loader: loader@,
                installer: installer@,
            },
            ServerType::NeoForge { loader } => ServerTypeView::NeoForge { loader: loader@ },
            ServerType::Forge { loader } => ServerTypeView::Forge { loader: loader@ },
            ServerType::BuildTools { software, args } => ServerTypeView::BuildTools {
                software: software@,
                args: args.deep_view(),
            },
            ServerType::Paper {} => ServerTypeView::Paper,
            ServerType::Velocity {} => ServerTypeView::Velocity,
            ServerType::Waterfall {} => ServerTypeView::Waterfall,
            ServerType::BungeeCord {} => ServerTypeView::BungeeCord,
            ServerType::Downloadable { inner } => ServerTypeView::Downloadable { inner: inner@ },
        }
    }
}

impl Clone for ServerType {
    fn clone(&self) -> (r: Self)
        ensures
            r@ == self@,
    {
        match self {
            ServerType::Vanilla {} => ServerType::Vanilla {},
            ServerType::PaperMC { project, build } => ServerType::PaperMC {
                project: project.clone(),
                build: build.clone(),
            },
            ServerType::Purpur { build } => ServerType::Purpur { build: build.clone() },
            ServerType::Fabric { loader, installer } => ServerType::Fabric {
                loader: loader.clone(),
                installer: installer.clone(),
            },
            ServerType::Quilt { loader, installer } => ServerType::Quilt {
                loader: loader.clone(),
                installer: installer.clone(),
            },
            ServerType::NeoForge { loader } => ServerType::NeoForge { loader: loader.clone() },
            ServerType::Forge { loader } => ServerType::Forge { loader: loader.clone() },
            ServerType::BuildTools { software, args } => ServerType::BuildTools {
                software: software.clone(),
                args: clone_strings(args),
            },
            ServerType::Paper {} => ServerType::Paper {},
            ServerType::Velocity {} => ServerType::Velocity {},
            ServerType::Waterfall {} => ServerType::Waterfall {},
            ServerType::BungeeCord {} => ServerType::BungeeCord {},
            ServerType::Downloadable { inner } => ServerType::Downloadable { inner: inner.clone() },
        }
    }
}

/// How the server jar is obtained.
pub enum InstallMethod {
    /// The downloaded file is the server jar.
    SingleJar,
    /// An installer is run, which leaves the server jar behind.
    Installer {
        name: String,
        label: String,
        args: Vec<String>,
        rename_from: Option<String>,
        jar_name: String,
    },
}

/// An `InstallMethod` with its strings seen as character sequences.
pub enum InstallMethodView {
    SingleJar,
    Installer {
        name: Seq<char>,
        label: Seq<char>,
        args: Seq<Seq<char>>,
        rename_from: Option<Seq<char>>,
        jar_name: Seq<char>,
    },
}

impl View for InstallMethod {
    type V = InstallMethodView;

    open spec fn view(&self) -> InstallMethodView {
        match self {
            InstallMethod::SingleJar => InstallMethodView::SingleJar,
            InstallMethod::Installer { name, label, args, rename_from, jar_name } =>
                InstallMethodView::Installer {
                name: name@,
                label: label@,
                args: args.deep_view(),
                rename_from: match rename_from {
                    Some(f) => Some(f@),
                    None => None,
                },
                jar_name: jar_name@,
            },
        }
    }
}

/// The kind of a server software.
pub open spec fn software_type(t: ServerTypeView) -> SoftwareType {
    match t {
        ServerTypeView::Velocity | ServerTypeView::BungeeCord | ServerTypeView::Waterfall =>
            SoftwareType::Proxy,
        ServerTypeView::PaperMC { project, .. } => if project == "velocity"@ || project
            == "waterfall"@ {
            SoftwareType::Proxy
        } else {
            SoftwareType::Normal
        },
        ServerTypeView::Quilt { .. }
        | ServerTypeView::Fabric { .. }
        | ServerTypeView::NeoForge { .. }
        | ServerTypeView::Forge { .. } => SoftwareType::Modded,
        ServerTypeView::Vanilla
        | ServerTypeView::Paper
        | ServerTypeView::Purpur { .. }
        | ServerTypeView::BuildTools { .. } => SoftwareType::Normal,
        ServerTypeView::Downloadable { .. } => SoftwareType::Unknown,
    }
}

/// The name under which Modrinth lists the loader or platform of a server software.
pub open spec fn modrinth_name(t: ServerTypeView) -> Option<Seq<char>> {
    match t {
        ServerTypeView::Fabric { .. } => Some("fabric"@),
        ServerTypeView::Quilt { .. } => Some("quilt"@),
        ServerTypeView::Forge { .. } => Some("forge"@),
        ServerTypeView::NeoForge { .. } => Some("neoforge"@),
        ServerTypeView::Paper => Some("paper"@),
        ServerTypeView::BuildTools { .. } => Some("spigot"@),
        ServerTypeView::Purpur { .. } => Some("purpur"@),
        ServerTypeView::BungeeCord => Some("bungeecord"@),
        ServerTypeView::Velocity => Some("velocity"@),
        ServerTypeView::Waterfall => Some("waterfall"@),
        ServerTypeView::PaperMC { project, .. } => Some(project),
        _ => None,
    }
}

/// The Hangar platform that plugins for a server software are listed under.
pub open spec fn hangar_platform(t: ServerTypeView) -> Option<HangarPlatform> {
    match t {
        ServerTypeView::Waterfall => Some(HangarPlatform::Waterfall),
        ServerTypeView::Velocity => Some(HangarPlatform::Velocity),
        ServerTypeView::PaperMC { project, .. } => if project == "waterfall"@ {
            Some(HangarPlatform::Waterfall)
        } else if project == "velocity"@ {
            Some(HangarPlatform::Velocity)
        } else if project == "paper"@ {
            Some(HangarPlatform::Paper)
        } else {
            None
        },
        ServerTypeView::Paper | ServerTypeView::Purpur { .. } => Some(HangarPlatform::Paper),
        _ => None,
    }
}

/// The Modrinth search facets for a server software at a game version: the game version
/// unless it is a proxy, then the loader category where there is one.
pub open spec fn facet_lists(t: ServerTypeView, mcver: Seq<char>) -> Seq<Seq<Seq<char>>> {
    let first = if software_type(t) != SoftwareType::Proxy {
        seq![seq!["versions:"@ + mcver]]
    } else {
        Seq::<Seq<Seq<char>>>::empty()
    };
    match modrinth_name(t) {
        Some(n) => first.push(seq!["categories:"@ + n]),
        None => first,
    }
}

/// The markdown link naming a server software.
pub open spec fn server_md_link(t: ServerTypeView) -> Seq<char> {
    match t {
        ServerTypeView::Vanilla => "Vanilla"@,
        ServerTypeView::Velocity => "[Velocity](https://papermc.io/software/velocity)"@,
        ServerTypeView::Waterfall => "[Waterfall](https://papermc.io/software/waterfall)"@,
        ServerTypeView::Paper => "[Paper](https://papermc.io/software/paper)"@,
        ServerTypeView::BuildTools { .. } =>
            "[BuildTools](https://www.spigotmc.org/wiki/buildtools/)"@,
        ServerTypeView::BungeeCord => "[BungeeCord](https://www.spigotmc.org/wiki/bungeecord/)"@,
        ServerTypeView::Fabric { .. } => "[Fabric](https://fabricmc.net/)"@,
        ServerTypeView::Purpur { .. } => "[Purpur](https://github.com/PurpurMC/Purpur)"@,
        ServerTypeView::PaperMC { project, build } => "[PaperMC/"@ + project
            + "](https://github.com/PaperMC/"@ + project + "); build "@ + build,
        ServerTypeView::Quilt { .. } => "[Quilt](https://quiltmc.org/)"@,
        ServerTypeView::NeoForge { .. } => "[NeoForge](https://neoforged.net/)"@,
        ServerTypeView::Forge { .. } => "[Forge](https://forums.minecraftforge.net/)"@,
        ServerTypeView::Downloadable { inner } => md_link(inner),
    }
}

/// The one-line description of a server software.
pub open spec fn server_display(t: ServerTypeView) -> Seq<char> {
    match t {
        ServerTypeView::Vanilla => "Vanilla"@,
        ServerTypeView::PaperMC { project, build } => project + " build "@ + build,
        ServerTypeView::Purpur { build } => "Purpur build "@ + build,
        ServerTypeView::Fabric { loader, .. } => "Fabric v"@ + loader,
        ServerTypeView::Quilt { loader, .. } => "Quilt v"@ + loader,
        ServerTypeView::NeoForge { loader } => "NeoForge v"@ + loader,
        ServerTypeView::Forge { loader } => "Forge v"@ + loader,
        ServerTypeView::BuildTools { software, .. } => "(BuildTools) "@ + software,
        ServerTypeView::Paper => "Paper"@,
        ServerTypeView::Velocity => "Velocity"@,
        ServerTypeView::Waterfall => "Waterfall"@,
        ServerTypeView::BungeeCord => "BungeeCord"@,
        ServerTypeView::Downloadable { inner } => short_string(inner),
    }
}

/// How a version id is shown: `latest` in italics, anything else as code.
pub open spec fn version_label(id: Seq<char>) -> Seq<char> {
    if id == "latest"@ {
        "*Latest*"@
    } else {
        "`"@ + id + "`"@
    }
}

/// How a build id is shown: `latest` in italics, anything else as a numbered code.
pub open spec fn build_label(id: Seq<char>) -> Seq<char> {
    if id == "latest"@ {
        "*Latest*"@
    } else {
        "`#"@ + id + "`"@
    }
}

/// `s` as inline code.
pub open spec fn code_label(s: Seq<char>) -> Seq<char> {
    "`"@ + s + "`"@
}

/// The metadata rows shown for a server software.
pub open spec fn metadata_rows(t: ServerTypeView) -> Seq<(Seq<char>, Seq<char>)> {
    match t {
        ServerTypeView::Fabric { loader, installer } | ServerTypeView::Quilt {
            loader,
            installer,
        } => {
            let base = seq![("Loader"@, version_label(loader))];
            if installer != "latest"@ {
                base.push(("Installer"@, code_label(installer)))
            } else {
                base
            }
        },
        ServerTypeView::NeoForge { loader } | ServerTypeView::Forge { loader } => seq![
            ("Loader"@, version_label(loader)),
        ],
        ServerTypeView::PaperMC { build, .. } | ServerTypeView::Purpur { build } => seq![
            ("Build"@, build_label(build)),
        ],
        ServerTypeView::Downloadable { inner } => match inner {
            DownloadableView::Jenkins { build, artifact, .. } => {
                let base = seq![("Build"@, build_label(build))];
                if artifact != "first"@ {
                    base.push(("Artifact"@, code_label(artifact)))
                } else {
                    base
                }
            },
            DownloadableView::GithubRelease { tag, asset, .. } => {
                let base = seq![("Release"@, version_label(tag))];
                if asset != "first"@ {
                    base.push(("Asset"@, code_label(asset)))
                } else {
                    base
                }
            },
            _ => Seq::<(Seq<char>, Seq<char>)>::empty(),
        },
        _ => Seq::<(Seq<char>, Seq<char>)>::empty(),
    }
}

/// The keys that metadata rows use.
pub open spec fn metadata_key(k: Seq<char>) -> bool {
    k == "Loader"@ || k == "Installer"@ || k == "Build"@ || k == "Artifact"@ || k == "Release"@
        || k == "Asset"@
}

/// The metadata rows of a server software have distinct keys, none of them `Version` or
/// `Type`.
pub proof fn lemma_metadata_keys(t: ServerTypeView)
    ensures
        keys_distinct(metadata_rows(t)),
        metadata_rows(t).len() <= 2,
        forall|i: int|
            0 <= i < metadata_rows(t).len() ==> #[trigger] metadata_rows(t)[i].0 != "Version"@
                && metadata_rows(t)[i].0 != "Type"@,
{
    reveal_strlit("Loader");
    reveal_strlit("Installer");
    reveal_strlit("Build");
    reveal_strlit("Artifact");
    reveal_strlit("Release");
    reveal_strlit("Asset");
    reveal_strlit("Version");
    reveal_strlit("Type");
    assert("Release"@ != "Version"@) by {
        assert("Release"@[0] != "Version"@[0]);
    }
    let rows = metadata_rows(t);
    assert forall|i: int| 0 <= i < rows.len() implies metadata_key(#[trigger] rows[i].0) by {}
    assert("Loader"@.len() == 6 && "Installer"@.len() == 9 && "Build"@.len() == 5);
    assert("Artifact"@.len() == 8 && "Release"@.len() == 7 && "Asset"@.len() == 5);
    assert("Version"@.len() == 7 && "Type"@.len() == 4);
    assert forall|k: Seq<char>| metadata_key(k) implies k != "Version"@ && k != "Type"@ by {
        if k == "Release"@ {
            assert(k != "Version"@);
        } else {
            assert(k.len() != 7 && k.len() != 4);
        }
    }
    if rows.len() == 2 {
        assert(rows[0].0.len() != rows[1].0.len());
    }
}

/// The arguments of the Quilt installer.
pub open spec fn quilt_args(mcver: Seq<char>, loader: Seq<char>) -> Seq<Seq<char>> {
    let head = seq!["install"@, "server"@, mcver];
    let with_loader = if loader != "latest"@ {
        head.push(loader)
    } else {
        head
    };
    with_loader + seq!["--install-dir=."@, "--download-server"@]
}

/// Where the forge-style installers of `vendor` put the server jar.
pub open spec fn forge_jar(vendor: Seq<char>, mcver: Seq<char>, l: Seq<char>) -> Seq<char> {
    "libraries/net/"@ + vendor + "/forge/"@ + mcver + "-"@ + l + "/forge-"@ + mcver + "-"@ + l
        + "-server.jar"@
}

/// The argument file that the forge-style installers of `vendor` leave for `os`.
pub open spec fn forge_args_file(vendor: Seq<char>, mcver: Seq<char>, l: Seq<char>, os: Seq<char>) -> Seq<
    char,
> {
    "@libraries/net/"@ + vendor + "/forge/"@ + mcver + "-"@ + l + "/"@ + os + "_args.txt"@
}

/// How a server software is installed for game version `mcver`, where `lid` is the loader
/// version id that its requested loader resolved to.
pub open spec fn install_method(t: ServerTypeView, mcver: Seq<char>, lid: Seq<char>) -> InstallMethodView {
    match t {
        ServerTypeView::Quilt { loader, .. } => InstallMethodView::Installer {
            name: "Quilt Server Installer"@,
            label: "qsi"@,
            args: quilt_args(mcver, loader),
            rename_from: Some("quilt-server-launch.jar"@),
            jar_name: "quilt-server-launch-"@ + mcver + "-"@ + lid + ".jar"@,
        },
        ServerTypeView::NeoForge { .. } => InstallMethodView::Installer {
            name: "NeoForged Installer"@,
            label: "nfi"@,
            args: seq!["--installServer"@, "."@],
            rename_from: None,
            jar_name: forge_jar("neoforged"@, mcver, lid),
        },
        ServerTypeView::Forge { .. } => InstallMethodView::Installer {
            name: "Forge Installer"@,
            label: "fi"@,
            args: seq!["--installServer"@, "."@],
            rename_from: None,
            jar_name: forge_jar("minecraftforge"@, mcver, lid),
        },
        ServerTypeView::BuildTools { software, args } => InstallMethodView::Installer {
            name: "BuildTools"@,
            label: "bt"@,
            args: seq!["--compile"@, software, "--compile-if-changed"@, "--rev"@, mcver] + args,
            rename_from: Some("server.jar"@),
            jar_name: (if software == "craftbukkit"@ {
                "craftbukkit"@
            } else {
                "spigot"@
            }) + "-"@ + mcver + ".jar"@,
        },
        _ => InstallMethodView::SingleJar,
    }
}

/// How a server software is started, with the same inputs as `install_method` and the name
/// of the server jar.
pub open spec fn startup_method(t: ServerTypeView, mcver: Seq<char>, lid: Seq<char>, jar: Seq<char>) -> StartupView {
    match t {
        ServerTypeView::NeoForge { .. } => StartupView::Custom {
            windows: seq![forge_args_file("neoforged"@, mcver, lid, "win"@)],
            linux: seq![forge_args_file("neoforged"@, mcver, lid, "unix"@)],
        },
        ServerTypeView::Forge { .. } => StartupView::Custom {
            windows: seq![forge_args_file("minecraftforge"@, mcver, lid, "win"@)],
            linux: seq![forge_args_file("minecraftforge"@, mcver, lid, "unix"@)],
        },
        _ => StartupView::Jar(jar),
    }
}

/// `latest`, the version asked for by default.
pub fn latest() -> (r: String)
    ensures
        r@ == "latest"@,
{
    "latest".to_owned()
}

/// `spigot`, the software that BuildTools compiles by default.
pub fn spigot() -> (r: String)
    ensures
        r@ == "spigot"@,
{
    "spigot".to_owned()
}

/// The BungeeCord proxy, as built by its Jenkins server.
pub fn bungeecord() -> (r: Downloadable)
    ensures
        r@ == (DownloadableView::Jenkins {
            url: "https://ci.md-5.net"@,
            job: "BungeeCord"@,
            build: "latest"@,
            artifact: "BungeeCord"@,
        }),
{
    Downloadable::Jenkins {
        url: "https://ci.md-5.net".to_owned(),
        job: "BungeeCord".to_owned(),
        build: "latest".to_owned(),
        artifact: "BungeeCord".to_owned(),
    }
}

/// Spigot's BuildTools, as built by its Jenkins server.
pub fn buildtools() -> (r: Downloadable)
    ensures
        r@ == (DownloadableView::Jenkins {
            url: "https://hub.spigotmc.org/jenkins"@,
            job: "BuildTools"@,
            build: "latest"@,
            artifact: "BuildTools"@,
        }),
{
    Downloadable::Jenkins {
        url: "https://hub.spigotmc.org/jenkins".to_owned(),
        job: "BuildTools".to_owned(),
        build: "latest".to_owned(),
        artifact: "BuildTools".to_owned(),
    }
}

fn version_text(id: &str) -> (r: String)
    ensures
        r@ == version_label(id@),
{
    if str_eq(id, "latest") {
        "*Latest*".to_owned()
    } else {
        cat3("`", id, "`")
    }
}

fn build_text(id: &str) -> (r: String)
    ensures
        r@ == build_label(id@),
{
    if str_eq(id, "latest") {
        "*Latest*".to_owned()
    } else {
        cat3("`#", id, "`")
    }
}

fn forge_jar_text(vendor: &str, mcver: &str, l: &str) -> (r: String)
    ensures
        r@ == forge_jar(vendor@, mcver@, l@),
{
    let mut r = cat3("libraries/net/", vendor, "/forge/");
    r.append(mcver);
    r.append("-");
    r.append(l);
    r.append("/forge-");
    r.append(mcver);
    r.append("-");
    r.append(l);
    r.append("-server.jar");
    r
}

fn forge_args_text(vendor: &str, mcver: &str, l: &str, os: &str) -> (r: String)
    ensures
        r@ == forge_args_file(vendor@, mcver@, l@, os@),
{
    let mut r = cat3("@libraries/net/", vendor, "/forge/");
    r.append(mcver);
    r.append("-");
    r.append(l);
    r.append("/");
    r.append(os);
    r.append("_args.txt");
    r
}

impl ServerType {
    /// The kind of this server software.
    pub fn get_software_type(&self) -> (r: SoftwareType)
        ensures
            r == software_type(self@),
    {
        match self {
            ServerType::Velocity {} | ServerType::BungeeCord {} | ServerType::Waterfall {} =>
                SoftwareType::Proxy,
            ServerType::PaperMC { project, .. } => {
                if str_eq(project.as_str(), "velocity") || str_eq(project.as_str(), "waterfall") {
                    SoftwareType::Proxy
                } else {
                    SoftwareType::Normal
                }
            },
            ServerType::Quilt { .. }
            | ServerType::Fabric { .. }
            | ServerType::NeoForge { .. }
            | ServerType::Forge { .. } => SoftwareType::Modded,
            ServerType::Vanilla {}
            | ServerType::Paper {}
            | ServerType::Purpur { .. }
            | ServerType::BuildTools { .. } => SoftwareType::Normal,
            ServerType::Downloadable { .. } => SoftwareType::Unknown,
        }
    }

    /// Whether this software loads mods.
    pub fn is_modded(&self) -> (r: bool)
        ensures
            r == (software_type(self@) == SoftwareType::Modded),
    {
        self.get_software_type() == SoftwareType::Modded
    }

    /// Whether the EULA can be accepted with a system property on the command line: not for
    /// vanilla servers nor for modded ones.
    pub fn supports_eula_args(&self) -> (r: bool)
        ensures
            r == (!(self@ is Vanilla) && software_type(self@) != SoftwareType::Modded),
    {
        let vanilla = match self {
            ServerType::Vanilla {} => true,
            _ => false,
        };
        !vanilla && !self.is_modded()
    }

    /// The name under which Modrinth lists this software's loader or platform.
    pub fn get_modrinth_name(&self) -> (r: Option<String>)
        ensures
            match r {
                Some(s) => modrinth_name(self@) == Some(s@),
                None => modrinth_name(self@) is None,
            },
    {
        match self {
            ServerType::Fabric { .. } => Some("fabric".to_owned()),
            ServerType::Quilt { .. } => Some("quilt".to_owned()),
            ServerType::Forge { .. } => Some("forge".to_owned()),
            ServerType::NeoForge { .. } => Some("neoforge".to_owned()),
            ServerType::Paper {} => Some("paper".to_owned()),
            ServerType::BuildTools { .. } => Some("spigot".to_owned()),
            ServerType::Purpur { .. } => Some("purpur".to_owned()),
            ServerType::BungeeCord {} => Some("bungeecord".to_owned()),
            ServerType::Velocity {} => Some("velocity".to_owned()),
            ServerType::Waterfall {} => Some("waterfall".to_owned()),
            ServerType::PaperMC { project, .. } => Some(project.clone()),
            _ => None,
        }
    }

    /// The Modrinth search facets for this software at game version `mcver`.
    pub fn modrinth_facet_lists(&self, mcver: &str) -> (r: Vec<Vec<String>>)
        ensures
            r.deep_view() == facet_lists(self@, mcver@),
    {
        let mut arr: Vec<Vec<String>> = Vec::new();
        if self.get_software_type() != SoftwareType::Proxy {
            let item = vec![cat2("versions:", mcver)];
            assert(item.deep_view() =~= seq!["versions:"@ + mcver@]);
            arr.push(item);
            assert(arr.deep_view() =~= seq![item.deep_view()]);
        }
        let ghost a0 = arr.deep_view();
        match self.get_modrinth_name() {
            Some(n) => {
                let item = vec![cat2("categories:", n.as_str())];
                assert(item.deep_view() =~= seq!["categories:"@ + n@]);
                arr.push(item);
                assert(arr.deep_view() =~= a0.push(item.deep_view()));
            },
            None => {},
        }
        assert(arr.deep_view() =~= facet_lists(self@, mcver@));
        arr
    }

    /// The Modrinth search facets for this software at game version `mcver`, as JSON.
    pub fn get_modrinth_facets(&self, mcver: &str) -> (r: Result<String, McmanError>)
        ensures
            r matches Ok(s) && s@ == json_of_string_lists(facet_lists(self@, mcver@)),
    {
        let arr = self.modrinth_facet_lists(mcver);
        match string_lists_to_json(&arr) {
            Ok(s) => Ok(s),
            Err(_) => Err(McmanError::Json),
        }
    }

    /// The Hangar platform that plugins for this software are listed under.
    pub fn get_hangar_platform(&self) -> (r: Option<HangarPlatform>)
        ensures
            r == hangar_platform(self@),
    {
        match self {
            ServerType::Waterfall {} => Some(HangarPlatform::Waterfall),
            ServerType::Velocity {} => Some(HangarPlatform::Velocity),
            ServerType::PaperMC { project, .. } => {
                if str_eq(project.as_str(), "waterfall") {
                    Some(HangarPlatform::Waterfall)
                } else if str_eq(project.as_str(), "velocity") {
                    Some(HangarPlatform::Velocity)
                } else if str_eq(project.as_str(), "paper") {
                    Some(HangarPlatform::Paper)
                } else {
                    None
                }
            },
            ServerType::Paper {} | ServerType::Purpur { .. } => Some(HangarPlatform::Paper),
            _ => None,
        }
    }

    /// The Hangar version query for this software at game version `mcver`: its platform, and
    /// the game version where there is a platform.
    pub fn get_hangar_versions_filter(&self, mcver: &str) -> (r: HangarVersionsFilter)
        ensures
            r.platform == hangar_platform(self@),
            match r.platform_version {
                Some(v) => hangar_platform(self@) is Some && v@ == mcver@,
                None => hangar_platform(self@) is None,
            },
    {
        let platform = self.get_hangar_platform();
        let platform_version = match platform {
            Some(_) => Some(mcver.to_owned()),
            None => None,
        };
        HangarVersionsFilter { platform, platform_version }
    }

    /// The markdown link naming this software.
    pub fn get_md_link(&self) -> (r: String)
        ensures
            r@ == server_md_link(self@),
    {
        match self {
            ServerType::Vanilla {} => "Vanilla".to_owned(),
            ServerType::Velocity {} => "[Velocity](https://papermc.io/software/velocity)".to_owned(),
            ServerType::Waterfall {} =>
                "[Waterfall](https://papermc.io/software/waterfall)".to_owned(),
            ServerType::Paper {} => "[Paper](https://papermc.io/software/paper)".to_owned(),
            ServerType::BuildTools { .. } =>
                "[BuildTools](https://www.spigotmc.org/wiki/buildtools/)".to_owned(),
            ServerType::BungeeCord {} =>
                "[BungeeCord](https://www.spigotmc.org/wiki/bungeecord/)".to_owned(),
            ServerType::Fabric { .. } => "[Fabric](https://fabricmc.net/)".to_owned(),
            ServerType::Purpur { .. } => "[Purpur](https://github.com/PurpurMC/Purpur)".to_owned(),
            ServerType::PaperMC { project, build } => {
                let mut r = cat3("[PaperMC/", project.as_str(), "](https://github.com/PaperMC/");
                r.append(project.as_str());
                r.append("); build ");
                r.append(build.as_str());
                r
            },
            ServerType::Quilt { .. } => "[Quilt](https://quiltmc.org/)".to_owned(),
            ServerType::NeoForge { .. } => "[NeoForge](https://neoforged.net/)".to_owned(),
            ServerType::Forge { .. } => "[Forge](https://forums.minecraftforge.net/)".to_owned(),
            ServerType::Downloadable { inner } => inner.get_md_link(),
        }
    }

    /// The one-line description of this software.
    pub fn to_string(&self) -> (r: String)
        ensures
            r@ == server_display(self@),
    {
        match self {
            ServerType::Vanilla {} => "Vanilla".to_owned(),
            ServerType::PaperMC { project, build } => cat3(
                project.as_str(),
                " build ",
                build.as_str(),
            ),
            ServerType::Purpur { build } => cat2("Purpur build ", build.as_str()),
            ServerType::Fabric { loader, .. } => cat2("Fabric v", loader.as_str()),
            ServerType::Quilt { loader, .. } => cat2("Quilt v", loader.as_str()),
            ServerType::NeoForge { loader } => cat2("NeoForge v", loader.as_str()),
            ServerType::Forge { loader } => cat2("Forge v", loader.as_str()),
            ServerType::BuildTools { software, .. } => cat2("(BuildTools) ", software.as_str()),
            ServerType::Paper {} => "Paper".to_owned(),
            ServerType::Velocity {} => "Velocity".to_owned(),
            ServerType::Waterfall {} => "Waterfall".to_owned(),
            ServerType::BungeeCord {} => "BungeeCord".to_owned(),
            ServerType::Downloadable { inner } => inner.to_string(),
        }
    }

    /// The metadata rows shown for this software, in order, as pairs.
    pub fn metadata_pairs(&self) -> (r: Vec<(String, String)>)
        ensures
            r@.map_values(|p: (String, String)| (p.0@, p.1@)) == metadata_rows(self@),
    {
        let mut out: Vec<(String, String)> = Vec::new();
        let (k1, v1, second): (&str, String, Option<(&str, String)>) = match self {
            ServerType::Fabric { loader, installer } | ServerType::Quilt { loader, installer } => {
                let extra = if str_eq(installer.as_str(), "latest") {
                    None
                } else {
                    Some(("Installer", cat3("`", installer.as_str(), "`")))
                };
                ("Loader", version_text(loader.as_str()), extra)
            },
            ServerType::NeoForge { loader } | ServerType::Forge { loader } => (
                "Loader",
                version_text(loader.as_str()),
                None,
            ),
            ServerType::PaperMC { build, .. } | ServerType::Purpur { build } => (
                "Build",
                build_text(build.as_str()),
                None,
            ),
            ServerType::Downloadable { inner } => match inner {
                Downloadable::Jenkins { build, artifact, .. } => {
                    let extra = if str_eq(artifact.as_str(), "first") {
                        None
                    } else {
                        Some(("Artifact", cat3("`", artifact.as_str(), "`")))
                    };
                    ("Build", build_text(build.as_str()), extra)
                },
                Downloadable::GithubRelease { tag, asset, .. } => {
                    let extra = if str_eq(asset.as_str(), "first") {
                        None
                    } else {
                        Some(("Asset", cat3("`", asset.as_str(), "`")))
                    };
                    ("Release", version_text(tag.as_str()), extra)
                },
                _ => {
                    assert(out@.map_values(|p: (String, String)| (p.0@, p.1@)) =~= metadata_rows(
                        self@,
                    ));
                    return out;
                },
            },
            _ => {
                assert(out@.map_values(|p: (String, String)| (p.0@, p.1@)) =~= metadata_rows(
                    self@,
                ));
                return out;
            },
        };
        out.push((k1.to_owned(), v1));
        match second {
            Some((k2, v2)) => {
                out.push((k2.to_owned(), v2));
            },
            None => {},
        }
        assert(out@.map_values(|p: (String, String)| (p.0@, p.1@)) =~= metadata_rows(self@));
        out
    }

    /// The metadata rows shown for this software, in order.
    pub fn get_metadata(&self) -> (r: IndexMap<String, String>)
        ensures
            table_entries(r) == metadata_rows(self@),
    {
        proof {
            reveal_strlit("Loader");
            reveal_strlit("Installer");
            reveal_strlit("Build");
            reveal_strlit("Artifact");
            reveal_strlit("Release");
            reveal_strlit("Asset");
        }
        let pairs = self.metadata_pairs();
        let mut map = table_new();
        proof {
            let rows = metadata_rows(self@);
            assert(Seq::<(Seq<char>, Seq<char>)>::empty() + rows =~= rows);
            lemma_metadata_keys(self@);
            lemma_insert_all_distinct(Seq::<(Seq<char>, Seq<char>)>::empty(), rows);
        }
        table_extend(&mut map, &pairs);
        map
    }

    /// How this software is installed for game version `mcver`, where `loader_id` is the
    /// version id that the requested Quilt, NeoForge or Forge loader resolved to.
    pub fn get_install_method(&self, mcver: &str, loader_id: &str) -> (r: InstallMethod)
        ensures
            r@ == install_method(self@, mcver@, loader_id@),
    {
        match self {
            ServerType::Quilt { loader, .. } => {
                let mut args: Vec<String> = vec![
                    "install".to_owned(),
                    "server".to_owned(),
                    mcver.to_owned(),
                ];
                if !str_eq(loader.as_str(), "latest") {
                    args.push(loader.clone());
                }
                args.push("--install-dir=.".to_owned());
                args.push("--download-server".to_owned());
                assert(args.deep_view() =~= quilt_args(mcver@, loader@));
                let mut jar_name = cat3("quilt-server-launch-", mcver, "-");
                jar_name.append(loader_id);
                jar_name.append(".jar");
                let ghost av = args.deep_view();
                let r = InstallMethod::Installer {
                    name: "Quilt Server Installer".to_owned(),
                    label: "qsi".to_owned(),
                    args,
                    rename_from: Some("quilt-server-launch.jar".to_owned()),
                    jar_name,
                };
                assert(r@ == install_method(self@, mcver@, loader_id@));
                r
            },
            ServerType::NeoForge { .. } => {
                let args: Vec<String> = vec!["--installServer".to_owned(), ".".to_owned()];
                assert(args.deep_view() =~= seq!["--installServer"@, "."@]);
                let r = InstallMethod::Installer {
                    name: "NeoForged Installer".to_owned(),
                    label: "nfi".to_owned(),
                    args,
                    rename_from: None,
                    jar_name: forge_jar_text("neoforged", mcver, loader_id),
                };
                assert(r@ == install_method(self@, mcver@, loader_id@));
                r
            },
            ServerType::Forge { .. } => {
                let args: Vec<String> = vec!["--installServer".to_owned(), ".".to_owned()];
                assert(args.deep_view() =~= seq!["--installServer"@, "."@]);
                let r = InstallMethod::Installer {
                    name: "Forge Installer".to_owned(),
                    label: "fi".to_owned(),
                    args,
                    rename_from: None,
                    jar_name: forge_jar_text("minecraftforge", mcver, loader_id),
                };
                assert(r@ == install_method(self@, mcver@, loader_id@));
                r
            },
            ServerType::BuildTools { software, args: extra } => {
                let mut args: Vec<String> = vec![
                    "--compile".to_owned(),
                    software.clone(),
                    "--compile-if-changed".to_owned(),
                    "--rev".to_owned(),
                    mcver.to_owned(),
                ];
                let ghost head = args.deep_view();
                assert(head =~= seq!["--compile"@, software@, "--compile-if-changed"@, "--rev"@, mcver@]);
                let ghost ev = extra.deep_view();
                let mut i: usize = 0;
                while i < extra.len()
                    invariant
                        i <= extra.len(),
                        ev == extra.deep_view(),
                        args.deep_view() =~= head + ev.take(i as int),
                    decreases extra.len() - i,
                {
                    let ghost before = args.deep_view();
                    args.push(extra[i].clone());
                    proof {
                        assert(args.deep_view() =~= before.push(ev[i as int]));
                        assert(ev.take(i + 1) =~= ev.take(i as int).push(ev[i as int]));
                    }
                    i = i + 1;
                }
                assert(ev.take(extra.len() as int) =~= ev);
                assert(args.deep_view() =~= head + ev);
                let base = if str_eq(software.as_str(), "craftbukkit") {
                    "craftbukkit"
                } else {
                    "spigot"
                };
                let jar_name = cat5_jar(base, mcver);
                let r = InstallMethod::Installer {
                    name: "BuildTools".to_owned(),
                    label: "bt".to_owned(),
                    args,
                    rename_from: Some("server.jar".to_owned()),
                    jar_name,
                };
                assert(r@ == install_method(self@, mcver@, loader_id@));
                r
            },
            _ => InstallMethod::SingleJar,
        }
    }

    /// How this software is started, given the game version, the resolved loader version id
    /// (used by NeoForge and Forge) and the name of the server jar.
    pub fn get_startup_method(&self, mcver: &str, loader_id: &str, serverjar_name: &str) -> (r:
        StartupMethod)
        ensures
            r@ == startup_method(self@, mcver@, loader_id@, serverjar_name@),
    {
        match self {
            ServerType::NeoForge { .. } => {
                let windows = vec![forge_args_text("neoforged", mcver, loader_id, "win")];
                let linux = vec![forge_args_text("neoforged", mcver, loader_id, "unix")];
                assert(windows.deep_view() =~= seq![windows[0]@]);
                assert(linux.deep_view() =~= seq![linux[0]@]);
                StartupMethod::Custom { windows, linux }
            },
            ServerType::Forge { .. } => {
                let windows = vec![forge_args_text("minecraftforge", mcver, loader_id, "win")];
                let linux = vec![forge_args_text("minecraftforge", mcver, loader_id, "unix")];
                assert(windows.deep_view() =~= seq![windows[0]@]);
                assert(linux.deep_view() =~= seq![linux[0]@]);
                StartupMethod::Custom { windows, linux }
            },
            _ => StartupMethod::Jar(serverjar_name.to_owned()),
        }
    }
}

fn cat5_jar(base: &str, mcver: &str) -> (r: String)
    ensures
        r@ == base@ + "-"@ + mcver@ + ".jar"@,
{
    let mut r = cat3(base, "-", mcver);
    r.append(".jar");
    r
}


/// The server software offered when a server is set up, by label.
pub fn jar_choices() -> (r: Vec<String>)
    ensures
        r.deep_view() == seq![
            "Vanilla       - No patches"@,
            "PaperMC/Paper - Spigot fork, most popular"@,
            "Purpur        - Paper fork"@,
            "BuildTools    - Spigot, Bukkit or CraftBukkit"@,
        ],
{
    let r = vec![
        "Vanilla       - No patches".to_owned(),
        "PaperMC/Paper - Spigot fork, most popular".to_owned(),
        "Purpur        - Paper fork".to_owned(),
        "BuildTools    - Spigot, Bukkit or CraftBukkit".to_owned(),
    ];
    assert(r.deep_view() =~= seq![
        "Vanilla       - No patches"@,
        "PaperMC/Paper - Spigot fork, most popular"@,
        "Purpur        - Paper fork"@,
        "BuildTools    - Spigot, Bukkit or CraftBukkit"@,
    ]);
    r
}

/// The software of a choice among `jar_choices`; none for BuildTools, whose variant is
/// chosen next among `buildtools_choices`.
pub fn jar_for_choice(choice: usize) -> (r: Option<ServerType>)
    requires
        choice < 4,
    ensures
        choice == 0 ==> (r matches Some(t) && t@ == ServerTypeView::Vanilla),
        choice == 1 ==> (r matches Some(t) && t@ == ServerTypeView::Paper),
        choice == 2 ==> (r matches Some(t) && t@ == ServerTypeView::Purpur { build: "latest"@ }),
        choice == 3 ==> r is None,
{
    if choice == 0 {
        Some(ServerType::Vanilla {})
    } else if choice == 1 {
        Some(ServerType::Paper {})
    } else if choice == 2 {
        Some(ServerType::Purpur { build: "latest".to_owned() })
    } else {
        None
    }
}

/// The BuildTools variants offered, by label.
pub fn buildtools_choices() -> (r: Vec<String>)
    ensures
        r.deep_view() == seq!["Spigot"@, "CraftBukkit"@],
{
    let r = vec!["Spigot".to_owned(), "CraftBukkit".to_owned()];
    assert(r.deep_view() =~= seq!["Spigot"@, "CraftBukkit"@]);
    r
}

/// The BuildTools software of a choice among `buildtools_choices`: plain Spigot, or Spigot
/// asked to compile CraftBukkit.
pub fn buildtools_for_choice(choice: usize) -> (r: ServerType)
    requires
        choice < 2,
    ensures
        choice == 0 ==> r@ == (ServerTypeView::BuildTools {
            software: "spigot"@,
            args: Seq::<Seq<char>>::empty(),
        }),
        choice == 1 ==> r@ == (ServerTypeView::BuildTools {
            software: "spigot"@,
            args: seq!["--compile"@, "craftbukkit"@],
        }),
{
    if choice == 0 {
        let args: Vec<String> = Vec::new();
        assert(args.deep_view() =~= Seq::<Seq<char>>::empty());
        ServerType::BuildTools { software: spigot(), args }
    } else {
        let args = vec!["--compile".to_owned(), "craftbukkit".to_owned()];
        assert(args.deep_view() =~= seq!["--compile"@, "craftbukkit"@]);
        ServerType::BuildTools { software: spigot(), args }
    }
}

/// The modded server software offered, by label.
pub fn modded_jar_choices() -> (r: Vec<String>)
    ensures
        r.deep_view() == seq![
            "Quilt  - Modern, fabric compatible (Beta)"@,
            "Fabric - Lightweight"@,
        ],
{
    let r = vec![
        "Quilt  - Modern, fabric compatible (Beta)".to_owned(),
        "Fabric - Lightweight".to_owned(),
    ];
    assert(r.deep_view() =~= seq![
        "Quilt  - Modern, fabric compatible (Beta)"@,
        "Fabric - Lightweight"@,
    ]);
    r
}

/// The software of a choice among `modded_jar_choices`, with the latest loader and
/// installer.
pub fn modded_jar_for_choice(choice: usize) -> (r: ServerType)
    requires
        choice < 2,
    ensures
        choice == 0 ==> r@ == (ServerTypeView::Quilt { loader: "latest"@, installer: "latest"@ }),
        choice == 1 ==> r@ == (ServerTypeView::Fabric { loader: "latest"@, installer: "latest"@ }),
{
    if choice == 0 {
        ServerType::Quilt { loader: latest(), installer: latest() }
    } else {
        ServerType::Fabric { loader: latest(), installer: latest() }
    }
}

/// The proxy software offered, by label.
pub fn proxy_jar_choices() -> (r: Vec<String>)
    ensures
        r.deep_view() == seq![
            "Velocity   - Modern, high perf. proxy by PaperMC"@,
            "Waterfall  - BungeeCord fork by PaperMC"@,
            "Bungeecord - By md5 (Spigot)"@,
        ],
{
    let r = vec![
        "Velocity   - Modern, high perf. proxy by PaperMC".to_owned(),
        "Waterfall  - BungeeCord fork by PaperMC".to_owned(),
        "Bungeecord - By md5 (Spigot)".to_owned(),
    ];
    assert(r.deep_view() =~= seq![
        "Velocity   - Modern, high perf. proxy by PaperMC"@,
        "Waterfall  - BungeeCord fork by PaperMC"@,
        "Bungeecord - By md5 (Spigot)"@,
    ]);
    r
}

/// The software of a choice among `proxy_jar_choices`.
pub fn proxy_jar_for_choice(choice: usize) -> (r: ServerType)
    requires
        choice < 3,
    ensures
        choice == 0 ==> r@ == ServerTypeView::Velocity,
        choice == 1 ==> r@ == ServerTypeView::Waterfall,
        choice == 2 ==> r@ == ServerTypeView::BungeeCord,
{
    if choice == 0 {
        ServerType::Velocity {}
    } else if choice == 1 {
        ServerType::Waterfall {}
    } else {
        ServerType::BungeeCord {}
    }
}


/// A server software as written in `server.toml`: a software of its own, or any source.
pub enum Bridge {
    ServerType(ServerType),
    Downloadable(Downloadable),
}

impl From<Bridge> for ServerType {
    fn from(value: Bridge) -> (r: ServerType) {
        match value {
            Bridge::ServerType(ty) => ty,
            Bridge::Downloadable(d) => ServerType::Downloadable { inner: d },
        }
    }
}

impl vstd::std_specs::convert::FromSpecImpl<Bridge> for ServerType {
    open spec fn obeys_from_spec() -> bool {
        true
    }

    open spec fn from_spec(value: Bridge) -> ServerType {
        match value {
            Bridge::ServerType(ty) => ty,
            Bridge::Downloadable(d) => ServerType::Downloadable { inner: d },
        }
    }
}

} // verus!
