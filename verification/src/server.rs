//! The server description (`server.toml`) and the network description (`network.toml`).
use vstd::prelude::*;
use vstd::string::*;
use crate::downloadable::{Downloadable, DownloadableView};
use crate::hooks::Hook;
use crate::launcher::{default_launcher, ServerLauncher};
use crate::servertype::{modrinth_name, software_type, ServerType, ServerTypeView, SoftwareType};
use crate::sources::modrinth::{versions_view, ModrinthVersion, ModrinthVersionView};
use crate::strmap::{
    lemma_inserted_fresh, lookup, lookup_str, string_entries, StrMap,
};
use crate::strs::{cat2, str_eq};

verus! {

/// Which markdown files list the server's contents, and whether they are kept up to date.
pub struct MarkdownOptions {
    pub files: Vec<String>,
    pub auto_update: bool,
}

impl Default for MarkdownOptions {
    fn default() -> (r: Self)
        ensures
            r.files.deep_view() == seq!["README.md"@],
            !r.auto_update,
    {
        let files = vec!["README.md".to_owned()];
        assert(files.deep_view() =~= seq!["README.md"@]);
        MarkdownOptions { files, auto_update: false }
    }
}

impl MarkdownOptions {
    /// Whether no file is listed.
    pub fn is_empty(&self) -> (r: bool)
        ensures
            r == (self.files@.len() == 0),
    {
        self.files.len() == 0
    }
}

/// Options of the build and of running the server.
pub struct ServerOptions {
    /// File extensions, besides the usual text formats, whose files get their variables
    /// filled in when copied.
    pub bootstrap_exts: Vec<String>,
    /// The console line that shows the server has started.
    pub success_line: String,
    /// The console command that stops the server.
    pub stop_command: String,
}

impl Default for ServerOptions {
    fn default() -> (r: Self)
        ensures
            r.bootstrap_exts@.len() == 0,
            r.success_line@ == Seq::<char>::empty(),
            r.stop_command@ == Seq::<char>::empty(),
    {
        ServerOptions {
            bootstrap_exts: Vec::new(),
            success_line: String::new(),
            stop_command: String::new(),
        }
    }
}

/// The success line used when none is given.
pub open spec fn success_line_default() -> Seq<char> {
    "]: Done"@
}

/// The stop command used when none is given.
pub open spec fn stop_command_default() -> Seq<char> {
    "stop"@
}

/// `]: Done`, the start of the line a server prints once it has started.
pub fn default_success_line() -> (r: String)
    ensures
        r@ == success_line_default(),
{
    "]: Done".to_owned()
}

/// Whether `s` is the default success line.
pub fn is_default_success_line(s: &str) -> (r: bool)
    ensures
        r == (s@ == success_line_default()),
{
    str_eq(s, "]: Done")
}

/// `stop`, the console command that stops a server.
pub fn default_stop_command() -> (r: String)
    ensures
        r@ == stop_command_default(),
{
    "stop".to_owned()
}

/// Whether `s` is the default stop command.
pub fn is_default_stop_command(s: &str) -> (r: bool)
    ensures
        r == (s@ == stop_command_default()),
{
    str_eq(s, "stop")
}

/// A world of the server: its datapacks, and where to download it from.
pub struct World {
    pub datapacks: Vec<Downloadable>,
    pub download: Option<Downloadable>,
}

/// A `World` as plain values.
pub struct WorldView {
    pub datapacks: Seq<DownloadableView>,
    pub download: Option<DownloadableView>,
}

/// The views of a list of sources.
pub open spec fn sources_view(ds: Seq<Downloadable>) -> Seq<DownloadableView> {
    ds.map_values(|d: Downloadable| d@)
}

impl View for World {
    type V = WorldView;

    open spec fn view(&self) -> WorldView {
        WorldView {
            datapacks: sources_view(self.datapacks@),
            download: match self.download {
                Some(d) => Some(d@),
                None => None,
            },
        }
    }
}

impl Default for World {
    fn default() -> (r: Self)
        ensures
            r@.datapacks.len() == 0,
            r.download is None,
    {
        World { datapacks: Vec::new(), download: None }
    }
}

/// The named worlds of a server, as plain values.
pub open spec fn worlds_view(ws: Seq<(String, World)>) -> Seq<(Seq<char>, WorldView)> {
    ws.map_values(|e: (String, World)| (e.0@, e.1@))
}

/// A mod that only players need, listed for them.
pub struct ClientSideMod {
    pub dl: Downloadable,
    pub optional: bool,
    pub desc: String,
}

/// A server: its name, game version, software, launcher and contents.
pub struct Server {
    /// The directory that holds `server.toml`.
    pub path: String,
    pub name: String,
    pub mc_version: String,
    pub jar: ServerType,
    pub variables: StrMap<String>,
    pub launcher: ServerLauncher,
    pub markdown: MarkdownOptions,
    pub hooks: StrMap<Hook>,
    pub options: ServerOptions,
    pub worlds: StrMap<World>,
    pub plugins: Vec<Downloadable>,
    pub mods: Vec<Downloadable>,
    pub clientsidemods: Vec<ClientSideMod>,
}

impl Default for Server {
    fn default() -> (r: Self)
        ensures
            r.path@ == "."@,
            r.name@ == Seq::<char>::empty(),
            r.mc_version@ == "latest"@,
            r.jar@ == ServerTypeView::Vanilla,
            string_entries(r.variables@) == seq![("PORT"@, "25565"@)],
            default_launcher(r.launcher),
            r.markdown.files.deep_view() == seq!["README.md"@],
            !r.markdown.auto_update,
            r.hooks@.len() == 0,
            r.options.bootstrap_exts@.len() == 0,
            r.options.success_line@ == Seq::<char>::empty(),
            r.options.stop_command@ == Seq::<char>::empty(),
            r.worlds@.len() == 0,
            r.plugins@.len() == 0,
            r.mods@.len() == 0,
            r.clientsidemods@.len() == 0,
    {
        let mut vars: StrMap<String> = StrMap::new();
        let k = "PORT".to_owned();
        let v = "25565".to_owned();
        proof {
            lemma_inserted_fresh(vars@, k, v);
        }
        vars.insert(k, v);
        assert(string_entries(vars@) =~= seq![("PORT"@, "25565"@)]);
        Server {
            path: ".".to_owned(),
            name: String::new(),
            mc_version: "latest".to_owned(),
            jar: ServerType::Vanilla {},
            variables: vars,
            launcher: ServerLauncher::default(),
            markdown: MarkdownOptions::default(),
            hooks: StrMap::new(),
            options: ServerOptions::default(),
            worlds: StrMap::new(),
            plugins: Vec::new(),
            mods: Vec::new(),
            clientsidemods: Vec::new(),
        }
    }
}

/// The value of a `${...}` placeholder of a server: its game version, its name, or one of
/// its variables.
pub open spec fn server_var(s: Server, key: Seq<char>) -> Option<Seq<char>> {
    if key == "mcver"@ || key == "mcversion"@ || key == "SERVER_VERSION"@ {
        Some(s.mc_version@)
    } else if key == "SERVER_NAME"@ {
        Some(s.name@)
    } else {
        lookup_str(s.variables@, key)
    }
}

/// The game version after filling from a version map: the map's `minecraft` entry, if any.
pub open spec fn filled_version(m: Seq<(String, String)>, old: Seq<char>) -> Seq<char> {
    match lookup_str(m, "minecraft"@) {
        Some(v) => v,
        None => old,
    }
}

/// The first of two keys present in a version map.
pub open spec fn either(m: Seq<(String, String)>, a: Seq<char>, b: Seq<char>) -> Option<Seq<char>> {
    match lookup_str(m, a) {
        Some(v) => Some(v),
        None => lookup_str(m, b),
    }
}

/// The server software after filling from a version map: the `forge`, `neoforge`,
/// `fabric-loader` (or `fabric`) and `quilt-loader` (or `quilt`) entries each set the
/// software, in that order, so a later one wins.
pub open spec fn filled_jar(m: Seq<(String, String)>, j: ServerTypeView) -> ServerTypeView {
    let j1 = match lookup_str(m, "forge"@) {
        Some(v) => ServerTypeView::Forge { loader: v },
        None => j,
    };
    let j2 = match lookup_str(m, "neoforge"@) {
        Some(v) => ServerTypeView::NeoForge { loader: v },
        None => j1,
    };
    let j3 = match either(m, "fabric-loader"@, "fabric"@) {
        Some(v) => ServerTypeView::Fabric { loader: v, installer: "latest"@ },
        None => j2,
    };
    match either(m, "quilt-loader"@, "quilt"@) {
        Some(v) => ServerTypeView::Quilt { loader: v, installer: "latest"@ },
        None => j3,
    }
}

/// The version map of a server: its game version, then its loader version where it has one.
pub open spec fn version_rows(mc: Seq<char>, jar: ServerTypeView, include_loader: bool) -> Seq<
    (Seq<char>, Seq<char>),
> {
    let l = if include_loader {
        "-loader"@
    } else {
        Seq::<char>::empty()
    };
    let head = seq![("minecraft"@, mc)];
    match jar {
        ServerTypeView::Quilt { loader, .. } => head.push(("quilt"@ + l, loader)),
        ServerTypeView::Fabric { loader, .. } => head.push(("fabric"@ + l, loader)),
        ServerTypeView::Forge { loader } => head.push(("forge"@, loader)),
        ServerTypeView::NeoForge { loader } => head.push(("neoforge"@, loader)),
        _ => head,
    }
}

/// The software that filling from a server's own version map leaves: its loader, with the
/// latest installer, where it has one; otherwise whatever was there.
pub open spec fn restored_jar(jar: ServerTypeView, old: ServerTypeView) -> ServerTypeView {
    match jar {
        ServerTypeView::Quilt { loader, .. } => ServerTypeView::Quilt {
            loader,
            installer: "latest"@,
        },
        ServerTypeView::Fabric { loader, .. } => ServerTypeView::Fabric {
            loader,
            installer: "latest"@,
        },
        ServerTypeView::Forge { loader } => ServerTypeView::Forge { loader },
        ServerTypeView::NeoForge { loader } => ServerTypeView::NeoForge { loader },
        _ => old,
    }
}

/// Filling any server from the version map of a server gives it that server's game version
/// and loader: `fill_from_map` after `to_map` restores the game version, and the loader of
/// Forge, NeoForge, Fabric and Quilt servers (these with the latest installer).
pub proof fn lemma_fill_from_own_map(
    es: Seq<(String, String)>,
    mc: Seq<char>,
    jar: ServerTypeView,
    include_loader: bool,
    old_mc: Seq<char>,
    old_jar: ServerTypeView,
)
    requires
        string_entries(es) == version_rows(mc, jar, include_loader),
    ensures
        filled_version(es, old_mc) == mc,
        filled_jar(es, old_jar) == restored_jar(jar, old_jar),
{
    reveal_strlit("minecraft");
    reveal_strlit("forge");
    reveal_strlit("neoforge");
    reveal_strlit("fabric-loader");
    reveal_strlit("fabric");
    reveal_strlit("quilt-loader");
    reveal_strlit("quilt");
    reveal_strlit("-loader");
    assert(es.len() == string_entries(es).len());
    assert(string_entries(es)[0] == (es[0].0@, es[0].1@));
    if es.len() > 1 {
        assert(string_entries(es)[1] == (es[1].0@, es[1].1@));
    }
    lemma_lookup_short(es, "minecraft"@);
    lemma_lookup_short(es, "forge"@);
    lemma_lookup_short(es, "neoforge"@);
    lemma_lookup_short(es, "fabric-loader"@);
    lemma_lookup_short(es, "fabric"@);
    lemma_lookup_short(es, "quilt-loader"@);
    lemma_lookup_short(es, "quilt"@);
    let l = if include_loader {
        "-loader"@
    } else {
        Seq::<char>::empty()
    };
    assert(include_loader ==> "quilt"@ + l =~= "quilt-loader"@);
    assert(!include_loader ==> "quilt"@ + l =~= "quilt"@);
    assert(include_loader ==> "fabric"@ + l =~= "fabric-loader"@);
    assert(!include_loader ==> "fabric"@ + l =~= "fabric"@);
    assert("forge"@ != "quilt"@) by {
        assert("forge"@[0] != "quilt"@[0]);
    }
    assert("minecraft"@.len() == 9);
    assert("forge"@.len() == 5);
    assert("neoforge"@.len() == 8);
    assert("fabric-loader"@.len() == 13);
    assert("fabric"@.len() == 6);
    assert("quilt-loader"@.len() == 12);
    assert("quilt"@.len() == 5);
    match jar {
        ServerTypeView::Quilt { loader, .. } => {
            assert(es.len() == 2 && es[1].1@ == loader && es[1].0@ == "quilt"@ + l);
            assert(lookup_str(es, "forge"@) is None);
            assert(lookup_str(es, "neoforge"@) is None);
            assert(lookup_str(es, "fabric-loader"@) is None);
            assert(lookup_str(es, "fabric"@) is None);
            assert(either(es, "quilt-loader"@, "quilt"@) == Some(loader));
        },
        ServerTypeView::Fabric { loader, .. } => {
            assert(es.len() == 2 && es[1].1@ == loader && es[1].0@ == "fabric"@ + l);
            assert(lookup_str(es, "forge"@) is None);
            assert(lookup_str(es, "neoforge"@) is None);
            assert(either(es, "fabric-loader"@, "fabric"@) == Some(loader));
            assert(lookup_str(es, "quilt-loader"@) is None);
            assert(lookup_str(es, "quilt"@) is None);
        },
        ServerTypeView::Forge { loader } => {
            assert(es.len() == 2 && es[1].0@ == "forge"@ && es[1].1@ == loader);
            assert(lookup_str(es, "forge"@) == Some(loader));
            assert(lookup_str(es, "neoforge"@) is None);
            assert(lookup_str(es, "fabric-loader"@) is None);
            assert(lookup_str(es, "fabric"@) is None);
            assert(lookup_str(es, "quilt-loader"@) is None);
            assert(lookup_str(es, "quilt"@) is None);
        },
        ServerTypeView::NeoForge { loader } => {
            assert(es.len() == 2 && es[1].0@ == "neoforge"@ && es[1].1@ == loader);
            assert(lookup_str(es, "forge"@) is None);
            assert(lookup_str(es, "neoforge"@) == Some(loader));
            assert(lookup_str(es, "fabric-loader"@) is None);
            assert(lookup_str(es, "fabric"@) is None);
            assert(lookup_str(es, "quilt-loader"@) is None);
            assert(lookup_str(es, "quilt"@) is None);
        },
        _ => {
            assert(es.len() == 1);
        },
    }
}

proof fn lemma_lookup_short(es: Seq<(String, String)>, k: Seq<char>)
    requires
        1 <= es.len() <= 2,
    ensures
        lookup(es, k) == if es[0].0@ == k {
            Some(es[0].1)
        } else if es.len() == 2 && es[1].0@ == k {
            Some(es[1].1)
        } else {
            None::<String>
        },
{
    reveal_with_fuel(lookup, 3);
    if es.len() == 2 {
        assert(es.skip(1)[0] == es[1]);
        assert(es.skip(1).skip(1).len() == 0);
    } else {
        assert(es.skip(1).len() == 0);
    }
}

/// Whether a version lists game version `mc`.
pub open spec fn lists_game_version(v: ModrinthVersionView, mc: Seq<char>) -> bool {
    v.game_versions.contains(mc)
}

/// Whether a loader name of a version suits a server whose Modrinth name is `n`: datapacks
/// suit every server, and Fabric mods suit Quilt servers.
pub open spec fn loader_suits(l: Seq<char>, n: Seq<char>) -> bool {
    l == "datapack"@ || l == n || (l == "fabric"@ && n == "quilt"@)
}

/// Whether the loaders of a version suit a server's software.
pub open spec fn loaders_suit(ls: Seq<Seq<char>>, jar: ServerTypeView) -> bool {
    match modrinth_name(jar) {
        Some(n) => exists|i: int| 0 <= i < ls.len() && loader_suits(#[trigger] ls[i], n),
        None => if jar is Vanilla {
            ls.contains("datapack"@)
        } else {
            true
        },
    }
}

/// Whether a version suits a server: it is made for the server's game version (any, for a
/// proxy) and for its software.
pub open spec fn suits(v: ModrinthVersionView, jar: ServerTypeView, mc: Seq<char>) -> bool {
    (software_type(jar) == SoftwareType::Proxy || lists_game_version(v, mc)) && loaders_suit(
        v.loaders,
        jar,
    )
}

fn lists_string(list: &Vec<String>, s: &str) -> (r: bool)
    ensures
        r == list.deep_view().contains(s@),
{
    let mut i: usize = 0;
    while i < list.len()
        invariant
            i <= list.len(),
            forall|j: int| 0 <= j < i ==> list.deep_view()[j] != s@,
        decreases list.len() - i,
    {
        if str_eq(list[i].as_str(), s) {
            assert(list.deep_view()[i as int] == s@);
            return true;
        }
        i = i + 1;
    }
    false
}

fn any_loader_suits(ls: &Vec<String>, n: &str) -> (r: bool)
    ensures
        r == exists|i: int| 0 <= i < ls.deep_view().len() && loader_suits(#[trigger] ls.deep_view()[i], n@),
{
    let quilt = str_eq(n, "quilt");
    let mut i: usize = 0;
    while i < ls.len()
        invariant
            i <= ls.len(),
            quilt == (n@ == "quilt"@),
            forall|j: int| 0 <= j < i ==> !loader_suits(#[trigger] ls.deep_view()[j], n@),
        decreases ls.len() - i,
    {
        let l = ls[i].as_str();
        if str_eq(l, "datapack") || str_eq(l, n) || (str_eq(l, "fabric") && quilt) {
            assert(loader_suits(ls.deep_view()[i as int], n@));
            return true;
        }
        i = i + 1;
    }
    false
}

impl Server {
    /// The value of the `${key}` placeholder in this server's files.
    pub fn format_var(&self, key: &str) -> (r: Option<String>)
        ensures
            match r {
                Some(v) => server_var(*self, key@) == Some(v@),
                None => server_var(*self, key@) is None,
            },
    {
        if str_eq(key, "mcver") || str_eq(key, "mcversion") || str_eq(key, "SERVER_VERSION") {
            Some(self.mc_version.clone())
        } else if str_eq(key, "SERVER_NAME") {
            Some(self.name.clone())
        } else {
            match self.variables.get(key) {
                Some(v) => Some(v.clone()),
                None => None,
            }
        }
    }

    /// Takes the game version and the loader from a version map, as found in modpacks.
    pub fn fill_from_map(&mut self, map: &StrMap<String>)
        ensures
            final(self).mc_version@ == filled_version(map@, old(self).mc_version@),
            final(self).jar@ == filled_jar(map@, old(self).jar@),
            final(self).path == old(self).path,
            final(self).name == old(self).name,
            final(self).variables == old(self).variables,
            final(self).launcher == old(self).launcher,
            final(self).markdown == old(self).markdown,
            final(self).hooks == old(self).hooks,
            final(self).options == old(self).options,
            final(self).worlds == old(self).worlds,
            final(self).plugins == old(self).plugins,
            final(self).mods == old(self).mods,
            final(self).clientsidemods == old(self).clientsidemods,
    {
        match map.get("minecraft") {
            Some(v) => {
                self.mc_version = v.clone();
            },
            None => {},
        }
        match map.get("forge") {
            Some(v) => {
                self.jar = ServerType::Forge { loader: v.clone() };
            },
            None => {},
        }
        match map.get("neoforge") {
            Some(v) => {
                self.jar = ServerType::NeoForge { loader: v.clone() };
            },
            None => {},
        }
        let fabric = match map.get("fabric-loader") {
            Some(v) => Some(v),
            None => map.get("fabric"),
        };
        match fabric {
            Some(v) => {
                self.jar = ServerType::Fabric { loader: v.clone(), installer: "latest".to_owned() };
            },
            None => {},
        }
        let quilt = match map.get("quilt-loader") {
            Some(v) => Some(v),
            None => map.get("quilt"),
        };
        match quilt {
            Some(v) => {
                self.jar = ServerType::Quilt { loader: v.clone(), installer: "latest".to_owned() };
            },
            None => {},
        }
    }

    /// The version map of this server: `minecraft`, then the loader's key (`quilt`,
    /// `fabric`, with `-loader` when asked; `forge`, `neoforge`) where it has a loader.
    pub fn to_map(&self, include_loader: bool) -> (r: StrMap<String>)
        ensures
            string_entries(r@) == version_rows(self.mc_version@, self.jar@, include_loader),
    {
        proof {
            reveal_strlit("minecraft");
            reveal_strlit("quilt");
            reveal_strlit("fabric");
            reveal_strlit("forge");
            reveal_strlit("neoforge");
            reveal_strlit("-loader");
            reveal_strlit("");
        }
        let mut map: StrMap<String> = StrMap::new();
        let k0 = "minecraft".to_owned();
        let v0 = self.mc_version.clone();
        proof {
            lemma_inserted_fresh(map@, k0, v0);
        }
        map.insert(k0, v0);
        let l = if include_loader {
            "-loader"
        } else {
            ""
        };
        let entry: Option<(String, String)> = match &self.jar {
            ServerType::Quilt { loader, .. } => Some((cat2("quilt", l), loader.clone())),
            ServerType::Fabric { loader, .. } => Some((cat2("fabric", l), loader.clone())),
            ServerType::Forge { loader } => Some(("forge".to_owned(), loader.clone())),
            ServerType::NeoForge { loader } => Some(("neoforge".to_owned(), loader.clone())),
            _ => None,
        };
        let ghost e0 = map@;
        match entry {
            Some((k, v)) => {
                proof {
                    assert(e0.len() == 1);
                    assert(e0[0].0@ == "minecraft"@);
                    assert(k@.len() != 9);
                    lemma_inserted_fresh(e0, k, v);
                }
                map.insert(k, v);
            },
            None => {},
        }
        assert(string_entries(map@) =~= version_rows(self.mc_version@, self.jar@, include_loader));
        map
    }

    /// The versions among `list` that suit this server, in their order.
    pub fn filter_modrinth_versions(&self, list: &[ModrinthVersion]) -> (r: Vec<ModrinthVersion>)
        ensures
            versions_view(r@) == versions_view(list@).filter(
                |v: ModrinthVersionView| suits(v, self.jar@, self.mc_version@),
            ),
    {
        let is_proxy = self.jar.get_software_type() == SoftwareType::Proxy;
        let is_vanilla = match self.jar {
            ServerType::Vanilla {} => true,
            _ => false,
        };
        let loader = self.get_loader_name();
        let ghost pred = |v: ModrinthVersionView| suits(v, self.jar@, self.mc_version@);
        let ghost lv = versions_view(list@);
        let mut out: Vec<ModrinthVersion> = Vec::new();
        let mut i: usize = 0;
        assert(lv.take(0).filter(pred) =~= Seq::<ModrinthVersionView>::empty()) by {
            reveal(Seq::filter);
        }
        while i < list.len()
            invariant
                lv == versions_view(list@),
                pred == (|v: ModrinthVersionView| suits(v, self.jar@, self.mc_version@)),
                is_proxy == (software_type(self.jar@) == SoftwareType::Proxy),
                is_vanilla == (self.jar@ is Vanilla),
                match loader {
                    Some(n) => modrinth_name(self.jar@) == Some(n@),
                    None => modrinth_name(self.jar@) is None,
                },
                i <= list.len(),
                versions_view(out@) =~= lv.take(i as int).filter(pred),
            decreases list.len() - i,
        {
            let v = &list[i];
            proof {
                crate::strs::lemma_filter_push(lv.take(i as int), pred, lv[i as int]);
                assert(lv.take(i + 1) =~= lv.take(i as int).push(lv[i as int]));
            }
            let version_ok = is_proxy || lists_string(&v.game_versions, self.mc_version.as_str());
            let loader_ok = match &loader {
                Some(n) => any_loader_suits(&v.loaders, n.as_str()),
                None => if is_vanilla {
                    lists_string(&v.loaders, "datapack")
                } else {
                    true
                },
            };
            assert(version_ok && loader_ok <==> pred(lv[i as int]));
            if version_ok && loader_ok {
                let c = v.clone();
                let ghost before = out@;
                out.push(c);
                proof {
                    assert(versions_view(out@) =~= versions_view(before).push(c@));
                }
            }
            i = i + 1;
        }
        assert(lv.take(list.len() as int) =~= lv);
        out
    }

    fn get_loader_name(&self) -> (r: Option<String>)
        ensures
            match r {
                Some(n) => modrinth_name(self.jar@) == Some(n@),
                None => modrinth_name(self.jar@) is None,
            },
    {
        self.jar.get_modrinth_name()
    }

    /// The choices offered when adding a datapack: each world by name (value and label),
    /// then `+` for a new world.
    pub fn world_choices(&self) -> (r: Vec<(String, String)>)
        ensures
            r@.len() == self.worlds@.len() + 1,
            forall|i: int|
                0 <= i < self.worlds@.len() ==> (#[trigger] r@[i]).0@ == self.worlds@[i].0@
                    && r@[i].1@ == self.worlds@[i].0@,
            r@.last().0@ == "+"@,
            r@.last().1@ == "+ New world entry"@,
    {
        let mut out: Vec<(String, String)> = Vec::new();
        let mut i: usize = 0;
        while i < self.worlds.len()
            invariant
                i <= self.worlds@.len(),
                out@.len() == i,
                forall|j: int|
                    0 <= j < i ==> (#[trigger] out@[j]).0@ == self.worlds@[j].0@ && out@[j].1@
                        == self.worlds@[j].0@,
            decreases self.worlds@.len() - i,
        {
            let (k, _) = self.worlds.entry_at(i);
            out.push((k.clone(), k.clone()));
            i = i + 1;
        }
        out.push(("+".to_owned(), "+ New world entry".to_owned()));
        out
    }

    /// Adds datapack `dl` to the world named `world_name`, creating that world if there is
    /// none of that name, and hands back the world's name.
    pub fn add_datapack_to(&mut self, world_name: String, dl: Downloadable) -> (r: String)
        ensures
            r@ == world_name@,
            ({
                let ws = crate::server::worlds_view(old(self).worlds@);
                if exists|i: int| 0 <= i < ws.len() && ws[i].0 == world_name@ {
                    exists|i: int|
                        0 <= i < ws.len() && ws[i].0 == world_name@ && worlds_view(
                            final(self).worlds@,
                        ) == ws.update(
                            i,
                            (
                                world_name@,
                                WorldView {
                                    datapacks: ws[i].1.datapacks.push(dl@),
                                    download: ws[i].1.download,
                                },
                            ),
                        )
                } else {
                    worlds_view(final(self).worlds@) == ws.push(
                        (world_name@, WorldView { datapacks: seq![dl@], download: None }),
                    )
                }
            }),
    {
        let ghost ws = worlds_view(self.worlds@);
        let ghost dv = dl@;
        match self.worlds.index_of(world_name.as_str()) {
            Some(i) => {
                let mut w = self.worlds.swap_value_at(i, World::default());
                let ghost before = w.datapacks@;
                w.datapacks.push(dl);
                assert(sources_view(w.datapacks@) =~= sources_view(before).push(dv));
                self.worlds.swap_value_at(i, w);
                proof {
                    assert(ws[i as int].0 == world_name@);
                    assert(worlds_view(self.worlds@) =~= ws.update(
                        i as int,
                        (
                            world_name@,
                            WorldView {
                                datapacks: ws[i as int].1.datapacks.push(dv),
                                download: ws[i as int].1.download,
                            },
                        ),
                    ));
                }
                world_name
            },
            None => {
                let name = world_name.clone();
                let datapacks = vec![dl];
                assert(sources_view(datapacks@) =~= seq![dv]);
                let ghost old_ws = self.worlds@;
                self.worlds.insert(name, World { datapacks, download: None });
                proof {
                    assert(!exists|j: int| crate::strmap::key_index(old_ws, world_name@, j));
                    assert(worlds_view(self.worlds@) =~= ws.push(
                        (world_name@, WorldView { datapacks: seq![dv], download: None }),
                    ));
                    assert(!exists|j: int| 0 <= j < ws.len() && ws[j].0 == world_name@) by {
                        assert forall|j: int| 0 <= j < ws.len() implies ws[j].0 != world_name@ by {
                            assert(ws[j].0 == old_ws[j].0@);
                        }
                    }
                }
                world_name
            },
        }
    }
}

/// A network of servers behind one proxy.
pub struct Network {
    /// The path of `network.toml`.
    pub path: String,
    pub name: String,
    pub proxy: String,
    pub port: u16,
    pub variables: StrMap<String>,
    pub hooks: StrMap<Hook>,
    pub plugins: Vec<Downloadable>,
    pub mods: Vec<Downloadable>,
    pub clientsidemods: Vec<ClientSideMod>,
}

impl Default for Network {
    fn default() -> (r: Self)
        ensures
            r.path@ == "./network.toml"@,
            r.name@ == Seq::<char>::empty(),
            r.proxy@ == "proxy"@,
            r.port == 25565,
            r.variables@.len() == 0,
            r.hooks@.len() == 0,
            r.plugins@.len() == 0,
            r.mods@.len() == 0,
            r.clientsidemods@.len() == 0,
    {
        Network {
            path: "./network.toml".to_owned(),
            name: String::new(),
            proxy: "proxy".to_owned(),
            port: 25565,
            variables: StrMap::new(),
            hooks: StrMap::new(),
            plugins: Vec::new(),
            mods: Vec::new(),
            clientsidemods: Vec::new(),
        }
    }
}

/// A server's entry in a network.
pub struct ServerEntry {
    pub port: u16,
}

impl Default for ServerEntry {
    fn default() -> (r: Self)
        ensures
            r.port == 0,
    {
        ServerEntry { port: 0 }
    }
}


/// A version made for the server's game version whose loaders include the server's own
/// Modrinth loader name is kept by the filter; so is, on a Quilt server, one made for
/// Fabric, and on any server with a loader name, a datapack.
pub proof fn lemma_own_loader_kept(
    list: Seq<ModrinthVersionView>,
    jar: ServerTypeView,
    mc: Seq<char>,
    i: int,
    n: Seq<char>,
)
    requires
        0 <= i < list.len(),
        modrinth_name(jar) == Some(n),
        list[i].game_versions.contains(mc),
        list[i].loaders.contains(n) || list[i].loaders.contains("datapack"@) || (n == "quilt"@
            && list[i].loaders.contains("fabric"@)),
    ensures
        list.filter(|v: ModrinthVersionView| suits(v, jar, mc)).contains(list[i]),
{
    let ls = list[i].loaders;
    if ls.contains(n) {
        let j = choose|j: int| 0 <= j < ls.len() && ls[j] == n;
        assert(loader_suits(ls[j], n));
    } else if ls.contains("datapack"@) {
        let j = choose|j: int| 0 <= j < ls.len() && ls[j] == "datapack"@;
        assert(loader_suits(ls[j], n));
    } else {
        let j = choose|j: int| 0 <= j < ls.len() && ls[j] == "fabric"@;
        assert(loader_suits(ls[j], n));
    }
    assert(suits(list[i], jar, mc));
    list.lemma_filter_contains(|v: ModrinthVersionView| suits(v, jar, mc), i);
}

/// On a Fabric server, a version made for its game version and for Fabric is kept.
pub proof fn lemma_fabric_version_kept(
    list: Seq<ModrinthVersionView>,
    loader: Seq<char>,
    installer: Seq<char>,
    mc: Seq<char>,
    i: int,
)
    requires
        0 <= i < list.len(),
        list[i].game_versions.contains(mc),
        list[i].loaders.contains("fabric"@),
    ensures
        list.filter(
            |v: ModrinthVersionView|
                suits(v, ServerTypeView::Fabric { loader, installer }, mc),
        ).contains(list[i]),
{
    lemma_own_loader_kept(list, ServerTypeView::Fabric { loader, installer }, mc, i, "fabric"@);
}

/// The versions kept for a server all suit it and all come from the list, and every version
/// of the list that suits the server is kept.
pub proof fn lemma_filtered_versions_suit(list: Seq<ModrinthVersionView>, jar: ServerTypeView, mc: Seq<char>)
    ensures
        ({
            let kept = list.filter(|v: ModrinthVersionView| suits(v, jar, mc));
            &&& forall|i: int| 0 <= i < kept.len() ==> suits(#[trigger] kept[i], jar, mc)
            &&& forall|i: int| 0 <= i < kept.len() ==> list.contains(#[trigger] kept[i])
            &&& forall|i: int| 0 <= i < list.len() && suits(list[i], jar, mc) ==> kept.contains(
                #[trigger] list[i],
            )
            &&& kept.len() <= list.len()
        }),
{
    let pred = |v: ModrinthVersionView| suits(v, jar, mc);
    let kept = list.filter(pred);
    assert forall|i: int| 0 <= i < kept.len() implies suits(#[trigger] kept[i], jar, mc) by {
        list.lemma_filter_pred(pred, i);
    }
    assert forall|i: int| 0 <= i < kept.len() implies list.contains(#[trigger] kept[i]) by {
        assert(kept.contains(kept[i]));
        list.lemma_filter_contains_rev(pred, kept[i]);
    }
    assert forall|i: int| 0 <= i < list.len() && suits(list[i], jar, mc) implies kept.contains(
        #[trigger] list[i],
    ) by {
        list.lemma_filter_contains(pred, i);
    }
    list.lemma_filter_len(pred);
}

} // verus!
