//! The markdown that describes a server: its tables' rows, its README text, and the marked
//! blocks of a markdown file that the tables are written into.
use indexmap::IndexMap;
use vstd::prelude::*;
use vstd::string::*;
use crate::downloadable::{md_link, Downloadable, DownloadableView};
use crate::ordered::{
    keys_distinct, lemma_insert_all_distinct, table_entries, table_extend, table_insert_all,
    table_new,
};
use crate::server::{sources_view, Server};
use crate::servertype::{lemma_metadata_keys, metadata_rows, server_md_link};
use crate::strmap::StrMap;
use crate::strs::{cat2, cat3, replace, replaced};

verus! {

/// The rows of the server table: the game version, the software, then its metadata.
pub open spec fn server_rows(s: Server) -> Seq<(Seq<char>, Seq<char>)> {
    seq![("Version"@, s.mc_version@), ("Type"@, server_md_link(s.jar@))] + metadata_rows(s.jar@)
}

/// The rows of the server table.
pub fn table_server(server: &Server) -> (r: IndexMap<String, String>)
    ensures
        table_entries(r) == server_rows(*server),
{
    proof {
        reveal_strlit("Version");
        reveal_strlit("Type");
        reveal_strlit("Loader");
        reveal_strlit("Installer");
        reveal_strlit("Build");
        reveal_strlit("Artifact");
        reveal_strlit("Release");
        reveal_strlit("Asset");
    }
    let mut pairs: Vec<(String, String)> = vec![
        ("Version".to_owned(), server.mc_version.clone()),
        ("Type".to_owned(), server.jar.get_md_link()),
    ];
    let mut meta = server.jar.metadata_pairs();
    let ghost head = pairs@;
    pairs.append(&mut meta);
    let ghost rows = server_rows(*server);
    proof {
        assert(pairs@.map_values(|p: (String, String)| (p.0@, p.1@)) =~= rows);
        lemma_metadata_keys(server.jar@);
        let m = metadata_rows(server.jar@);
        assert(keys_distinct(rows)) by {
            assert forall|i: int, j: int| 0 <= i < j < rows.len() implies #[trigger] rows[i].0
                != #[trigger] rows[j].0 by {
                assert(rows[0].0 == "Version"@);
                assert(rows[1].0 == "Type"@);
                assert("Version"@.len() == 7 && "Type"@.len() == 4);
                if i >= 2 {
                    assert(rows[i] == m[i - 2]);
                    assert(rows[j] == m[j - 2]);
                } else if j >= 2 {
                    assert(rows[j] == m[j - 2]);
                    assert(m[j - 2].0 != "Version"@ && m[j - 2].0 != "Type"@);
                }
            }
        }
        assert(Seq::<(Seq<char>, Seq<char>)>::empty() + rows =~= rows);
        lemma_insert_all_distinct(Seq::<(Seq<char>, Seq<char>)>::empty(), rows);
    }
    let mut map = table_new();
    table_extend(&mut map, &pairs);
    map
}

/// What a site reports about a project, as an addon table needs it.
pub struct ProjectInfo {
    /// The project's title (its name on Spigot and Hangar).
    pub title: String,
    /// The project's slug (its namespace on Hangar).
    pub slug: String,
    /// The project's description, as it goes into the table cell (see `describe_addon`,
    /// which makes a reported description safe first).
    pub description: String,
}

/// The rows that describe an addon, from what its site reports.
pub open spec fn info_rows(d: DownloadableView, title: Seq<char>, slug: Seq<char>, desc: Seq<char>) -> Seq<
    (Seq<char>, Seq<char>),
> {
    match d {
        DownloadableView::Modrinth { version, .. } => seq![
            ("Name"@, "["@ + title + "](https://modrinth.com/mod/"@ + slug + ")"@),
            ("Description"@, desc),
            ("Version"@, version),
        ],
        DownloadableView::CurseRinth { version, .. } => seq![
            (
                "Name"@,
                title + " <sup>[CF](https://www.curseforge.com/minecraft/mc-mods/"@ + slug
                    + ") [CR](https://curserinth.kuylar.dev/mod/"@ + slug + ")</sup>"@,
            ),
            ("Description"@, desc),
            ("Version"@, version),
        ],
        DownloadableView::Spigot { id, version } => seq![
            ("Name"@, "["@ + title + "](https://www.spigotmc.org/resources/"@ + id + ")"@),
            ("Description"@, desc),
            ("Version"@, version),
        ],
        DownloadableView::Hangar { version, .. } => seq![
            ("Name"@, "["@ + title + "](https://hangar.papermc.io/"@ + slug + ")"@),
            ("Description"@, desc),
            ("Version"@, version),
        ],
        DownloadableView::GithubRelease { tag, asset, .. } => seq![
            ("Name"@, md_link(d)),
            ("Description"@, desc),
            ("Version"@, tag + " / `"@ + asset + "`"@),
        ],
        DownloadableView::Jenkins { build, artifact, .. } => seq![
            ("Name"@, md_link(d)),
            ("Description"@, desc),
            ("Version"@, build + " / `"@ + artifact + "`"@),
        ],
        DownloadableView::Maven { version, .. } => seq![
            ("Name"@, md_link(d)),
            ("Version"@, version),
        ],
        DownloadableView::Url { url, filename, desc: own } => seq![
            (
                "Name"@,
                "`"@ + match filename {
                    Some(f) => f,
                    None => "Custom URL"@,
                } + "`"@,
            ),
            (
                "Description"@,
                match own {
                    Some(o) => o,
                    None => "*No description provided*"@,
                },
            ),
            ("Version"@, "[URL]("@ + url + ")"@),
        ],
    }
}

fn info_pairs(dl: &Downloadable, info: &ProjectInfo) -> (r: Vec<(String, String)>)
    ensures
        r@.map_values(|p: (String, String)| (p.0@, p.1@)) == info_rows(
            dl@,
            info.title@,
            info.slug@,
            info.description@,
        ),
{
    let r: Vec<(String, String)> = match dl {
        Downloadable::Modrinth { version, .. } => {
            let mut name = cat3("[", info.title.as_str(), "](https://modrinth.com/mod/");
            name.append(info.slug.as_str());
            name.append(")");
            vec![
                ("Name".to_owned(), name),
                ("Description".to_owned(), info.description.clone()),
                ("Version".to_owned(), version.clone()),
            ]
        },
        Downloadable::CurseRinth { version, .. } => {
            let mut name = cat3(
                info.title.as_str(),
                " <sup>[CF](https://www.curseforge.com/minecraft/mc-mods/",
                info.slug.as_str(),
            );
            name.append(") [CR](https://curserinth.kuylar.dev/mod/");
            name.append(info.slug.as_str());
            name.append(")</sup>");
            vec![
                ("Name".to_owned(), name),
                ("Description".to_owned(), info.description.clone()),
                ("Version".to_owned(), version.clone()),
            ]
        },
        Downloadable::Spigot { id, version } => {
            let mut name = cat3("[", info.title.as_str(), "](https://www.spigotmc.org/resources/");
            name.append(id.as_str());
            name.append(")");
            vec![
                ("Name".to_owned(), name),
                ("Description".to_owned(), info.description.clone()),
                ("Version".to_owned(), version.clone()),
            ]
        },
        Downloadable::Hangar { version, .. } => {
            let mut name = cat3("[", info.title.as_str(), "](https://hangar.papermc.io/");
            name.append(info.slug.as_str());
            name.append(")");
            vec![
                ("Name".to_owned(), name),
                ("Description".to_owned(), info.description.clone()),
                ("Version".to_owned(), version.clone()),
            ]
        },
        Downloadable::GithubRelease { tag, asset, .. } => {
            let mut v = cat3(tag.as_str(), " / `", asset.as_str());
            v.append("`");
            vec![
                ("Name".to_owned(), dl.get_md_link()),
                ("Description".to_owned(), info.description.clone()),
                ("Version".to_owned(), v),
            ]
        },
        Downloadable::Jenkins { build, artifact, .. } => {
            let mut v = cat3(build.as_str(), " / `", artifact.as_str());
            v.append("`");
            vec![
                ("Name".to_owned(), dl.get_md_link()),
                ("Description".to_owned(), info.description.clone()),
                ("Version".to_owned(), v),
            ]
        },
        Downloadable::Maven { version, .. } => vec![
            ("Name".to_owned(), dl.get_md_link()),
            ("Version".to_owned(), version.clone()),
        ],
        Downloadable::Url { url, filename, desc } => {
            let shown = match filename {
                Some(f) => f.as_str(),
                None => "Custom URL",
            };
            let d = match desc {
                Some(x) => x.clone(),
                None => "*No description provided*".to_owned(),
            };
            vec![
                ("Name".to_owned(), cat3("`", shown, "`")),
                ("Description".to_owned(), d),
                ("Version".to_owned(), cat3("[URL](", url.as_str(), ")")),
            ]
        },
    };
    assert(r@.map_values(|p: (String, String)| (p.0@, p.1@)) =~= info_rows(
        dl@,
        info.title@,
        info.slug@,
        info.description@,
    ));
    r
}

/// The rows that describe an addon have distinct keys, the first being `Name`.
pub proof fn lemma_info_keys(d: DownloadableView, title: Seq<char>, slug: Seq<char>, desc: Seq<char>)
    ensures
        keys_distinct(info_rows(d, title, slug, desc)),
        info_rows(d, title, slug, desc).len() >= 2,
        info_rows(d, title, slug, desc)[0].0 == "Name"@,
{
    reveal_strlit("Name");
    reveal_strlit("Description");
    reveal_strlit("Version");
    let rows = info_rows(d, title, slug, desc);
    assert(forall|i: int, j: int| 0 <= i < j < rows.len() ==> rows[i].0.len() != rows[j].0.len());
}

/// The rows that describe an addon, from what its site reports about it.
pub fn fetch_downloadable_info(dl: &Downloadable, info: &ProjectInfo) -> (r: IndexMap<
    String,
    String,
>)
    ensures
        table_entries(r) == info_rows(dl@, info.title@, info.slug@, info.description@),
{
    let pairs = info_pairs(dl, info);
    let mut map = table_new();
    proof {
        let rows = info_rows(dl@, info.title@, info.slug@, info.description@);
        lemma_info_keys(dl@, info.title@, info.slug@, info.description@);
        assert(Seq::<(Seq<char>, Seq<char>)>::empty() + rows =~= rows);
        lemma_insert_all_distinct(Seq::<(Seq<char>, Seq<char>)>::empty(), rows);
    }
    table_extend(&mut map, &pairs);
    map
}

/// The rows that describe a world's download: its addon rows, with the name marked.
pub open spec fn world_download_rows(rows: Seq<(Seq<char>, Seq<char>)>) -> Seq<(Seq<char>, Seq<char>)> {
    rows.update(0, ("Name"@, "**(World Download)** "@ + rows[0].1))
}

/// The rows that describe the download of a world.
pub fn world_download_info(dl: &Downloadable, info: &ProjectInfo) -> (r: IndexMap<String, String>)
    ensures
        table_entries(r) == world_download_rows(
            info_rows(dl@, info.title@, info.slug@, info.description@),
        ),
{
    let mut pairs = info_pairs(dl, info);
    let ghost rows = info_rows(dl@, info.title@, info.slug@, info.description@);
    proof {
        lemma_info_keys(dl@, info.title@, info.slug@, info.description@);
        assert(pairs@.len() == rows.len());
        assert(rows[0] == (pairs@[0].0@, pairs@[0].1@));
    }
    let name = cat2("**(World Download)** ", pairs[0].1.as_str());
    let key = pairs[0].0.clone();
    pairs.set(0, (key, name));
    let ghost updated = world_download_rows(rows);
    proof {
        assert(pairs@.map_values(|p: (String, String)| (p.0@, p.1@)) =~= updated);
        assert(keys_distinct(updated)) by {
            assert forall|i: int, j: int| 0 <= i < j < updated.len() implies #[trigger] updated[i].0
                != #[trigger] updated[j].0 by {
                assert(updated[i].0 == rows[i].0);
                assert(updated[j].0 == rows[j].0);
            }
        }
        assert(Seq::<(Seq<char>, Seq<char>)>::empty() + updated =~= updated);
        lemma_insert_all_distinct(Seq::<(Seq<char>, Seq<char>)>::empty(), updated);
    }
    let mut map = table_new();
    table_extend(&mut map, &pairs);
    map
}

/// The description cell of an addon, from the description its site reports: made safe by
/// `sanitize` for the sources whose site reports one; Maven and plain URL sources do not
/// use it. `None` where the sanitizing pattern fails to compile.
pub open spec fn described_cell(d: DownloadableView, raw: Seq<char>) -> Option<Seq<char>> {
    match d {
        DownloadableView::Maven { .. } => Some(raw),
        DownloadableView::Url { .. } => Some(raw),
        _ => regex_replaced(tag_pattern(), one_line(raw), ""@),
    }
}

fn described_text(dl: &Downloadable, raw: &str) -> (r: Option<String>)
    ensures
        match described_cell(dl@, raw@) {
            Some(d) => r matches Some(t) && t@ == d,
            None => r is None,
        },
{
    match dl {
        Downloadable::Maven { .. } => Some(raw.to_owned()),
        Downloadable::Url { .. } => Some(raw.to_owned()),
        _ => sanitize(raw),
    }
}

/// The rows that describe an addon, from the title, slug and raw description that its site
/// reports: the description is made safe by `sanitize` first. `None` where that fails.
pub fn describe_addon(dl: &Downloadable, title: &str, slug: &str, description: &str) -> (r: Option<
    IndexMap<String, String>,
>)
    ensures
        match described_cell(dl@, description@) {
            Some(d) => r matches Some(m) && table_entries(m) == info_rows(dl@, title@, slug@, d),
            None => r is None,
        },
{
    match described_text(dl, description) {
        Some(d) => {
            let info = ProjectInfo { title: title.to_owned(), slug: slug.to_owned(), description: d };
            Some(fetch_downloadable_info(dl, &info))
        },
        None => None,
    }
}

/// The rows that describe the download of a world, from the title, slug and raw
/// description that its site reports: the description is made safe by `sanitize` first.
/// `None` where that fails.
pub fn describe_world_download(dl: &Downloadable, title: &str, slug: &str, description: &str) -> (r:
    Option<IndexMap<String, String>>)
    ensures
        match described_cell(dl@, description@) {
            Some(d) => r matches Some(m) && table_entries(m) == world_download_rows(
                info_rows(dl@, title@, slug@, d),
            ),
            None => r is None,
        },
{
    match described_text(dl, description) {
        Some(d) => {
            let info = ProjectInfo { title: title.to_owned(), slug: slug.to_owned(), description: d };
            Some(world_download_info(dl, &info))
        },
        None => None,
    }
}

/// The README of a new server, from its template: the server's name and the heading of its
/// addon list filled in.
pub open spec fn readme_text(template: Seq<char>, name: Seq<char>, modded: bool) -> Seq<char> {
    replaced(
        replaced(template, "{SERVER_NAME}"@, name),
        "{ADDON_HEADER}"@,
        if modded {
            "Mods"@
        } else {
            "Plugins"@
        },
    )
}

/// The README of a new server, from its template.
pub fn init_server_readme(template: &str, server: &Server) -> (r: String)
    ensures
        r@ == readme_text(
            template@,
            server.name@,
            crate::servertype::software_type(server.jar@) == crate::servertype::SoftwareType::Modded,
        ),
{
    let named = replace(template, "{SERVER_NAME}", server.name.as_str());
    let header = if server.jar.is_modded() {
        "Mods"
    } else {
        "Plugins"
    };
    replace(named.as_str(), "{ADDON_HEADER}", header)
}

/// The README of a new network, from its template: the network's name filled in.
pub fn init_network_readme(template: &str, name: &str) -> (r: String)
    ensures
        r@ == replaced(template@, "{NETWORK_NAME}"@, name@),
{
    replace(template, "{NETWORK_NAME}", name)
}

/// The ids of the tables written into a server's markdown files: the server's, the
/// addons' where it has any, then one per world.
pub open spec fn template_ids(s: Server) -> Seq<Seq<char>> {
    let head = if s.mods@.len() > 0 || s.plugins@.len() > 0 {
        seq!["server"@, "addons"@]
    } else {
        seq!["server"@]
    };
    head + s.worlds@.map_values(|e: (String, crate::server::World)| "world-"@ + e.0@)
}

/// The ids of the tables written into a server's markdown files.
pub fn get_template_ids(server: &Server) -> (r: Vec<String>)
    ensures
        r.deep_view() == template_ids(*server),
{
    let mut out: Vec<String> = vec!["server".to_owned()];
    if server.mods.len() > 0 || server.plugins.len() > 0 {
        out.push("addons".to_owned());
    }
    let ghost head = out.deep_view();
    assert(head =~= if server.mods@.len() > 0 || server.plugins@.len() > 0 {
        seq!["server"@, "addons"@]
    } else {
        seq!["server"@]
    });
    let ghost ws = server.worlds@.map_values(|e: (String, crate::server::World)| "world-"@ + e.0@);
    let mut i: usize = 0;
    while i < server.worlds.len()
        invariant
            i <= server.worlds@.len(),
            ws == server.worlds@.map_values(|e: (String, crate::server::World)| "world-"@ + e.0@),
            out.deep_view() =~= head + ws.take(i as int),
        decreases server.worlds@.len() - i,
    {
        let (name, _) = server.worlds.entry_at(i);
        let id = cat2("world-", name.as_str());
        let ghost before = out.deep_view();
        out.push(id);
        proof {
            assert(out.deep_view() =~= before.push(id@));
            assert(ws.take(i + 1) =~= ws.take(i as int).push(ws[i as int]));
        }
        i = i + 1;
    }
    assert(ws.take(server.worlds@.len() as int) =~= ws);
    out
}

/// The pattern of the marked block of table `id` in a markdown file: from its start marker
/// to its end marker.
pub open spec fn block_pattern(id: Seq<char>) -> Seq<char> {
    "(<!--start:mcman-"@ + id + "-->)([\\w\\W]*)(<!--end:mcman-"@ + id + "-->)"@
}

/// The marked block of table `id` holding the rendered table `table`.
pub open spec fn block_text(id: Seq<char>, table: Seq<char>) -> Seq<char> {
    "<!--start:mcman-"@ + id + "-->\n"@ + table + "\n<!--end:mcman-"@ + id + "-->"@
}

/// What `regex::Regex::replace_all` gives for `pattern`, `text` and a literal replacement,
/// or `None` where the pattern is no valid regex.
pub uninterp spec fn regex_replaced(pattern: Seq<char>, text: Seq<char>, replacement: Seq<char>) -> Option<
    Seq<char>,
>;

/// `regex::Regex::new`, then `Regex::replace_all` with the replacement taken literally
/// (`regex::NoExpand`). The result depends on the three strings alone and is named
/// `regex_replaced`, with nothing said of what it is.
#[verifier::external_body]
fn regex_replace_all(pattern: &str, text: &str, replacement: &str) -> (r: Option<String>)
    ensures
        match r {
            Some(s) => regex_replaced(pattern@, text@, replacement@) == Some(s@),
            None => regex_replaced(pattern@, text@, replacement@) is None,
        },
{
    match regex::Regex::new(pattern) {
        Ok(re) => Some(re.replace_all(text, regex::NoExpand(replacement)).into_owned()),
        Err(_) => None,
    }
}

/// The markdown `content` with the marked block of table `id` holding `table`; `None` where
/// the id makes the block's pattern no valid regex.
pub fn replace_block(content: &str, id: &str, table: &str) -> (r: Option<String>)
    ensures
        match r {
            Some(s) => regex_replaced(block_pattern(id@), content@, block_text(id@, table@)) == Some(
                s@,
            ),
            None => regex_replaced(block_pattern(id@), content@, block_text(id@, table@)) is None,
        },
{
    let mut pattern = cat3("(<!--start:mcman-", id, "-->)([\\w\\W]*)(<!--end:mcman-");
    pattern.append(id);
    pattern.append("-->)");
    let mut text = cat3("<!--start:mcman-", id, "-->\n");
    text.append(table);
    text.append("\n<!--end:mcman-");
    text.append(id);
    text.append("-->");
    regex_replace_all(pattern.as_str(), content, text.as_str())
}


/// The markdown of a server.
pub struct MarkdownAPI<'a>(pub &'a Server);

impl<'a> MarkdownAPI<'a> {
    /// The rows of the server table.
    pub fn table_server(&self) -> (r: IndexMap<String, String>)
        ensures
            table_entries(r) == server_rows(*self.0),
    {
        table_server(self.0)
    }

    /// The README of the server, from its template.
    pub fn init_server(&self, template: &str) -> (r: String)
        ensures
            r@ == readme_text(
                template@,
                self.0.name@,
                crate::servertype::software_type(self.0.jar@)
                    == crate::servertype::SoftwareType::Modded,
            ),
    {
        init_server_readme(template, self.0)
    }

    /// The ids of the tables written into the server's markdown files.
    pub fn get_templates(&self) -> (r: Vec<String>)
        ensures
            r.deep_view() == template_ids(*self.0),
    {
        get_template_ids(self.0)
    }
}

/// A table to write into markdown files, by the id of its marked block, with its rows.
pub struct MarkdownTemplate {
    pub id: String,
    pub rows: Vec<IndexMap<String, String>>,
}


/// The pattern of an HTML tag, quoted attribute values included.
pub open spec fn tag_pattern() -> Seq<char> {
    "<(?:\"[^\"]*\"['\"]*|'[^']*'['\"]*|[^'\">])+>"@
}

/// A description put on one line: line feeds become spaces, carriage returns go, `<br>`
/// becomes a space.
pub open spec fn one_line(s: Seq<char>) -> Seq<char> {
    replaced(replaced(replaced(s, "\n"@, " "@), "\r"@, ""@), "<br>"@, " "@)
}

/// A description made safe for a table cell: put on one line, with its HTML tags removed;
/// `None` only where the tag pattern fails to compile.
pub fn sanitize(s: &str) -> (r: Option<String>)
    ensures
        match r {
            Some(t) => regex_replaced(tag_pattern(), one_line(s@), ""@) == Some(t@),
            None => regex_replaced(tag_pattern(), one_line(s@), ""@) is None,
        },
{
    let a = replace(s, "\n", " ");
    let b = replace(a.as_str(), "\r", "");
    let c = replace(b.as_str(), "<br>", " ");
    regex_replace_all("<(?:\"[^\"]*\"['\"]*|'[^']*'['\"]*|[^'\">])+>", c.as_str(), "")
}

} // verus!
