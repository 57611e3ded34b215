//! Addons and other files that a server pulls from somewhere: how they are named, linked
//! and tabulated.
use indexmap::IndexMap;
use vstd::prelude::*;
use vstd::string::*;
use crate::ordered::{lemma_insert_fresh, table_entries, table_insert_pair, table_new};
use crate::sources::jenkins::{job_path, str_process_job};
use crate::strs::{
    after_last, before_first, cat2, cat3, cat5, prefix_before, replace, replaced, str_eq, suffix_after,
};

verus! {

/// Where a file comes from.
pub enum Downloadable {
    Url { url: String, filename: Option<String>, desc: Option<String> },
    Modrinth { id: String, version: String },
    CurseRinth { id: String, version: String },
    Spigot { id: String, version: String },
    Hangar { id: String, version: String },
    GithubRelease { repo: String, tag: String, asset: String },
    Jenkins { url: String, job: String, build: String, artifact: String },
    Maven { url: String, group: String, artifact: String, version: String, filename: String },
}

/// A `Downloadable` with its strings seen as character sequences.
pub enum DownloadableView {
    Url { url: Seq<char>, filename: Option<Seq<char>>, desc: Option<Seq<char>> },
    Modrinth { id: Seq<char>, version: Seq<char> },
    CurseRinth { id: Seq<char>, version: Seq<char> },
    Spigot { id: Seq<char>, version: Seq<char> },
    Hangar { id: Seq<char>, version: Seq<char> },
    GithubRelease { repo: Seq<char>, tag: Seq<char>, asset: Seq<char> },
    Jenkins { url: Seq<char>, job: Seq<char>, build: Seq<char>, artifact: Seq<char> },
    Maven {
        url: Seq<char>,
        group: Seq<char>,
        artifact: Seq<char>,
        version: Seq<char>,
        filename: Seq<char>,
    },
}

pub open spec fn opt_view(o: Option<String>) -> Option<Seq<char>> {
    match o {
        Some(s) => Some(s@),
        None => None,
    }
}

impl View for Downloadable {
    type V = DownloadableView;

    open spec fn view(&self) -> DownloadableView {
        match self {
            Downloadable::Url { url, filename, desc } => DownloadableView::Url {
                url: url@,
                filename: opt_view(*filename),
                desc: opt_view(*desc),
            },
            Downloadable::Modrinth { id, version } => DownloadableView::Modrinth {
                id: id@,
                version: version@,
            },
            Downloadable::CurseRinth { id, version } => DownloadableView::CurseRinth {
                id: id@,
                version: version@,
            },
            Downloadable::Spigot { id, version } => DownloadableView::Spigot {
                id: id@,
                version: version@,
            },
            Downloadable::Hangar { id, version } => DownloadableView::Hangar {
                id: id@,
                version: version@,
            },
            Downloadable::GithubRelease { repo, tag, asset } => DownloadableView::GithubRelease {
                repo: repo@,
                tag: tag@,
                asset: asset@,
            },
            Downloadable::Jenkins { url, job, build, artifact } => DownloadableView::Jenkins {
                url: url@,
                job: job@,
                build: build@,
                artifact: artifact@,
            },
            Downloadable::Maven { url, group, artifact, version, filename } =>
                DownloadableView::Maven {
                url: url@,
                group: group@,
                artifact: artifact@,
                version: version@,
                filename: filename@,
            },
        }
    }
}

/// A copy of an optional string.
pub fn clone_opt(o: &Option<String>) -> (r: Option<String>)
    ensures
        opt_view(r) == opt_view(*o),
{
    match o {
        Some(s) => Some(s.clone()),
        None => None,
    }
}

/// Whether two optional strings hold the same characters.
pub fn opt_eq(a: &Option<String>, b: &Option<String>) -> (r: bool)
    ensures
        r == (opt_view(*a) == opt_view(*b)),
{
    match (a, b) {
        (Some(x), Some(y)) => str_eq(x.as_str(), y.as_str()),
        (None, None) => true,
        _ => false,
    }
}

impl Clone for Downloadable {
    fn clone(&self) -> (r: Self)
        ensures
            r@ == self@,
    {
        match self {
            Downloadable::Url { url, filename, desc } => Downloadable::Url {
                url: url.clone(),
                filename: clone_opt(filename),
                desc: clone_opt(desc),
            },
            Downloadable::Modrinth { id, version } => Downloadable::Modrinth {
                id: id.clone(),
                version: version.clone(),
            },
            Downloadable::CurseRinth { id, version } => Downloadable::CurseRinth {
                id: id.clone(),
                version: version.clone(),
            },
            Downloadable::Spigot { id, version } => Downloadable::Spigot {
                id: id.clone(),
                version: version.clone(),
            },
            Downloadable::Hangar { id, version } => Downloadable::Hangar {
                id: id.clone(),
                version: version.clone(),
            },
            Downloadable::GithubRelease { repo, tag, asset } => Downloadable::GithubRelease {
                repo: repo.clone(),
                tag: tag.clone(),
                asset: asset.clone(),
            },
            Downloadable::Jenkins { url, job, build, artifact } => Downloadable::Jenkins {
                url: url.clone(),
                job: job.clone(),
                build: build.clone(),
                artifact: artifact.clone(),
            },
            Downloadable::Maven { url, group, artifact, version, filename } => Downloadable::Maven {
                url: url.clone(),
                group: group.clone(),
                artifact: artifact.clone(),
                version: version.clone(),
                filename: filename.clone(),
            },
        }
    }
}

impl PartialEq for Downloadable {
    fn eq(&self, other: &Self) -> (r: bool) {
        match (self, other) {
            (
                Downloadable::Url { url: a1, filename: a2, desc: a3 },
                Downloadable::Url { url: b1, filename: b2, desc: b3 },
            ) => *a1 == *b1 && opt_eq(a2, b2) && opt_eq(a3, b3),
            (
                Downloadable::Modrinth { id: a1, version: a2 },
                Downloadable::Modrinth { id: b1, version: b2 },
            ) => *a1 == *b1 && *a2 == *b2,
            (
                Downloadable::CurseRinth { id: a1, version: a2 },
                Downloadable::CurseRinth { id: b1, version: b2 },
            ) => *a1 == *b1 && *a2 == *b2,
            (
                Downloadable::Spigot { id: a1, version: a2 },
                Downloadable::Spigot { id: b1, version: b2 },
            ) => *a1 == *b1 && *a2 == *b2,
            (
                Downloadable::Hangar { id: a1, version: a2 },
                Downloadable::Hangar { id: b1, version: b2 },
            ) => *a1 == *b1 && *a2 == *b2,
            (
                Downloadable::GithubRelease { repo: a1, tag: a2, asset: a3 },
                Downloadable::GithubRelease { repo: b1, tag: b2, asset: b3 },
            ) => *a1 == *b1 && *a2 == *b2 && *a3 == *b3,
            (
                Downloadable::Jenkins { url: a1, job: a2, build: a3, artifact: a4 },
                Downloadable::Jenkins { url: b1, job: b2, build: b3, artifact: b4 },
            ) => *a1 == *b1 && *a2 == *b2 && *a3 == *b3 && *a4 == *b4,
            (
                Downloadable::Maven { url: a1, group: a2, artifact: a3, version: a4, filename: a5 },
                Downloadable::Maven { url: b1, group: b2, artifact: b3, version: b4, filename: b5 },
            ) => *a1 == *b1 && *a2 == *b2 && *a3 == *b3 && *a4 == *b4 && *a5 == *b5,
            _ => false,
        }
    }
}

impl vstd::std_specs::cmp::PartialEqSpecImpl for Downloadable {
    open spec fn obeys_eq_spec() -> bool {
        true
    }

    open spec fn eq_spec(&self, other: &Self) -> bool {
        self@ == other@
    }
}

/// The default version of a source: `latest`.
pub fn latest() -> (r: String)
    ensures
        r@ == "latest"@,
{
    "latest".to_owned()
}

/// The default artifact or asset of a source: `first`.
pub fn first() -> (r: String)
    ensures
        r@ == "first"@,
{
    "first".to_owned()
}

/// The default file name of a Maven artifact: `artifact`.
pub fn artifact() -> (r: String)
    ensures
        r@ == "artifact"@,
{
    "artifact".to_owned()
}

/// The markdown link that names a source in rendered tables.
pub open spec fn md_link(d: DownloadableView) -> Seq<char> {
    match d {
        DownloadableView::Url { url, filename, .. } => match filename {
            Some(f) => "`"@ + f + "` (Custom [URL]("@ + url + "))"@,
            None => "Custom [URL]("@ + url + ")"@,
        },
        DownloadableView::GithubRelease { repo, .. } => "["@ + repo + "](https://github.com/"@
            + repo + ")"@,
        DownloadableView::Hangar { id, .. } => "["@ + id + "](https://hangar.papermc.io/"@ + id
            + ")"@,
        DownloadableView::Jenkins { url, job, .. } => "["@ + job + "]("@ + url + job_path(job)
            + ")"@,
        DownloadableView::Maven { url, group, .. } => "["@ + replaced(group, "."@, "/"@) + "]("@
            + url + "/"@ + replaced(group, "."@, "/"@) + ")"@,
        DownloadableView::Spigot { id, .. } => "["@ + id + "](https://www.spigotmc.org/resources/"@
            + id + ")"@,
        DownloadableView::Modrinth { id, .. } => "["@ + id + "](https://modrinth.com/mod/"@ + id
            + ")"@,
        DownloadableView::CurseRinth { id, .. } => "`"@ + id
            + "`<sup>[CF](https://www.curseforge.com/minecraft/mc-mods/"@ + id
            + ") [CR](https://curserinth.kuylar.dev/mod/"@ + id + ")</sup>"@,
    }
}

/// The short type label of a source.
pub open spec fn kind_label(d: DownloadableView) -> Seq<char> {
    match d {
        DownloadableView::Url { .. } => "URL"@,
        DownloadableView::GithubRelease { .. } => "GithubRel"@,
        DownloadableView::Jenkins { .. } => "Jenkins"@,
        DownloadableView::Hangar { .. } => "Hangar"@,
        DownloadableView::Modrinth { .. } => "Modrinth"@,
        DownloadableView::CurseRinth { .. } => "CurseRinth"@,
        DownloadableView::Spigot { .. } => "Spigot"@,
        DownloadableView::Maven { .. } => "Maven"@,
    }
}

/// The one-line description of a source, `Type:identity`.
pub open spec fn short_string(d: DownloadableView) -> Seq<char> {
    match d {
        DownloadableView::Modrinth { id, .. } => "Modrinth:"@ + id,
        DownloadableView::Hangar { id, .. } => "Hangar:"@ + id,
        DownloadableView::CurseRinth { id, .. } => "CurseRinth:"@ + id,
        DownloadableView::Spigot { id, .. } => "Spigot:"@ + id,
        DownloadableView::GithubRelease { repo, .. } => "Github:"@ + repo,
        DownloadableView::Jenkins { job, .. } => "Jenkins:"@ + job,
        DownloadableView::Url { filename, .. } => match filename {
            Some(f) => "URL:"@ + f,
            None => "URL"@,
        },
        DownloadableView::Maven { group, artifact, .. } => "Maven:"@ + group + "."@ + artifact,
    }
}

/// Two sources differ at most in their version: same project on the same site, or the same
/// URL, or equal in every field.
pub open spec fn same_source(a: DownloadableView, b: DownloadableView) -> bool {
    match (a, b) {
        (DownloadableView::Hangar { id: x, .. }, DownloadableView::Hangar { id: y, .. }) => x == y,
        (
            DownloadableView::CurseRinth { id: x, .. },
            DownloadableView::CurseRinth { id: y, .. },
        ) => x == y,
        (DownloadableView::Modrinth { id: x, .. }, DownloadableView::Modrinth { id: y, .. }) => x
            == y,
        (DownloadableView::Spigot { id: x, .. }, DownloadableView::Spigot { id: y, .. }) => x == y,
        (DownloadableView::Url { url: x, .. }, DownloadableView::Url { url: y, .. }) => x == y,
        (
            DownloadableView::GithubRelease { repo: r1, asset: a1, .. },
            DownloadableView::GithubRelease { repo: r2, asset: a2, .. },
        ) => r1 == r2 && a1 == a2,
        (
            DownloadableView::Jenkins { url: u1, job: j1, artifact: a1, .. },
            DownloadableView::Jenkins { url: u2, job: j2, artifact: a2, .. },
        ) => u1 == u2 && j1 == j2 && a1 == a2,
        (
            DownloadableView::Maven { url: u1, group: g1, artifact: a1, filename: f1, .. },
            DownloadableView::Maven { url: u2, group: g2, artifact: a2, filename: f2, .. },
        ) => u1 == u2 && g1 == g2 && a1 == a2 && f1 == f2,
        _ => a == b,
    }
}

/// The "Project/URL" cell of a source's table row.
pub open spec fn project_cell(d: DownloadableView) -> Seq<char> {
    match d {
        DownloadableView::Url { url, .. } => url,
        DownloadableView::GithubRelease { repo, .. } => repo,
        DownloadableView::Modrinth { id, .. } => id,
        DownloadableView::CurseRinth { id, .. } => id,
        DownloadableView::Hangar { id, .. } => id,
        DownloadableView::Spigot { id, .. } => id,
        DownloadableView::Jenkins { url, job, .. } => job + " - ("@ + url + ")"@,
        DownloadableView::Maven { url, group, artifact, .. } => group + "."@ + artifact + " - ("@
            + url + ")"@,
    }
}

/// The "Asset/File" cell of a source's table row, where it has one.
pub open spec fn asset_cell(d: DownloadableView) -> Option<Seq<char>> {
    match d {
        DownloadableView::Url { filename, .. } => match filename {
            Some(f) => Some(f),
            None => Some(Seq::<char>::empty()),
        },
        DownloadableView::GithubRelease { asset, .. } => Some(asset),
        DownloadableView::Jenkins { artifact, .. } => Some(artifact),
        DownloadableView::Maven { filename, .. } => Some(filename),
        _ => None,
    }
}

/// The "Version/Release" cell of a source's table row, where it has one.
pub open spec fn version_cell(d: DownloadableView) -> Option<Seq<char>> {
    match d {
        DownloadableView::Url { .. } => None,
        DownloadableView::GithubRelease { tag, .. } => Some(tag),
        DownloadableView::Modrinth { version, .. } => Some(version),
        DownloadableView::CurseRinth { version, .. } => Some(version),
        DownloadableView::Hangar { version, .. } => Some(version),
        DownloadableView::Spigot { version, .. } => Some(version),
        DownloadableView::Jenkins { build, .. } => Some(build),
        DownloadableView::Maven { version, .. } => Some(version),
    }
}

/// The rows describing a source: its type, its project, then its version and its asset
/// where it has them.
pub open spec fn field_rows(d: DownloadableView) -> Seq<(Seq<char>, Seq<char>)> {
    let base = seq![("Type"@, kind_label(d)), ("Project/URL"@, project_cell(d))];
    let with_version = match version_cell(d) {
        Some(v) => base.push(("Version/Release"@, v)),
        None => base,
    };
    match asset_cell(d) {
        Some(a) => with_version.push(("Asset/File"@, a)),
        None => with_version,
    }
}

/// The file name of a URL: the last `/`-separated part of what comes before any `?`.
pub open spec fn url_file_name(url: Seq<char>) -> Seq<char> {
    after_last(before_first(url, '?'), '/')
}

/// The name of the file that a URL points at.
pub fn file_name_of_url(url: &str) -> (r: String)
    ensures
        r@ == url_file_name(url@),
{
    let clean = prefix_before(url, '?');
    suffix_after(clean, '/').to_owned()
}

impl Downloadable {
    /// The markdown link naming this source.
    pub fn get_md_link(&self) -> (r: String)
        ensures
            r@ == md_link(self@),
    {
        match self {
            Downloadable::Url { url, filename, .. } => match filename {
                Some(f) => cat5("`", f.as_str(), "` (Custom [URL](", url.as_str(), "))"),
                None => cat3("Custom [URL](", url.as_str(), ")"),
            },
            Downloadable::GithubRelease { repo, .. } => cat5(
                "[",
                repo.as_str(),
                "](https://github.com/",
                repo.as_str(),
                ")",
            ),
            Downloadable::Hangar { id, .. } => cat5(
                "[",
                id.as_str(),
                "](https://hangar.papermc.io/",
                id.as_str(),
                ")",
            ),
            Downloadable::Jenkins { url, job, .. } => {
                let mut r = cat3("[", job.as_str(), "](");
                r.append(url.as_str());
                let p = str_process_job(job.as_str());
                r.append(p.as_str());
                r.append(")");
                r
            },
            Downloadable::Maven { url, group, .. } => {
                let g = replace(group.as_str(), ".", "/");
                let mut r = cat3("[", g.as_str(), "](");
                r.append(url.as_str());
                r.append("/");
                r.append(g.as_str());
                r.append(")");
                r
            },
            Downloadable::Spigot { id, .. } => cat5(
                "[",
                id.as_str(),
                "](https://www.spigotmc.org/resources/",
                id.as_str(),
                ")",
            ),
            Downloadable::Modrinth { id, .. } => cat5(
                "[",
                id.as_str(),
                "](https://modrinth.com/mod/",
                id.as_str(),
                ")",
            ),
            Downloadable::CurseRinth { id, .. } => {
                let mut r = cat3(
                    "`",
                    id.as_str(),
                    "`<sup>[CF](https://www.curseforge.com/minecraft/mc-mods/",
                );
                r.append(id.as_str());
                r.append(") [CR](https://curserinth.kuylar.dev/mod/");
                r.append(id.as_str());
                r.append(")</sup>");
                r
            },
        }
    }

    /// The short type label of this source.
    pub fn get_type_name(&self) -> (r: String)
        ensures
            r@ == kind_label(self@),
    {
        match self {
            Downloadable::Url { .. } => "URL".to_owned(),
            Downloadable::GithubRelease { .. } => "GithubRel".to_owned(),
            Downloadable::Jenkins { .. } => "Jenkins".to_owned(),
            Downloadable::Hangar { .. } => "Hangar".to_owned(),
            Downloadable::Modrinth { .. } => "Modrinth".to_owned(),
            Downloadable::CurseRinth { .. } => "CurseRinth".to_owned(),
            Downloadable::Spigot { .. } => "Spigot".to_owned(),
            Downloadable::Maven { .. } => "Maven".to_owned(),
        }
    }

    /// The one-line description of this source.
    pub fn to_short_string(&self) -> (r: String)
        ensures
            r@ == short_string(self@),
    {
        match self {
            Downloadable::Modrinth { id, .. } => cat2("Modrinth:", id.as_str()),
            Downloadable::Hangar { id, .. } => cat2("Hangar:", id.as_str()),
            Downloadable::CurseRinth { id, .. } => cat2("CurseRinth:", id.as_str()),
            Downloadable::Spigot { id, .. } => cat2("Spigot:", id.as_str()),
            Downloadable::GithubRelease { repo, .. } => cat2("Github:", repo.as_str()),
            Downloadable::Jenkins { job, .. } => cat2("Jenkins:", job.as_str()),
            Downloadable::Url { filename, .. } => match filename {
                Some(f) => cat2("URL:", f.as_str()),
                None => "URL".to_owned(),
            },
            Downloadable::Maven { group, artifact, .. } => {
                let mut r = cat3("Maven:", group.as_str(), ".");
                r.append(artifact.as_str());
                r
            },
        }
    }

    /// The text form of this source: its one-line description.
    pub fn to_string(&self) -> (r: String)
        ensures
            r@ == short_string(self@),
    {
        self.to_short_string()
    }

    /// Whether `other` is this source with perhaps another version (release tag for GitHub,
    /// build for Jenkins).
    pub fn is_same_as(&self, other: &Self) -> (r: bool)
        ensures
            r == same_source(self@, other@),
    {
        match (self, other) {
            (Downloadable::Hangar { id: a, .. }, Downloadable::Hangar { id: b, .. }) => *a == *b,
            (Downloadable::CurseRinth { id: a, .. }, Downloadable::CurseRinth { id: b, .. }) => *a
                == *b,
            (Downloadable::Modrinth { id: a, .. }, Downloadable::Modrinth { id: b, .. }) => *a
                == *b,
            (Downloadable::Spigot { id: a, .. }, Downloadable::Spigot { id: b, .. }) => *a == *b,
            (Downloadable::Url { url: a, .. }, Downloadable::Url { url: b, .. }) => *a == *b,
            (
                Downloadable::GithubRelease { repo: r1, asset: a1, .. },
                Downloadable::GithubRelease { repo: r2, asset: a2, .. },
            ) => *r1 == *r2 && *a1 == *a2,
            (
                Downloadable::Jenkins { url: u1, job: j1, artifact: a1, .. },
                Downloadable::Jenkins { url: u2, job: j2, artifact: a2, .. },
            ) => *u1 == *u2 && *j1 == *j2 && *a1 == *a2,
            (
                Downloadable::Maven { url: u1, group: g1, artifact: a1, filename: f1, .. },
                Downloadable::Maven { url: u2, group: g2, artifact: a2, filename: f2, .. },
            ) => *u1 == *u2 && *g1 == *g2 && *a1 == *a2 && *f1 == *f2,
            _ => self == other,
        }
    }

    /// The table rows that describe this source.
    pub fn fields_to_map(&self) -> (r: IndexMap<String, String>)
        ensures
            table_entries(r) == field_rows(self@),
    {
        proof {
            reveal_strlit("Type");
            reveal_strlit("Project/URL");
            reveal_strlit("Version/Release");
            reveal_strlit("Asset/File");
        }
        let mut map = table_new();
        let tn = self.get_type_name();
        table_insert_pair(&mut map, "Type".to_owned(), tn);
        proof {
            lemma_insert_fresh(Seq::<(Seq<char>, Seq<char>)>::empty(), "Type"@, tn@);
        }
        let (project, asset, version): (String, Option<String>, Option<String>) = match self {
            Downloadable::Url { url, filename, .. } => (
                url.clone(),
                Some(
                    match filename {
                        Some(f) => f.clone(),
                        None => String::new(),
                    },
                ),
                None,
            ),
            Downloadable::GithubRelease { repo, tag, asset } => (
                repo.clone(),
                Some(asset.clone()),
                Some(tag.clone()),
            ),
            Downloadable::Modrinth { id, version } => (id.clone(), None, Some(version.clone())),
            Downloadable::CurseRinth { id, version } => (id.clone(), None, Some(version.clone())),
            Downloadable::Hangar { id, version } => (id.clone(), None, Some(version.clone())),
            Downloadable::Spigot { id, version } => (id.clone(), None, Some(version.clone())),
            Downloadable::Jenkins { url, job, build, artifact } => {
                let mut p = cat2(job.as_str(), " - (");
                p.append(url.as_str());
                p.append(")");
                (p, Some(artifact.clone()), Some(build.clone()))
            },
            Downloadable::Maven { url, group, artifact, version, filename } => {
                let mut p = cat3(group.as_str(), ".", artifact.as_str());
                p.append(" - (");
                p.append(url.as_str());
                p.append(")");
                (p, Some(filename.clone()), Some(version.clone()))
            },
        };
        assert(project@ == project_cell(self@));
        assert(opt_view(asset) == asset_cell(self@));
        assert(opt_view(version) == version_cell(self@));
        let ghost es0 = table_entries(map);
        proof {
            lemma_insert_fresh(es0, "Project/URL"@, project@);
        }
        table_insert_pair(&mut map, "Project/URL".to_owned(), project);
        match version {
            Some(v) => {
                let ghost es1 = table_entries(map);
                proof {
                    lemma_insert_fresh(es1, "Version/Release"@, v@);
                }
                table_insert_pair(&mut map, "Version/Release".to_owned(), v);
            },
            None => {},
        }
        match asset {
            Some(a) => {
                let ghost es2 = table_entries(map);
                proof {
                    lemma_insert_fresh(es2, "Asset/File"@, a@);
                }
                table_insert_pair(&mut map, "Asset/File".to_owned(), a);
            },
            None => {},
        }
        assert(table_entries(map) =~= field_rows(self@));
        map
    }

    /// For a plain URL source, the name its file is saved under: the given file name, or
    /// the one the URL ends with. Other sources learn their file name from their site.
    pub fn url_filename(&self) -> (r: Option<String>)
        ensures
            match self@ {
                DownloadableView::Url { url, filename, .. } => match filename {
                    Some(f) => opt_view(r) == Some(f),
                    None => r is Some && r->0@ == url_file_name(url),
                },
                _ => r is None,
            },
    {
        match self {
            Downloadable::Url { url, filename, .. } => match filename {
                Some(f) => Some(f.clone()),
                None => Some(file_name_of_url(url.as_str())),
            },
            _ => None,
        }
    }
}


/// Source `b` is source `a` with at most its version changed: its release tag for GitHub,
/// its build for Jenkins, its version elsewhere; a plain URL source has no version.
pub open spec fn differs_in_version_only(a: DownloadableView, b: DownloadableView) -> bool {
    match (a, b) {
        (DownloadableView::Modrinth { id: x, .. }, DownloadableView::Modrinth { id: y, .. }) => x
            == y,
        (
            DownloadableView::CurseRinth { id: x, .. },
            DownloadableView::CurseRinth { id: y, .. },
        ) => x == y,
        (DownloadableView::Spigot { id: x, .. }, DownloadableView::Spigot { id: y, .. }) => x == y,
        (DownloadableView::Hangar { id: x, .. }, DownloadableView::Hangar { id: y, .. }) => x == y,
        (DownloadableView::Url { .. }, DownloadableView::Url { .. }) => a == b,
        (
            DownloadableView::GithubRelease { repo: r1, asset: a1, .. },
            DownloadableView::GithubRelease { repo: r2, asset: a2, .. },
        ) => r1 == r2 && a1 == a2,
        (
            DownloadableView::Jenkins { url: u1, job: j1, artifact: a1, .. },
            DownloadableView::Jenkins { url: u2, job: j2, artifact: a2, .. },
        ) => u1 == u2 && j1 == j2 && a1 == a2,
        (
            DownloadableView::Maven { url: u1, group: g1, artifact: a1, filename: f1, .. },
            DownloadableView::Maven { url: u2, group: g2, artifact: a2, filename: f2, .. },
        ) => u1 == u2 && g1 == g2 && a1 == a2 && f1 == f2,
        _ => false,
    }
}

/// Two sources that differ in their version only are the same source.
pub proof fn lemma_same_source_up_to_version(a: DownloadableView, b: DownloadableView)
    requires
        differs_in_version_only(a, b),
    ensures
        same_source(a, b),
{
}

/// Every source is the same source as itself.
pub proof fn lemma_same_source_reflexive(a: DownloadableView)
    ensures
        same_source(a, a),
{
}

/// Being the same source does not depend on the order of the two.
pub proof fn lemma_same_source_symmetric(a: DownloadableView, b: DownloadableView)
    ensures
        same_source(a, b) == same_source(b, a),
{
}

} // verus!
