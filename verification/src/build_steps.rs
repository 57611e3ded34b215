//! The decisions of a build: which configuration files get their variables filled in, how
//! placeholders read, how the server jar is installed and named, which addon files go, and
//! how worlds are set up.
use vstd::prelude::*;
use vstd::string::*;
use crate::lockfile::{join_path, joined_path};
use crate::paths::{diffed_path, relative_path};
use crate::server::Server;
use crate::strs::{
    cat2, cat3, find_char, first_index_of, fmt_u64, dec_nat, last_index_of, nonempty, pieces_by,
    replace, replaced, rfind_char, split_char, str_eq, trim, trimmed,
};

verus! {

/// The components of a relative path: its `/`-separated parts without empty and `.` parts.
pub open spec fn path_parts(p: Seq<char>) -> Seq<Seq<char>> {
    pieces_by(p, '/').filter(|s: Seq<char>| s.len() > 0 && s != "."@)
}

/// The file name of a path, as `Path::file_name` gives it: its last component, unless there
/// is none or it is `..`.
pub open spec fn file_name_of(p: Seq<char>) -> Option<Seq<char>> {
    let ps = path_parts(p);
    if ps.len() == 0 || ps.last() == ".."@ {
        None
    } else {
        Some(ps.last())
    }
}

/// The extension of a file name, as `Path::extension` gives it: what follows its last `.`,
/// unless there is no `.` or the only one starts the name.
pub open spec fn extension_of_name(f: Seq<char>) -> Option<Seq<char>> {
    if exists|k: int| last_index_of(f, '.', k) {
        let k = choose|k: int| last_index_of(f, '.', k);
        if k == 0 {
            None
        } else {
            Some(f.subrange(k + 1, f.len() as int))
        }
    } else {
        None
    }
}

/// The extension of a path, empty where it has none.
pub open spec fn extension_of(p: Seq<char>) -> Seq<char> {
    match file_name_of(p) {
        Some(f) => match extension_of_name(f) {
            Some(e) => e,
            None => Seq::<char>::empty(),
        },
        None => Seq::<char>::empty(),
    }
}

/// The extensions of the text formats whose files always get their variables filled in.
pub open spec fn text_extensions() -> Seq<Seq<char>> {
    seq![
        "properties"@,
        "txt"@,
        "yaml"@,
        "yml"@,
        "conf"@,
        "config"@,
        "toml"@,
        "json"@,
        "json5"@,
        "secret"@,
    ]
}

fn file_name_text(p: &str) -> (r: Option<String>)
    ensures
        match r {
            Some(f) => file_name_of(p@) == Some(f@),
            None => file_name_of(p@) is None,
        },
{
    let parts = split_char(p, '/');
    let ghost pv = parts.deep_view();
    let ghost pred = |s: Seq<char>| s.len() > 0 && s != "."@;
    let mut last: Option<String> = None;
    let mut count: usize = 0;
    let mut i: usize = 0;
    assert(pv.take(0).filter(pred) =~= Seq::<Seq<char>>::empty()) by {
        reveal(Seq::filter);
    }
    while i < parts.len()
        invariant
            pv == parts.deep_view(),
            pred == (|s: Seq<char>| s.len() > 0 && s != "."@),
            i <= parts.len(),
            count as int == pv.take(i as int).filter(pred).len(),
            count <= i,
            match last {
                Some(l) => count > 0 && l@ == pv.take(i as int).filter(pred).last(),
                None => count == 0,
            },
        decreases parts.len() - i,
    {
        proof {
            crate::strs::lemma_filter_push(pv.take(i as int), pred, pv[i as int]);
            assert(pv.take(i + 1) =~= pv.take(i as int).push(pv[i as int]));
        }
        let piece = parts[i].as_str();
        if piece.unicode_len() > 0 && !str_eq(piece, ".") {
            last = Some(parts[i].clone());
            count = count + 1;
        }
        i = i + 1;
    }
    assert(pv.take(parts.len() as int) =~= pv);
    match last {
        Some(l) => {
            if str_eq(l.as_str(), "..") {
                None
            } else {
                Some(l)
            }
        },
        None => None,
    }
}

fn extension_text(f: &str) -> (r: String)
    ensures
        r@ == match extension_of_name(f@) {
            Some(e) => e,
            None => Seq::<char>::empty(),
        },
{
    let n = f.unicode_len();
    match rfind_char(f, '.') {
        Some(k) => {
            assert(k < n);
            proof {
                let j = choose|j: int| last_index_of(f@, '.', j);
                assert(j == k) by {
                    if j < k {
                        assert(f@[k as int] != '.');
                    } else if k < j {
                        assert(f@[j] != '.');
                    }
                }
            }
            if k == 0 {
                String::new()
            } else {
                f.substring_char(k + 1, n).to_owned()
            }
        },
        None => {
            proof {
                assert(!exists|j: int| last_index_of(f@, '.', j));
            }
            String::new()
        },
    }
}

/// The extension of the file at `path`, empty where it has none.
pub fn path_extension(path: &str) -> (r: String)
    ensures
        r@ == extension_of(path@),
{
    match file_name_text(path) {
        Some(f) => extension_text(f.as_str()),
        None => String::new(),
    }
}

fn lists(list: &Vec<String>, s: &str) -> (r: bool)
    ensures
        r == list.deep_view().contains(s@),
{
    let mut i: usize = 0;
    while i < list.len()
        invariant
            i <= list.len(),
            forall|j: int| 0 <= j < i ==> list.deep_view()[j] != s@,
        decreases list.len() - i,
    {
        if str_eq(list[i].as_str(), s) {
            assert(list.deep_view()[i as int] == s@);
            return true;
        }
        i = i + 1;
    }
    false
}

/// Whether the configuration file at `path` gets its variables filled in when copied: its
/// extension is one of the text formats, or one of `bootstrap_exts`.
pub fn should_bootstrap_file(path: &str, bootstrap_exts: &Vec<String>) -> (r: bool)
    ensures
        r == (text_extensions().contains(extension_of(path@)) || bootstrap_exts.deep_view().contains(
            extension_of(path@),
        )),
{
    let ext = path_extension(path);
    let known: Vec<String> = vec![
        "properties".to_owned(),
        "txt".to_owned(),
        "yaml".to_owned(),
        "yml".to_owned(),
        "conf".to_owned(),
        "config".to_owned(),
        "toml".to_owned(),
        "json".to_owned(),
        "json5".to_owned(),
        "secret".to_owned(),
    ];
    assert(known.deep_view() =~= text_extensions());
    lists(&known, ext.as_str()) || lists(bootstrap_exts, ext.as_str())
}

/// A `${...}` placeholder read as a variable name and a default: `name:default`, both
/// trimmed, or a trimmed name alone.
pub open spec fn placeholder(raw: Seq<char>) -> (Seq<char>, Option<Seq<char>>) {
    let k = trimmed(raw);
    if exists|i: int| first_index_of(k, ':', i) {
        let i = choose|i: int| first_index_of(k, ':', i);
        (trimmed(k.subrange(0, i)), Some(trimmed(k.subrange(i + 1, k.len() as int))))
    } else {
        (k, None)
    }
}

/// Reads a placeholder as a variable name and an optional default.
pub fn split_placeholder(raw: &str) -> (r: (String, Option<String>))
    ensures
        r.0@ == placeholder(raw@).0,
        match r.1 {
            Some(d) => placeholder(raw@).1 == Some(d@),
            None => placeholder(raw@).1 is None,
        },
{
    let k = trim(raw);
    match find_char(k, ':') {
        Some(i) => {
            proof {
                let j = choose|j: int| first_index_of(k@, ':', j);
                assert(j == i) by {
                    if j < i {
                        assert(k@[j] != ':');
                    } else if i < j {
                        assert(k@[i as int] != ':');
                    }
                }
            }
            let n = k.unicode_len();
            let name = trim(k.substring_char(0, i)).to_owned();
            let def = trim(k.substring_char(i + 1, n)).to_owned();
            (name, Some(def))
        },
        None => {
            proof {
                assert(!exists|j: int| first_index_of(k@, ':', j));
            }
            (k.to_owned(), None)
        },
    }
}

/// The value of a placeholder: the variable's, else the default.
pub fn placeholder_value(found: Option<String>, default: Option<String>) -> (r: Option<String>)
    ensures
        r == match found {
            Some(v) => Some(v),
            None => default,
        },
{
    match found {
        Some(v) => Some(v),
        None => default,
    }
}

/// The name of the server jar that an installer leaves: `${mcver}` in it becomes the game
/// version.
pub fn installed_jar_name(jar_name: &str, mc_version: &str) -> (r: String)
    ensures
        r@ == replaced(jar_name@, "${mcver}"@, mc_version@),
{
    replace(jar_name, "${mcver}", mc_version)
}

/// How the installed jar is shown: by name where the installer's output is renamed to it,
/// else as lying in the libraries.
pub fn jar_label(renamed: bool, jar_name: &str) -> (r: String)
    ensures
        r@ == if renamed {
            jar_name@
        } else {
            "<in libraries>"@
        },
{
    if renamed {
        jar_name.to_owned()
    } else {
        "<in libraries>".to_owned()
    }
}

/// The java arguments that run an installer: `-jar`, the installer, then its arguments.
pub fn installer_command(installer_jar: &str, args: &Vec<String>) -> (r: Vec<String>)
    ensures
        r.deep_view() == seq!["-jar"@, installer_jar@] + args.deep_view(),
{
    let mut out: Vec<String> = vec!["-jar".to_owned(), installer_jar.to_owned()];
    let ghost head = out.deep_view();
    assert(head =~= seq!["-jar"@, installer_jar@]);
    let ghost av = args.deep_view();
    let mut i: usize = 0;
    while i < args.len()
        invariant
            i <= args.len(),
            av == args.deep_view(),
            out.deep_view() =~= head + av.take(i as int),
        decreases args.len() - i,
    {
        let ghost before = out.deep_view();
        out.push(args[i].clone());
        proof {
            assert(out.deep_view() =~= before.push(av[i as int]));
            assert(av.take(i + 1) =~= av.take(i as int).push(av[i as int]));
        }
        i = i + 1;
    }
    assert(av.take(args.len() as int) =~= av);
    out
}

/// What happens to the installer's output after it ran.
#[derive(Debug, PartialEq, Eq, Structural, Clone, Copy)]
pub enum RenameStep {
    /// Rename the installer's output to the jar name.
    Rename,
    /// Nothing to rename: the jar is already there.
    Skip,
    /// The installer left neither file: the build fails.
    Fail,
}

/// What happens to the installer's output, given whether it exists and whether the jar
/// already does.
pub fn rename_step(from_exists: bool, to_exists: bool) -> (r: RenameStep)
    ensures
        r == if from_exists {
            RenameStep::Rename
        } else if to_exists {
            RenameStep::Skip
        } else {
            RenameStep::Fail
        },
{
    if from_exists {
        RenameStep::Rename
    } else if to_exists {
        RenameStep::Skip
    } else {
        RenameStep::Fail
    }
}

/// Whether the server jar is installed: always when forced, else when it is not there yet.
pub fn must_install(force: bool, jar_exists: bool) -> (r: bool)
    ensures
        r == (force || !jar_exists),
{
    force || !jar_exists
}

/// The log file of an installer run with tag `tag`.
pub fn installer_log_name(tag: &str) -> (r: String)
    ensures
        r@ == "."@ + tag@ + ".mcman.log"@,
{
    cat3(".", tag, ".mcman.log")
}

/// The first line of an installer's log.
pub fn installer_log_header(tag: &str, label: &str) -> (r: String)
    ensures
        r@ == "=== mcman "@ + tag@ + " / "@ + label@ + " output ===\n\n"@,
{
    let mut r = cat3("=== mcman ", tag, " / ");
    r.append(label);
    r.append(" output ===\n\n");
    r
}

/// An installer output line as logged: trimmed; empty lines are not logged.
pub fn installer_log_line(line: &str) -> (r: Option<String>)
    ensures
        match r {
            Some(l) => l@ == trimmed(line@) && l@.len() > 0,
            None => trimmed(line@).len() == 0,
        },
{
    let t = trim(line);
    if t.unicode_len() > 0 {
        Some(t.to_owned())
    } else {
        None
    }
}

/// Where a configuration file found at `entry` under the `config` directory `config_dir`
/// goes: its path relative to that directory, and that path under the output directory
/// `output_dir`; `None` where it cannot be made relative to the directory.
pub fn bootstrap_target(config_dir: &str, output_dir: &str, entry: &str) -> (r: Option<
    (String, String),
>)
    ensures
        match diffed_path(entry@, config_dir@) {
            Some(rel) => r matches Some((a, b)) && a@ == rel && b@ == joined_path(output_dir@, rel),
            None => r is None,
        },
{
    match relative_path(entry, config_dir) {
        Some(rel) => {
            let dest = join_path(output_dir, rel.as_str());
            Some((rel, dest))
        },
        None => None,
    }
}

/// The addon files to delete after a build: those of the previous build (once each, in
/// their order) that the new build did not produce.
pub open spec fn stale(prev: Seq<Seq<char>>, now: Seq<Seq<char>>, f: Seq<char>) -> bool {
    prev.contains(f) && !now.contains(f)
}

/// The addon files of the previous build that the new one did not produce, each once.
pub fn removed_files(previous: &Vec<String>, current: &Vec<String>) -> (r: Vec<String>)
    ensures
        forall|f: Seq<char>|
            #![trigger r.deep_view().contains(f)]
            #![trigger stale(previous.deep_view(), current.deep_view(), f)]
            r.deep_view().contains(f) <==> stale(previous.deep_view(), current.deep_view(), f),
        forall|i: int, j: int|
            0 <= i < j < r.deep_view().len() ==> r.deep_view()[i] != r.deep_view()[j],
{
    let ghost pv = previous.deep_view();
    let ghost cv = current.deep_view();
    let mut out: Vec<String> = Vec::new();
    let mut i: usize = 0;
    while i < previous.len()
        invariant
            i <= previous.len(),
            pv == previous.deep_view(),
            cv == current.deep_view(),
            forall|f: Seq<char>|
                #![trigger out.deep_view().contains(f)]
                #![trigger pv.take(i as int).contains(f)]
                out.deep_view().contains(f) <==> (pv.take(i as int).contains(f) && !cv.contains(f)),
            forall|a: int, b: int|
                0 <= a < b < out.deep_view().len() ==> out.deep_view()[a] != out.deep_view()[b],
        decreases previous.len() - i,
    {
        let f = previous[i].as_str();
        let ghost t0 = pv.take(i as int);
        let ghost t1 = pv.take(i + 1);
        proof {
            assert(t1 =~= t0.push(pv[i as int]));
        }
        if !lists(current, f) && !lists(&out, f) {
            let ghost before = out.deep_view();
            out.push(f.to_owned());
            proof {
                let now = out.deep_view();
                assert(now =~= before.push(f@));
                assert forall|g: Seq<char>| now.contains(g) <==> (t1.contains(g) && !cv.contains(g)) by {
                    if now.contains(g) {
                        let k = choose|k: int| 0 <= k < now.len() && #[trigger] now[k] == g;
                        if k < before.len() {
                            assert(before[k] == g);
                            assert(before.contains(g));
                            assert(t0.contains(g));
                            let m = choose|m: int| 0 <= m < t0.len() && #[trigger] t0[m] == g;
                            assert(t1[m] == g);
                        } else {
                            assert(t1[i as int] == g);
                        }
                    }
                    if t1.contains(g) && !cv.contains(g) {
                        let k = choose|k: int| 0 <= k < t1.len() && #[trigger] t1[k] == g;
                        if k < i {
                            assert(t0[k] == g);
                            assert(t0.contains(g));
                            assert(before.contains(g));
                            let m = choose|m: int| 0 <= m < before.len() && #[trigger] before[m] == g;
                            assert(now[m] == g);
                        } else {
                            assert(now[before.len() as int] == g);
                        }
                    }
                }
            }
        } else {
            proof {
                let now = out.deep_view();
                assert forall|g: Seq<char>| now.contains(g) <==> (t1.contains(g) && !cv.contains(g)) by {
                    if t1.contains(g) && !cv.contains(g) {
                        let k = choose|k: int| 0 <= k < t1.len() && #[trigger] t1[k] == g;
                        if k < i {
                            assert(t0[k] == g);
                            assert(t0.contains(g));
                        }
                    }
                    if now.contains(g) {
                        assert(t0.contains(g));
                        let k = choose|k: int| 0 <= k < t0.len() && #[trigger] t0[k] == g;
                        assert(t1[k] == g);
                    }
                }
            }
        }
        i = i + 1;
    }
    assert(pv.take(previous.len() as int) =~= pv);
    assert forall|g: Seq<char>| out.deep_view().contains(g) <==> stale(pv, cv, g) by {
        assert(out.deep_view().contains(g) <==> (pv.take(previous.len() as int).contains(g)
            && !cv.contains(g)));
    }
    out
}

/// The message announcing how many addons of a kind are processed.
pub fn processing_message(count: usize, kind: &str) -> (r: String)
    ensures
        r@ == "Processing "@ + dec_nat(count as nat) + " "@ + kind@ + (if count == 1 {
            ""@
        } else {
            "s"@
        }) + "..."@ + (if count < 200 {
            ""@
        } else {
            " may god help you"@
        }),
{
    let mut r = cat2("Processing ", fmt_u64(count as u64).as_str());
    r.append(" ");
    r.append(kind);
    if count != 1 {
        r.append("s");
    } else {
        r.append("");
    }
    r.append("...");
    if count >= 200 {
        r.append(" may god help you");
    } else {
        r.append("");
    }
    r
}

/// How a world gets into the output.
#[derive(Debug, PartialEq, Eq, Structural, Clone, Copy)]
pub enum WorldStep {
    /// It is there already.
    Keep,
    /// Unzip the server's `worlds/<name>.zip`.
    UnzipSource,
    /// Download the world, then unzip it.
    DownloadAndUnzip,
    /// Nothing to do: there is no source for it.
    Nothing,
}

/// How a world gets into the output, given whether it is there, whether the server holds
/// its zip, and whether it has a download.
pub fn world_step(in_output: bool, source_exists: bool, has_download: bool) -> (r: WorldStep)
    ensures
        r == if in_output {
            WorldStep::Keep
        } else if source_exists {
            WorldStep::UnzipSource
        } else if has_download {
            WorldStep::DownloadAndUnzip
        } else {
            WorldStep::Nothing
        },
{
    if in_output {
        WorldStep::Keep
    } else if source_exists {
        WorldStep::UnzipSource
    } else if has_download {
        WorldStep::DownloadAndUnzip
    } else {
        WorldStep::Nothing
    }
}

/// The zip of world `name` in the server's directory, relative to it.
pub fn world_source_path(name: &str) -> (r: String)
    ensures
        r@ == "worlds/"@ + name@ + ".zip"@,
{
    cat3("worlds/", name, ".zip")
}

/// The folder, relative to the output, that the datapacks of world `name` go to.
pub fn datapack_folder(name: &str) -> (r: String)
    ensures
        r@ == name@ + "/datapacks"@,
{
    cat2(name, "/datapacks")
}


/// Whether an entry of a zip archive is a folder: its name ends with `/`.
pub fn is_folder_entry(name: &str) -> (r: bool)
    ensures
        r == crate::strs::has_suffix(name@, "/"@),
{
    crate::strs::ends_with(name, "/")
}

/// The worlds of a server, packed as zips in its `worlds` directory and unpacked in its
/// `server` directory.
pub struct WorldsAPI<'a>(pub &'a Server);

impl<'a> WorldsAPI<'a> {
    /// The zip of world `world`.
    pub fn world_zip(&self, world: &str) -> (r: String)
        ensures
            r@ == joined_path(joined_path(self.0.path@, "worlds"@), world@ + ".zip"@),
    {
        let dir = join_path(self.0.path.as_str(), "worlds");
        join_path(dir.as_str(), cat2(world, ".zip").as_str())
    }

    /// The folder that world `world` is unpacked into.
    pub fn world_folder(&self, world: &str) -> (r: String)
        ensures
            r@ == joined_path(joined_path(self.0.path@, "server"@), world@),
    {
        let dir = join_path(self.0.path.as_str(), "server");
        join_path(dir.as_str(), world)
    }

    /// The name, inside the zip of world `world`, of the file or folder at `entry_path`
    /// under the world's folder: its path relative to that folder; `None` where it cannot
    /// be made relative to it.
    pub fn archive_entry_name(&self, world: &str, entry_path: &str) -> (r: Option<String>)
        ensures
            match r {
                Some(n) => diffed_path(
                    entry_path@,
                    joined_path(joined_path(self.0.path@, "server"@), world@),
                ) == Some(n@),
                None => diffed_path(
                    entry_path@,
                    joined_path(joined_path(self.0.path@, "server"@), world@),
                ) is None,
            },
    {
        let folder = self.world_folder(world);
        relative_path(entry_path, folder.as_str())
    }

    /// The error shown when world `world` has no zip.
    pub fn missing_zip_message(world: &str) -> (r: String)
        ensures
            r@ == "worlds/"@ + world@ + ".zip doesnt exist"@,
    {
        cat3("worlds/", world, ".zip doesnt exist")
    }
}

} // verus!
