//! The lock file of a build (`.mcman.lock`): what the last build copied, and when to copy a
//! configuration file again.
use vstd::prelude::*;
use vstd::string::*;
use crate::downloadable::Downloadable;
use crate::strmap::StrMap;
use crate::build_steps::{removed_files, stale};
use crate::strs::{cat2, cat3, ends_with, has_suffix};

verus! {

/// A configuration file copied into the output, with the time of its last change (in
/// nanoseconds since the Unix epoch).
pub struct BootstrappedFile {
    pub path: String,
    pub date: u128,
}

/// The kinds of addons a server holds.
#[derive(Debug, PartialEq, Eq, Structural, Clone, Copy)]
pub enum AddonType {
    Plugin,
    Mod,
}

/// The folder of the output that addons of a kind go to.
pub open spec fn addon_folder(kind: AddonType) -> Seq<char> {
    match kind {
        AddonType::Plugin => "plugins"@,
        AddonType::Mod => "mods"@,
    }
}

impl AddonType {
    /// The folder of the output that addons of this kind go to.
    pub fn folder(&self) -> (r: String)
        ensures
            r@ == addon_folder(*self),
    {
        match self {
            AddonType::Plugin => "plugins".to_owned(),
            AddonType::Mod => "mods".to_owned(),
        }
    }
}

/// A file that a source resolved to: where it is downloaded from, the name it is saved
/// under, and what is known of its size and hashes.
pub struct ResolvedFile {
    pub url: String,
    pub filename: String,
    pub size: Option<u64>,
    pub hashes: StrMap<String>,
}

/// What a build records for the next one.
pub struct Lockfile {
    pub path: String,
    pub server_vars: StrMap<String>,
    pub nw_vars: StrMap<String>,
    /// The plugins of the build, each with the file it resolved to.
    pub plugins: Vec<(Downloadable, ResolvedFile)>,
    /// The mods of the build, each with the file it resolved to.
    pub mods: Vec<(Downloadable, ResolvedFile)>,
    pub files: Vec<BootstrappedFile>,
}

/// The addons of a kind that lock file `l` records.
pub open spec fn addons_of(l: Lockfile, kind: AddonType) -> Seq<(Downloadable, ResolvedFile)> {
    match kind {
        AddonType::Plugin => l.plugins@,
        AddonType::Mod => l.mods@,
    }
}

/// The file names of a list of resolved addons, in order.
pub open spec fn filenames_of(l: Seq<(Downloadable, ResolvedFile)>) -> Seq<Seq<char>> {
    l.map_values(|p: (Downloadable, ResolvedFile)| p.1.filename@)
}

/// `name` under directory `dir`, as `Path::join` puts it for a relative name.
pub open spec fn joined_path(dir: Seq<char>, name: Seq<char>) -> Seq<char> {
    if dir.len() == 0 || has_suffix(dir, "/"@) {
        dir + name
    } else {
        dir + "/"@ + name
    }
}

/// `name` under directory `dir`.
pub fn join_path(dir: &str, name: &str) -> (r: String)
    ensures
        r@ == joined_path(dir@, name@),
{
    if dir.unicode_len() == 0 || ends_with(dir, "/") {
        cat2(dir, name)
    } else {
        cat3(dir, "/", name)
    }
}

impl Default for Lockfile {
    fn default() -> (r: Self)
        ensures
            r.path@ == "./.mcman.lock"@,
            r.server_vars@.len() == 0,
            r.nw_vars@.len() == 0,
            r.plugins@.len() == 0,
            r.mods@.len() == 0,
            r.files@.len() == 0,
    {
        Lockfile {
            path: "./.mcman.lock".to_owned(),
            server_vars: StrMap::new(),
            nw_vars: StrMap::new(),
            plugins: Vec::new(),
            mods: Vec::new(),
            files: Vec::new(),
        }
    }
}

impl Lockfile {
    /// The lock file of the output directory `output_dir`: the one read from its
    /// `.mcman.lock`, where there is one, else an empty one; either way it is kept at that
    /// path.
    pub fn get_lockfile(output_dir: &str, loaded: Option<Lockfile>) -> (r: Lockfile)
        ensures
            r.path@ == joined_path(output_dir@, ".mcman.lock"@),
            match loaded {
                Some(l) => r.server_vars == l.server_vars && r.nw_vars == l.nw_vars && r.plugins
                    == l.plugins && r.mods == l.mods && r.files == l.files,
                None => r.server_vars@.len() == 0 && r.nw_vars@.len() == 0 && r.plugins@.len() == 0
                    && r.mods@.len() == 0 && r.files@.len() == 0,
            },
    {
        let path = join_path(output_dir, ".mcman.lock");
        match loaded {
            Some(l) => Lockfile {
                path,
                server_vars: l.server_vars,
                nw_vars: l.nw_vars,
                plugins: l.plugins,
                mods: l.mods,
                files: l.files,
            },
            None => Lockfile {
                path,
                server_vars: StrMap::new(),
                nw_vars: StrMap::new(),
                plugins: Vec::new(),
                mods: Vec::new(),
                files: Vec::new(),
            },
        }
    }

    /// Records that addon `addon` of kind `kind` resolved to `resolved`: the pair goes last
    /// in that kind's list; nothing else changes.
    pub fn record_addon(&mut self, kind: AddonType, addon: Downloadable, resolved: ResolvedFile)
        ensures
            addons_of(*final(self), kind) == addons_of(*old(self), kind).push((addon, resolved)),
            kind == AddonType::Plugin ==> final(self).mods == old(self).mods,
            kind == AddonType::Mod ==> final(self).plugins == old(self).plugins,
            final(self).path == old(self).path,
            final(self).server_vars == old(self).server_vars,
            final(self).nw_vars == old(self).nw_vars,
            final(self).files == old(self).files,
    {
        match kind {
            AddonType::Plugin => self.plugins.push((addon, resolved)),
            AddonType::Mod => self.mods.push((addon, resolved)),
        }
    }

    /// The file names of the addons of kind `kind` that this lock file records, in order.
    pub fn addon_filenames(&self, kind: AddonType) -> (r: Vec<String>)
        ensures
            r.deep_view() == filenames_of(addons_of(*self, kind)),
    {
        let list = match kind {
            AddonType::Plugin => &self.plugins,
            AddonType::Mod => &self.mods,
        };
        let ghost lv = list@;
        let mut out: Vec<String> = Vec::new();
        let mut i: usize = 0;
        while i < list.len()
            invariant
                lv == list@,
                lv == addons_of(*self, kind),
                i <= lv.len(),
                out.deep_view() =~= filenames_of(lv.take(i as int)),
            decreases lv.len() - i,
        {
            let ghost before = out.deep_view();
            let f = list[i].1.filename.clone();
            out.push(f);
            proof {
                assert(out.deep_view() =~= before.push(lv[i as int].1.filename@));
                assert(lv.take(i + 1) =~= lv.take(i as int).push(lv[i as int]));
                assert(filenames_of(lv.take(i + 1)) =~= filenames_of(lv.take(i as int)).push(
                    lv[i as int].1.filename@,
                ));
            }
            i = i + 1;
        }
        assert(lv.take(lv.len() as int) =~= lv);
        out
    }

    /// The addon files of kind `kind` that the build recorded in this (the previous) lock
    /// file and that the new build did not produce (`produced`): the files to delete, each
    /// once.
    pub fn stale_addon_files(&self, kind: AddonType, produced: &Vec<String>) -> (r: Vec<String>)
        ensures
            forall|f: Seq<char>|
                #![trigger r.deep_view().contains(f)]
                r.deep_view().contains(f) <==> stale(
                    filenames_of(addons_of(*self, kind)),
                    produced.deep_view(),
                    f,
                ),
            forall|i: int, j: int|
                0 <= i < j < r.deep_view().len() ==> r.deep_view()[i] != r.deep_view()[j],
    {
        let previous = self.addon_filenames(kind);
        removed_files(&previous, produced)
    }

    /// Whether a build has addons of kind `kind` to process: the server lists some, or this
    /// (the previous) lock file records some to clean up.
    pub fn has_addon_work(&self, kind: AddonType, listed: usize) -> (r: bool)
        ensures
            r == (listed > 0 || addons_of(*self, kind).len() > 0),
    {
        let n = match kind {
            AddonType::Plugin => self.plugins.len(),
            AddonType::Mod => self.mods.len(),
        };
        listed > 0 || n > 0
    }
}

/// Whether a configuration file is copied again: always when forced; otherwise unless the
/// last build recorded it and its change time is known and not newer.
pub fn needs_bootstrap(force: bool, recorded: Option<u128>, modified: Option<u128>) -> (r: bool)
    ensures
        r == (force || match recorded {
            Some(t) => match modified {
                Some(m) => m > t,
                None => true,
            },
            None => true,
        }),
{
    if force {
        return true;
    }
    match recorded {
        Some(t) => match modified {
            Some(m) => m > t,
            None => true,
        },
        None => true,
    }
}

/// The change time that the last build recorded for `path`: that of its last record, as a
/// map built from the records in order keeps it.
pub fn recorded_date(files: &Vec<BootstrappedFile>, path: &str) -> (r: Option<u128>)
    ensures
        match r {
            Some(d) => exists|i: int|
                0 <= i < files@.len() && files@[i].path@ == path@ && files@[i].date == d && forall|j: int|
                    i < j < files@.len() ==> files@[j].path@ != path@,
            None => forall|j: int| 0 <= j < files@.len() ==> files@[j].path@ != path@,
        },
{
    let mut i: usize = files.len();
    while i > 0
        invariant
            i <= files@.len(),
            forall|j: int| i <= j < files@.len() ==> files@[j].path@ != path@,
        decreases i,
    {
        i = i - 1;
        if crate::strs::str_eq(files[i].path.as_str(), path) {
            return Some(files[i].date);
        }
    }
    None
}

/// Recording an addon puts its file name last among the recorded file names, after those
/// recorded before; a file that the new build produced is never among the stale ones.
pub proof fn lemma_recorded_file_kept(
    prev: Seq<Seq<char>>,
    l: Seq<(Downloadable, ResolvedFile)>,
    addon: Downloadable,
    resolved: ResolvedFile,
)
    ensures
        filenames_of(l.push((addon, resolved))) == filenames_of(l).push(resolved.filename@),
        !stale(prev, filenames_of(l.push((addon, resolved))), resolved.filename@),
{
    assert(filenames_of(l.push((addon, resolved))) =~= filenames_of(l).push(resolved.filename@));
    assert(filenames_of(l.push((addon, resolved)))[l.len() as int] == resolved.filename@);
}

} // verus!
