//! How a server is started: the java command line and the start scripts built from it.
use vstd::prelude::*;
use vstd::string::*;
use crate::strmap::StrMap;
use crate::strs::{
    cat2, cat3, clone_strings, has_ws, has_whitespace, join, joined, split_at_whitespace,
    split_words, str_eq, words, ws_pieces, ws_free, lemma_ws_pieces_joined,
};

verus! {

/// How the java process is pointed at the server.
pub enum StartupMethod {
    /// `-jar` with the given jar file.
    Jar(String),
    /// Arguments of their own, one list per platform.
    Custom { windows: Vec<String>, linux: Vec<String> },
}

/// A `StartupMethod` with its strings seen as character sequences.
pub enum StartupView {
    Jar(Seq<char>),
    Custom { windows: Seq<Seq<char>>, linux: Seq<Seq<char>> },
}

impl View for StartupMethod {
    type V = StartupView;

    open spec fn view(&self) -> StartupView {
        match self {
            StartupMethod::Jar(j) => StartupView::Jar(j@),
            StartupMethod::Custom { windows, linux } => StartupView::Custom {
                windows: windows.deep_view(),
                linux: linux.deep_view(),
            },
        }
    }
}

impl Clone for StartupMethod {
    fn clone(&self) -> (r: Self)
        ensures
            r@ == self@,
    {
        match self {
            StartupMethod::Jar(j) => StartupMethod::Jar(j.clone()),
            StartupMethod::Custom { windows, linux } => StartupMethod::Custom {
                windows: clone_strings(windows),
                linux: clone_strings(linux),
            },
        }
    }
}

/// The options of the java command line that starts a server.
pub struct ServerLauncher {
    pub aikars_flags: bool,
    pub proxy_flags: bool,
    pub nogui: bool,
    pub disable: bool,
    pub jvm_args: String,
    pub game_args: String,
    pub eula_args: bool,
    pub memory: String,
    /// System properties, passed as `-Dkey=value` in this order.
    pub properties: StrMap<String>,
}

/// The garbage-collector flags tuned for game servers, as one line.
pub open spec fn aikars_flag_text() -> Seq<char> {
    "-XX:+UseG1GC -XX:+ParallelRefProcEnabled -XX:MaxGCPauseMillis=200 -XX:+UnlockExperimentalVMOptions -XX:+DisableExplicitGC -XX:+AlwaysPreTouch -XX:G1NewSizePercent=30 -XX:G1MaxNewSizePercent=40 -XX:G1HeapRegionSize=8M -XX:G1ReservePercent=20 -XX:G1HeapWastePercent=5 -XX:G1MixedGCCountTarget=4 -XX:InitiatingHeapOccupancyPercent=15 -XX:G1MixedGCLiveThresholdPercent=90 -XX:G1RSetUpdatingPauseTimePercent=5 -XX:SurvivorRatio=32 -XX:+PerfDisableSharedMem -XX:MaxTenuringThreshold=1 -Dusing.aikars.flags=https://mcflags.emc.gs -Daikars.new.flags=true"@
}

/// The flags tuned for proxies, as one line.
pub open spec fn proxy_flag_text() -> Seq<char> {
    "-XX:+UseG1GC -XX:G1HeapRegionSize=4M -XX:+UnlockExperimentalVMOptions -XX:+ParallelRefProcEnabled -XX:+AlwaysPreTouch -XX:MaxInlineLevel=15"@
}

fn aikars_flags() -> (r: &'static str)
    ensures
        r@ == aikars_flag_text(),
{
    "-XX:+UseG1GC -XX:+ParallelRefProcEnabled -XX:MaxGCPauseMillis=200 -XX:+UnlockExperimentalVMOptions -XX:+DisableExplicitGC -XX:+AlwaysPreTouch -XX:G1NewSizePercent=30 -XX:G1MaxNewSizePercent=40 -XX:G1HeapRegionSize=8M -XX:G1ReservePercent=20 -XX:G1HeapWastePercent=5 -XX:G1MixedGCCountTarget=4 -XX:InitiatingHeapOccupancyPercent=15 -XX:G1MixedGCLiveThresholdPercent=90 -XX:G1RSetUpdatingPauseTimePercent=5 -XX:SurvivorRatio=32 -XX:+PerfDisableSharedMem -XX:MaxTenuringThreshold=1 -Dusing.aikars.flags=https://mcflags.emc.gs -Daikars.new.flags=true"
}

fn proxy_flags() -> (r: &'static str)
    ensures
        r@ == proxy_flag_text(),
{
    "-XX:+UseG1GC -XX:G1HeapRegionSize=4M -XX:+UnlockExperimentalVMOptions -XX:+ParallelRefProcEnabled -XX:+AlwaysPreTouch -XX:MaxInlineLevel=15"
}

/// The `-D` argument that sets property `k` to `v`; a value holding white space is quoted.
pub open spec fn property_arg(k: Seq<char>, v: Seq<char>) -> Seq<char> {
    let shown = if has_ws(v) {
        "\""@ + v + "\""@
    } else {
        v
    };
    "-D"@ + k + "="@ + shown
}

/// The `-D` arguments of a list of properties, in its order.
pub open spec fn property_args(ps: Seq<(String, String)>) -> Seq<Seq<char>> {
    ps.map_values(|e: (String, String)| property_arg(e.0@, e.1@))
}

/// The memory size in effect: the one from the environment, else the configured one.
pub open spec fn memory_args(env_memory: Option<Seq<char>>, memory: Seq<char>) -> Seq<Seq<char>> {
    match env_memory {
        Some(m) => seq!["-Xms"@ + m, "-Xmx"@ + m],
        None => if memory.len() > 0 {
            seq!["-Xms"@ + memory, "-Xmx"@ + memory]
        } else {
            Seq::<Seq<char>>::empty()
        },
    }
}

/// The arguments that name what java runs, on `platform`.
pub open spec fn startup_args(s: StartupView, platform: Seq<char>) -> Seq<Seq<char>> {
    match s {
        StartupView::Jar(j) => seq!["-jar"@, j],
        StartupView::Custom { windows, linux } => if platform == "linux"@ {
            linux
        } else if platform == "windows"@ {
            windows
        } else {
            Seq::<Seq<char>>::empty()
        },
    }
}

/// `xs` when `b` holds, else nothing.
pub open spec fn when(b: bool, xs: Seq<Seq<char>>) -> Seq<Seq<char>> {
    if b {
        xs
    } else {
        Seq::<Seq<char>>::empty()
    }
}

/// The java arguments of a launcher, in order: the JVM arguments, the memory size, the
/// flag sets, the EULA property, the properties, the startup arguments, `--nogui` and the
/// game arguments.
pub open spec fn launch_args(
    l: ServerLauncher,
    startup: StartupView,
    platform: Seq<char>,
    env_memory: Option<Seq<char>>,
) -> Seq<Seq<char>> {
    words(l.jvm_args@) + memory_args(env_memory, l.memory@) + when(
        l.aikars_flags,
        ws_pieces(aikars_flag_text()),
    ) + when(l.proxy_flags, ws_pieces(proxy_flag_text())) + when(
        l.eula_args,
        seq!["-Dcom.mojang.eula.agree=true"@],
    ) + property_args(l.properties@) + startup_args(startup, platform) + when(
        l.nogui,
        seq!["--nogui"@],
    ) + words(l.game_args@)
}

/// The text of the POSIX start script.
pub open spec fn linux_script(args: Seq<Seq<char>>) -> Seq<char> {
    "#!/bin/sh\n# generated by mcman\njava "@ + joined(args, " "@) + " \"$@\"\n"@
}

/// The text of the Windows start script.
pub open spec fn windows_script(servername: Seq<char>, args: Seq<Seq<char>>) -> Seq<char> {
    "@echo off\r\n:: generated by mcman\r\ntitle "@ + servername + "\r\njava "@ + joined(
        args,
        " "@,
    ) + " %*\r\n"@
}

fn append_all(out: &mut Vec<String>, xs: Vec<String>)
    ensures
        final(out).deep_view() == old(out).deep_view() + xs.deep_view(),
{
    let mut xs = xs;
    let ghost start = out.deep_view();
    let ghost xv = xs.deep_view();
    let mut i: usize = 0;
    while i < xs.len()
        invariant
            i <= xs.len(),
            xv == xs.deep_view(),
            out.deep_view() =~= start + xv.take(i as int),
        decreases xs.len() - i,
    {
        let ghost before = out.deep_view();
        out.push(xs[i].clone());
        proof {
            assert(out.deep_view() =~= before.push(xv[i as int]));
            assert(xv.take(i + 1) =~= xv.take(i as int).push(xv[i as int]));
        }
        i = i + 1;
    }
    assert(xv.take(xs.len() as int) =~= xv);
}

fn quoted_property(k: &str, v: &str) -> (r: String)
    ensures
        r@ == property_arg(k@, v@),
{
    let mut r = cat3("-D", k, "=");
    if has_whitespace(v) {
        r.append("\"");
        r.append(v);
        r.append("\"");
    } else {
        r.append(v);
    }
    r
}

impl ServerLauncher {
    /// The java arguments for `startup` on `platform` (`"linux"` or `"windows"`), given the
    /// memory size that the environment sets, if it sets one.
    pub fn get_arguments(
        &self,
        startup: &StartupMethod,
        platform: &str,
        env_memory: Option<&str>,
    ) -> (r: Vec<String>)
        ensures
            r.deep_view() == launch_args(
                *self,
                startup@,
                platform@,
                match env_memory {
                    Some(m) => Some(m@),
                    None => None,
                },
            ),
    {
        let ghost envm = match env_memory {
            Some(m) => Some(m@),
            None => None,
        };
        let mut args: Vec<String> = Vec::new();
        append_all(&mut args, split_words(self.jvm_args.as_str()));
        let ghost a0 = args.deep_view();
        match env_memory {
            Some(m) => {
                args.push(cat2("-Xms", m));
                args.push(cat2("-Xmx", m));
            },
            None => {
                if self.memory.as_str().unicode_len() > 0 {
                    args.push(cat2("-Xms", self.memory.as_str()));
                    args.push(cat2("-Xmx", self.memory.as_str()));
                }
            },
        }
        assert(args.deep_view() =~= a0 + memory_args(envm, self.memory@));
        let ghost a1 = args.deep_view();
        if self.aikars_flags {
            append_all(&mut args, split_at_whitespace(aikars_flags()));
        }
        assert(args.deep_view() =~= a1 + when(self.aikars_flags, ws_pieces(aikars_flag_text())));
        let ghost a2 = args.deep_view();
        if self.proxy_flags {
            append_all(&mut args, split_at_whitespace(proxy_flags()));
        }
        assert(args.deep_view() =~= a2 + when(self.proxy_flags, ws_pieces(proxy_flag_text())));
        let ghost a3 = args.deep_view();
        if self.eula_args {
            args.push("-Dcom.mojang.eula.agree=true".to_owned());
        }
        assert(args.deep_view() =~= a3 + when(self.eula_args, seq!["-Dcom.mojang.eula.agree=true"@]));
        let ghost a4 = args.deep_view();
        let ghost ps = self.properties@;
        let mut i: usize = 0;
        while i < self.properties.len()
            invariant
                ps == self.properties@,
                i <= ps.len(),
                args.deep_view() =~= a4 + property_args(ps.take(i as int)),
            decreases ps.len() - i,
        {
            let (k, v) = self.properties.entry_at(i);
            let ghost before = args.deep_view();
            let arg = quoted_property(k.as_str(), v.as_str());
            args.push(arg);
            proof {
                assert(args.deep_view() =~= before.push(arg@));
                assert(ps.take(i + 1) =~= ps.take(i as int).push(ps[i as int]));
                assert(property_args(ps.take(i + 1)) =~= property_args(ps.take(i as int)).push(
                    property_arg(ps[i as int].0@, ps[i as int].1@),
                ));
            }
            i = i + 1;
        }
        assert(ps.take(ps.len() as int) =~= ps);
        let ghost a5 = args.deep_view();
        match startup {
            StartupMethod::Jar(jar) => {
                args.push("-jar".to_owned());
                args.push(jar.clone());
            },
            StartupMethod::Custom { linux, windows } => {
                if str_eq(platform, "linux") {
                    append_all(&mut args, clone_strings(linux));
                } else if str_eq(platform, "windows") {
                    append_all(&mut args, clone_strings(windows));
                }
            },
        }
        assert(args.deep_view() =~= a5 + startup_args(startup@, platform@));
        let ghost a6 = args.deep_view();
        if self.nogui {
            args.push("--nogui".to_owned());
        }
        assert(args.deep_view() =~= a6 + when(self.nogui, seq!["--nogui"@]));
        append_all(&mut args, split_words(self.game_args.as_str()));
        args
    }

    /// The POSIX shell script that starts the server.
    pub fn generate_script_linux(
        &self,
        _servername: &str,
        startup: &StartupMethod,
        env_memory: Option<&str>,
    ) -> (r: String)
        ensures
            r@ == linux_script(
                launch_args(
                    *self,
                    startup@,
                    "linux"@,
                    match env_memory {
                        Some(m) => Some(m@),
                        None => None,
                    },
                ),
            ),
    {
        let args = self.get_arguments(startup, "linux", env_memory);
        let mut r = "#!/bin/sh\n# generated by mcman\njava ".to_owned();
        r.append(join(&args, " ").as_str());
        r.append(" \"$@\"\n");
        r
    }

    /// The Windows batch script that starts the server.
    pub fn generate_script_win(
        &self,
        servername: &str,
        startup: &StartupMethod,
        env_memory: Option<&str>,
    ) -> (r: String)
        ensures
            r@ == windows_script(
                servername@,
                launch_args(
                    *self,
                    startup@,
                    "windows"@,
                    match env_memory {
                        Some(m) => Some(m@),
                        None => None,
                    },
                ),
            ),
    {
        let args = self.get_arguments(startup, "windows", env_memory);
        let mut r = "@echo off\r\n:: generated by mcman\r\ntitle ".to_owned();
        r.append(servername);
        r.append("\r\njava ");
        r.append(join(&args, " ").as_str());
        r.append(" %*\r\n");
        r
    }
}

/// The launcher options used when none are given: Aikar's flags, no GUI, the EULA accepted
/// on the command line, and nothing else.
pub open spec fn default_launcher(l: ServerLauncher) -> bool {
    &&& !l.disable
    &&& l.jvm_args@ == Seq::<char>::empty()
    &&& l.game_args@ == Seq::<char>::empty()
    &&& l.aikars_flags
    &&& !l.proxy_flags
    &&& l.nogui
    &&& l.eula_args
    &&& l.memory@ == Seq::<char>::empty()
    &&& l.properties@ == Seq::<(String, String)>::empty()
}

impl Default for ServerLauncher {
    fn default() -> (r: Self)
        ensures
            default_launcher(r),
    {
        ServerLauncher {
            disable: false,
            jvm_args: String::new(),
            game_args: String::new(),
            aikars_flags: true,
            proxy_flags: false,
            nogui: true,
            eula_args: true,
            memory: String::new(),
            properties: StrMap::new(),
        }
    }
}

/// The proxy flag set, word by word.
proof fn lemma_proxy_flag_words()
    ensures
        ws_pieces(proxy_flag_text()) == seq![
            "-XX:+UseG1GC"@,
            "-XX:G1HeapRegionSize=4M"@,
            "-XX:+UnlockExperimentalVMOptions"@,
            "-XX:+ParallelRefProcEnabled"@,
            "-XX:+AlwaysPreTouch"@,
            "-XX:MaxInlineLevel=15"@,
        ],
{
    let ws = seq![
        "-XX:+UseG1GC"@,
        "-XX:G1HeapRegionSize=4M"@,
        "-XX:+UnlockExperimentalVMOptions"@,
        "-XX:+ParallelRefProcEnabled"@,
        "-XX:+AlwaysPreTouch"@,
        "-XX:MaxInlineLevel=15"@,
    ];
    reveal_strlit("-XX:+UseG1GC -XX:G1HeapRegionSize=4M -XX:+UnlockExperimentalVMOptions -XX:+ParallelRefProcEnabled -XX:+AlwaysPreTouch -XX:MaxInlineLevel=15");
    reveal_strlit("-XX:+UseG1GC");
    reveal_strlit("-XX:G1HeapRegionSize=4M");
    reveal_strlit("-XX:+UnlockExperimentalVMOptions");
    reveal_strlit("-XX:+ParallelRefProcEnabled");
    reveal_strlit("-XX:+AlwaysPreTouch");
    reveal_strlit("-XX:MaxInlineLevel=15");
    assert forall|i: int| 0 <= i < ws.len() implies ws_free(#[trigger] ws[i]) by {}
    reveal_with_fuel(joined, 7);
    assert(proxy_flag_text() =~= joined(ws, seq![' ']));
    lemma_ws_pieces_joined(ws);
}

/// With the proxy flags on, the arguments that follow the JVM arguments, the memory size and
/// Aikar's flags (when those are on too) are exactly the proxy flag set; with Aikar's flags
/// off, the proxy flags come right after the memory size.
pub proof fn lemma_proxy_flag_args(
    l: ServerLauncher,
    startup: StartupView,
    platform: Seq<char>,
    env_memory: Option<Seq<char>>,
)
    requires
        l.proxy_flags,
    ensures
        ({
            let k = words(l.jvm_args@).len() + memory_args(env_memory, l.memory@).len() + if l.aikars_flags {
                ws_pieces(aikars_flag_text()).len()
            } else {
                0
            };
            launch_args(l, startup, platform, env_memory).subrange(k as int, k + 6int) == seq![
                "-XX:+UseG1GC"@,
                "-XX:G1HeapRegionSize=4M"@,
                "-XX:+UnlockExperimentalVMOptions"@,
                "-XX:+ParallelRefProcEnabled"@,
                "-XX:+AlwaysPreTouch"@,
                "-XX:MaxInlineLevel=15"@,
            ]
        }),
{
    lemma_proxy_flag_words();
    let a = words(l.jvm_args@) + memory_args(env_memory, l.memory@) + when(
        l.aikars_flags,
        ws_pieces(aikars_flag_text()),
    );
    let p = ws_pieces(proxy_flag_text());
    let rest = when(l.eula_args, seq!["-Dcom.mojang.eula.agree=true"@]) + property_args(
        l.properties@,
    ) + startup_args(startup, platform) + when(l.nogui, seq!["--nogui"@]) + words(l.game_args@);
    assert(launch_args(l, startup, platform, env_memory) =~= a + p + rest);
    assert((a + p + rest).subrange(a.len() as int, a.len() + 6int) =~= p);
}

/// Aikar's flag set, word by word.
proof fn lemma_aikars_flag_words()
    ensures
        ws_pieces(aikars_flag_text()) == seq![
        "-XX:+UseG1GC"@,
        "-XX:+ParallelRefProcEnabled"@,
        "-XX:MaxGCPauseMillis=200"@,
        "-XX:+UnlockExperimentalVMOptions"@,
        "-XX:+DisableExplicitGC"@,
        "-XX:+AlwaysPreTouch"@,
        "-XX:G1NewSizePercent=30"@,
        "-XX:G1MaxNewSizePercent=40"@,
        "-XX:G1HeapRegionSize=8M"@,
        "-XX:G1ReservePercent=20"@,
        "-XX:G1HeapWastePercent=5"@,
        "-XX:G1MixedGCCountTarget=4"@,
        "-XX:InitiatingHeapOccupancyPercent=15"@,
        "-XX:G1MixedGCLiveThresholdPercent=90"@,
        "-XX:G1RSetUpdatingPauseTimePercent=5"@,
        "-XX:SurvivorRatio=32"@,
        "-XX:+PerfDisableSharedMem"@,
        "-XX:MaxTenuringThreshold=1"@,
        "-Dusing.aikars.flags=https://mcflags.emc.gs"@,
        "-Daikars.new.flags=true"@,
        ],
{
    let ws = seq![
        "-XX:+UseG1GC"@,
        "-XX:+ParallelRefProcEnabled"@,
        "-XX:MaxGCPauseMillis=200"@,
        "-XX:+UnlockExperimentalVMOptions"@,
        "-XX:+DisableExplicitGC"@,
        "-XX:+AlwaysPreTouch"@,
        "-XX:G1NewSizePercent=30"@,
        "-XX:G1MaxNewSizePercent=40"@,
        "-XX:G1HeapRegionSize=8M"@,
        "-XX:G1ReservePercent=20"@,
        "-XX:G1HeapWastePercent=5"@,
        "-XX:G1MixedGCCountTarget=4"@,
        "-XX:InitiatingHeapOccupancyPercent=15"@,
        "-XX:G1MixedGCLiveThresholdPercent=90"@,
        "-XX:G1RSetUpdatingPauseTimePercent=5"@,
        "-XX:SurvivorRatio=32"@,
        "-XX:+PerfDisableSharedMem"@,
        "-XX:MaxTenuringThreshold=1"@,
        "-Dusing.aikars.flags=https://mcflags.emc.gs"@,
        "-Daikars.new.flags=true"@,
    ];
    reveal_strlit("-XX:+UseG1GC -XX:+ParallelRefProcEnabled -XX:MaxGCPauseMillis=200 -XX:+UnlockExperimentalVMOptions -XX:+DisableExplicitGC -XX:+AlwaysPreTouch -XX:G1NewSizePercent=30 -XX:G1MaxNewSizePercent=40 -XX:G1HeapRegionSize=8M -XX:G1ReservePercent=20 -XX:G1HeapWastePercent=5 -XX:G1MixedGCCountTarget=4 -XX:InitiatingHeapOccupancyPercent=15 -XX:G1MixedGCLiveThresholdPercent=90 -XX:G1RSetUpdatingPauseTimePercent=5 -XX:SurvivorRatio=32 -XX:+PerfDisableSharedMem -XX:MaxTenuringThreshold=1 -Dusing.aikars.flags=https://mcflags.emc.gs -Daikars.new.flags=true");
    reveal_strlit("-XX:+AlwaysPreTouch");
    reveal_strlit("-XX:G1MaxNewSizePercent=40");
    reveal_strlit("-Dusing.aikars.flags=https://mcflags.emc.gs");
    reveal_strlit("-XX:G1MixedGCLiveThresholdPercent=90");
    reveal_strlit("-XX:+UseG1GC");
    reveal_strlit("-XX:+UnlockExperimentalVMOptions");
    reveal_strlit("-XX:+ParallelRefProcEnabled");
    reveal_strlit("-XX:MaxGCPauseMillis=200");
    reveal_strlit("-XX:+DisableExplicitGC");
    reveal_strlit("-XX:G1MixedGCCountTarget=4");
    reveal_strlit("-XX:G1HeapWastePercent=5");
    reveal_strlit("-XX:SurvivorRatio=32");
    reveal_strlit("-XX:G1ReservePercent=20");
    reveal_strlit("-XX:G1RSetUpdatingPauseTimePercent=5");
    reveal_strlit("-XX:G1HeapRegionSize=8M");
    reveal_strlit("-XX:MaxTenuringThreshold=1");
    reveal_strlit("-XX:+PerfDisableSharedMem");
    reveal_strlit("-XX:G1NewSizePercent=30");
    reveal_strlit("-XX:InitiatingHeapOccupancyPercent=15");
    reveal_strlit("-Daikars.new.flags=true");
    assert forall|i: int| 0 <= i < ws.len() implies ws_free(#[trigger] ws[i]) by {}
    reveal_with_fuel(joined, 21);
    assert(aikars_flag_text() =~= joined(ws, seq![' ']));
    lemma_ws_pieces_joined(ws);
}

/// With Aikar's flags on, the arguments that follow the JVM arguments and the memory size are
/// exactly Aikar's flag set (20 arguments, ending with `-Daikars.new.flags=true`).
pub proof fn lemma_aikars_flag_args(
    l: ServerLauncher,
    startup: StartupView,
    platform: Seq<char>,
    env_memory: Option<Seq<char>>,
)
    requires
        l.aikars_flags,
    ensures
        ({
            let k = words(l.jvm_args@).len() + memory_args(env_memory, l.memory@).len();
            launch_args(l, startup, platform, env_memory).subrange(k as int, k + 20int) == seq![
                "-XX:+UseG1GC"@,
                "-XX:+ParallelRefProcEnabled"@,
                "-XX:MaxGCPauseMillis=200"@,
                "-XX:+UnlockExperimentalVMOptions"@,
                "-XX:+DisableExplicitGC"@,
                "-XX:+AlwaysPreTouch"@,
                "-XX:G1NewSizePercent=30"@,
                "-XX:G1MaxNewSizePercent=40"@,
                "-XX:G1HeapRegionSize=8M"@,
                "-XX:G1ReservePercent=20"@,
                "-XX:G1HeapWastePercent=5"@,
                "-XX:G1MixedGCCountTarget=4"@,
                "-XX:InitiatingHeapOccupancyPercent=15"@,
                "-XX:G1MixedGCLiveThresholdPercent=90"@,
                "-XX:G1RSetUpdatingPauseTimePercent=5"@,
                "-XX:SurvivorRatio=32"@,
                "-XX:+PerfDisableSharedMem"@,
                "-XX:MaxTenuringThreshold=1"@,
                "-Dusing.aikars.flags=https://mcflags.emc.gs"@,
                "-Daikars.new.flags=true"@,
            ]
        }),
{
    lemma_aikars_flag_words();
    let a = words(l.jvm_args@) + memory_args(env_memory, l.memory@);
    let f = ws_pieces(aikars_flag_text());
    let rest = when(l.proxy_flags, ws_pieces(proxy_flag_text())) + when(
        l.eula_args,
        seq!["-Dcom.mojang.eula.agree=true"@],
    ) + property_args(l.properties@) + startup_args(startup, platform) + when(
        l.nogui,
        seq!["--nogui"@],
    ) + words(l.game_args@);
    assert(launch_args(l, startup, platform, env_memory) =~= a + f + rest);
    assert((a + f + rest).subrange(a.len() as int, a.len() + 20int) =~= f);
}

} // verus!
