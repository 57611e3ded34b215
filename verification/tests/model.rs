use mcman::downloadable::{artifact, file_name_of_url, first, latest, Downloadable};
use mcman::hooks::{bool_true, hook_outcome, hook_step, stops_event, Hook, HookEvent, HookFailBehavior, HookOutcome, HookStep, HooksAPI};
use mcman::launcher::{ServerLauncher, StartupMethod};
use mcman::server::{
    default_stop_command, default_success_line, is_default_stop_command,
    is_default_success_line, MarkdownOptions, Network, Server, World,
};
use mcman::servertype::{
    buildtools, bungeecord, jar_for_choice, proxy_jar_for_choice, HangarPlatform, InstallMethod,
    ServerType, SoftwareType,
};
use mcman::sources::modrinth::{ModrinthStatus, ModrinthVersion, VersionType};
use mcman::strmap::StrMap;

fn s(x: &str) -> String {
    x.to_owned()
}

fn entries(m: &indexmap::IndexMap<String, String>) -> Vec<(String, String)> {
    m.iter().map(|(k, v)| (k.clone(), v.clone())).collect()
}

fn pairs(v: &[(&str, &str)]) -> Vec<(String, String)> {
    v.iter().map(|(a, b)| (s(a), s(b))).collect()
}

#[test]
fn downloadable_links_and_names() {
    let mr = Downloadable::Modrinth { id: s("sodium"), version: s("latest") };
    assert_eq!(mr.get_md_link(), "[sodium](https://modrinth.com/mod/sodium)");
    assert_eq!(mr.get_type_name(), "Modrinth");
    assert_eq!(mr.to_short_string(), "Modrinth:sodium");
    assert_eq!(mr.to_string(), mr.to_short_string());

    let url = Downloadable::Url { url: s("https://x.org/a/b.jar?t=1"), filename: None, desc: None };
    assert_eq!(url.get_md_link(), "Custom [URL](https://x.org/a/b.jar?t=1)");
    assert_eq!(url.to_short_string(), "URL");
    assert_eq!(url.url_filename().as_deref(), Some("b.jar"));

    let named = Downloadable::Url { url: s("https://x.org/a"), filename: Some(s("a.jar")), desc: None };
    assert_eq!(named.get_md_link(), "`a.jar` (Custom [URL](https://x.org/a))");
    assert_eq!(named.url_filename().as_deref(), Some("a.jar"));

    let jk = Downloadable::Jenkins { url: s("https://ci.x"), job: s("a/b"), build: s("latest"), artifact: s("first") };
    assert_eq!(jk.get_md_link(), "[a/b](https://ci.x/job/a/job/b)");
    assert_eq!(jk.to_short_string(), "Jenkins:a/b");

    let mv = Downloadable::Maven { url: s("https://m.org"), group: s("com.ex"), artifact: s("lib"), version: s("1"), filename: s("artifact") };
    assert_eq!(mv.get_md_link(), "[com/ex](https://m.org/com/ex)");
    assert_eq!(mv.to_short_string(), "Maven:com.ex.lib");

    let cr = Downloadable::CurseRinth { id: s("jei"), version: s("1") };
    assert_eq!(
        cr.get_md_link(),
        "`jei`<sup>[CF](https://www.curseforge.com/minecraft/mc-mods/jei) [CR](https://curserinth.kuylar.dev/mod/jei)</sup>"
    );
    assert_eq!((latest(), first(), artifact()), (s("latest"), s("first"), s("artifact")));
    assert_eq!(file_name_of_url("https://a/b/c.zip?x=/y"), "c.zip");
}

#[test]
fn downloadable_same_source() {
    let a = Downloadable::Modrinth { id: s("x"), version: s("1") };
    let b = Downloadable::Modrinth { id: s("x"), version: s("2") };
    let c = Downloadable::Modrinth { id: s("y"), version: s("1") };
    let g1 = Downloadable::GithubRelease { repo: s("r"), tag: s("1"), asset: s("a") };
    let g2 = Downloadable::GithubRelease { repo: s("r"), tag: s("2"), asset: s("a") };
    assert!(a.is_same_as(&b) && b.is_same_as(&a));
    assert!(!a.is_same_as(&c));
    assert!(g1.is_same_as(&g1.clone()));
    assert!(g1.is_same_as(&g2));
    let g3 = Downloadable::GithubRelease { repo: s("r"), tag: s("1"), asset: s("b") };
    assert!(!g1.is_same_as(&g3));
    let m1 = Downloadable::Maven { url: s("https://repo.x"), group: s("com.example"), artifact: s("lib"), version: s("1.0"), filename: s("artifact") };
    let m2 = Downloadable::Maven { url: s("https://repo.x"), group: s("com.example"), artifact: s("lib"), version: s("2.0"), filename: s("artifact") };
    let m3 = Downloadable::Maven { url: s("https://repo.x"), group: s("com.example"), artifact: s("other"), version: s("1.0"), filename: s("artifact") };
    assert!(m1.is_same_as(&m2));
    assert!(!m1.is_same_as(&m3));
    let j1 = Downloadable::Jenkins { url: s("https://ci"), job: s("j"), build: s("1"), artifact: s("first") };
    let j2 = Downloadable::Jenkins { url: s("https://ci"), job: s("j"), build: s("latest"), artifact: s("first") };
    assert!(j1.is_same_as(&j2));
    assert!(!a.is_same_as(&j1));
}

#[test]
fn downloadable_fields() {
    let g = Downloadable::GithubRelease { repo: s("o/r"), tag: s("v1"), asset: s("x.jar") };
    assert_eq!(
        entries(&g.fields_to_map()),
        pairs(&[("Type", "GithubRel"), ("Project/URL", "o/r"), ("Version/Release", "v1"), ("Asset/File", "x.jar")])
    );
    let u = Downloadable::Url { url: s("https://u"), filename: None, desc: None };
    assert_eq!(entries(&u.fields_to_map()), pairs(&[("Type", "URL"), ("Project/URL", "https://u"), ("Asset/File", "")]));
    let j = Downloadable::Jenkins { url: s("https://ci"), job: s("J"), build: s("5"), artifact: s("A") };
    assert_eq!(
        entries(&j.fields_to_map()),
        pairs(&[("Type", "Jenkins"), ("Project/URL", "J - (https://ci)"), ("Version/Release", "5"), ("Asset/File", "A")])
    );
}

#[test]
fn server_type_kinds() {
    let velocity = ServerType::PaperMC { project: s("velocity"), build: s("latest") };
    assert_eq!(velocity.get_software_type(), SoftwareType::Proxy);
    assert_eq!(ServerType::Fabric { loader: s("latest"), installer: s("latest") }.get_software_type(), SoftwareType::Modded);
    assert_eq!(ServerType::Vanilla {}.get_software_type(), SoftwareType::Normal);
    assert_eq!(ServerType::Downloadable { inner: bungeecord() }.get_software_type(), SoftwareType::Unknown);
    assert!(!ServerType::Vanilla {}.supports_eula_args());
    assert!(!ServerType::Forge { loader: s("1") }.supports_eula_args());
    assert!(ServerType::Paper {}.supports_eula_args());
    assert!(ServerType::Quilt { loader: s("1"), installer: s("1") }.is_modded());
    assert_eq!(velocity.get_modrinth_name(), Some(s("velocity")));
    assert_eq!(ServerType::Vanilla {}.get_modrinth_name(), None);
    assert_eq!(ServerType::BuildTools { software: s("spigot"), args: vec![] }.get_modrinth_name(), Some(s("spigot")));
    assert_eq!(velocity.get_hangar_platform(), Some(HangarPlatform::Velocity));
    assert_eq!(ServerType::Purpur { build: s("1") }.get_hangar_platform(), Some(HangarPlatform::Paper));
    let f = ServerType::Vanilla {}.get_hangar_versions_filter("1.20");
    assert_eq!(f.platform, None);
    assert_eq!(f.platform_version, None);
    let f = ServerType::Paper {}.get_hangar_versions_filter("1.20");
    assert_eq!(f.platform, Some(HangarPlatform::Paper));
    assert_eq!(f.platform_version, Some(s("1.20")));
}

#[test]
fn server_type_texts() {
    let p = ServerType::PaperMC { project: s("paper"), build: s("12") };
    assert_eq!(p.get_md_link(), "[PaperMC/paper](https://github.com/PaperMC/paper); build 12");
    assert_eq!(p.to_string(), "paper build 12");
    assert_eq!(ServerType::Fabric { loader: s("0.15"), installer: s("1") }.to_string(), "Fabric v0.15");
    assert_eq!(ServerType::BuildTools { software: s("craftbukkit"), args: vec![] }.to_string(), "(BuildTools) craftbukkit");
    assert_eq!(ServerType::Downloadable { inner: buildtools() }.to_string(), "Jenkins:BuildTools");
    assert_eq!(ServerType::Vanilla {}.get_md_link(), "Vanilla");
    assert_eq!(
        ServerType::Downloadable { inner: bungeecord() }.get_md_link(),
        "[BungeeCord](https://ci.md-5.net/job/BungeeCord)"
    );
}

#[test]
fn server_type_metadata() {
    let f = ServerType::Fabric { loader: s("latest"), installer: s("1.0") };
    assert_eq!(entries(&f.get_metadata()), pairs(&[("Loader", "*Latest*"), ("Installer", "`1.0`")]));
    let p = ServerType::Purpur { build: s("2000") };
    assert_eq!(entries(&p.get_metadata()), pairs(&[("Build", "`#2000`")]));
    let g = ServerType::Downloadable { inner: Downloadable::GithubRelease { repo: s("r"), tag: s("latest"), asset: s("first") } };
    assert_eq!(entries(&g.get_metadata()), pairs(&[("Release", "*Latest*")]));
    let j = ServerType::Downloadable { inner: Downloadable::Jenkins { url: s("u"), job: s("j"), build: s("7"), artifact: s("x") } };
    assert_eq!(entries(&j.get_metadata()), pairs(&[("Build", "`#7`"), ("Artifact", "`x`")]));
    assert!(ServerType::Vanilla {}.get_metadata().is_empty());
}

#[test]
fn modrinth_facets_are_json() {
    let paper = ServerType::Paper {};
    assert_eq!(paper.get_modrinth_facets("1.20.1").ok().unwrap(), r#"[["versions:1.20.1"],["categories:paper"]]"#);
    let velocity = ServerType::Velocity {};
    assert_eq!(velocity.get_modrinth_facets("1.20.1").ok().unwrap(), r#"[["categories:velocity"]]"#);
    assert_eq!(ServerType::Vanilla {}.get_modrinth_facets("1.8").ok().unwrap(), r#"[["versions:1.8"]]"#);
    assert_eq!(
        ServerType::Vanilla {}.get_modrinth_facets("a\"b\\\n\u{1}\u{1f}").ok().unwrap(),
        r#"[["versions:a\"b\\\n\u0001\u001f"]]"#
    );
}

#[test]
fn install_methods() {
    let q = ServerType::Quilt { loader: s("0.20"), installer: s("latest") };
    match q.get_install_method("1.20.1", "0.20.0") {
        InstallMethod::Installer { name, label, args, rename_from, jar_name } => {
            assert_eq!(name, "Quilt Server Installer");
            assert_eq!(label, "qsi");
            assert_eq!(args, vec!["install", "server", "1.20.1", "0.20", "--install-dir=.", "--download-server"]);
            assert_eq!(rename_from.as_deref(), Some("quilt-server-launch.jar"));
            assert_eq!(jar_name, "quilt-server-launch-1.20.1-0.20.0.jar");
        }
        InstallMethod::SingleJar => panic!("quilt uses an installer"),
    }
    let f = ServerType::Forge { loader: s("latest") };
    match f.get_install_method("1.20.1", "47.1.0") {
        InstallMethod::Installer { args, rename_from, jar_name, .. } => {
            assert_eq!(args, vec!["--installServer", "."]);
            assert_eq!(rename_from, None);
            assert_eq!(jar_name, "libraries/net/minecraftforge/forge/1.20.1-47.1.0/forge-1.20.1-47.1.0-server.jar");
        }
        InstallMethod::SingleJar => panic!("forge uses an installer"),
    }
    let bt = ServerType::BuildTools { software: s("craftbukkit"), args: vec![s("--x")] };
    match bt.get_install_method("1.19", "") {
        InstallMethod::Installer { args, jar_name, .. } => {
            assert_eq!(args, vec!["--compile", "craftbukkit", "--compile-if-changed", "--rev", "1.19", "--x"]);
            assert_eq!(jar_name, "craftbukkit-1.19.jar");
        }
        InstallMethod::SingleJar => panic!("buildtools uses an installer"),
    }
    assert!(matches!(ServerType::Paper {}.get_install_method("1", ""), InstallMethod::SingleJar));
    match (ServerType::NeoForge { loader: s("x") }).get_startup_method("1.20.4", "20.4.1", "server.jar") {
        StartupMethod::Custom { windows, linux } => {
            assert_eq!(windows, vec!["@libraries/net/neoforged/forge/1.20.4-20.4.1/win_args.txt"]);
            assert_eq!(linux, vec!["@libraries/net/neoforged/forge/1.20.4-20.4.1/unix_args.txt"]);
        }
        StartupMethod::Jar(_) => panic!("neoforge starts with argument files"),
    }
    assert!(matches!(ServerType::Paper {}.get_startup_method("1", "", "p.jar"), StartupMethod::Jar(j) if j == "p.jar"));
    assert!(matches!(jar_for_choice(3), None));
    assert!(matches!(proxy_jar_for_choice(2), ServerType::BungeeCord {}));
}

#[test]
fn launcher_arguments_and_scripts() {
    let mut l = ServerLauncher::default();
    l.aikars_flags = false;
    l.jvm_args = s(" -Dx=1  -Dy=2 ");
    l.memory = s("2G");
    l.game_args = s("--port 1");
    l.properties.insert(s("motd"), s("hello world"));
    l.properties.insert(s("k"), s("v"));
    let jar = StartupMethod::Jar(s("server.jar"));
    let args = l.get_arguments(&jar, "linux", None);
    assert_eq!(
        args,
        vec![
            "-Dx=1", "-Dy=2", "-Xms2G", "-Xmx2G", "-Dcom.mojang.eula.agree=true",
            "-Dmotd=\"hello world\"", "-Dk=v", "-jar", "server.jar", "--nogui", "--port", "1"
        ]
    );
    let env = l.get_arguments(&jar, "linux", Some("4G"));
    assert_eq!(&env[2..4], &[s("-Xms4G"), s("-Xmx4G")]);
    let custom = StartupMethod::Custom { windows: vec![s("@w")], linux: vec![s("@l")] };
    let mut plain = ServerLauncher::default();
    plain.aikars_flags = false;
    plain.nogui = false;
    plain.eula_args = false;
    assert_eq!(plain.get_arguments(&custom, "windows", None), vec!["@w"]);
    assert!(plain.get_arguments(&custom, "mac", None).is_empty());
    assert_eq!(
        plain.generate_script_linux("srv", &jar, None),
        "#!/bin/sh\n# generated by mcman\njava -jar server.jar \"$@\"\n"
    );
    assert_eq!(
        plain.generate_script_win("srv", &jar, None),
        "@echo off\r\n:: generated by mcman\r\ntitle srv\r\njava -jar server.jar %*\r\n"
    );
    let aikar = ServerLauncher::default().get_arguments(&jar, "linux", None);
    assert_eq!(aikar[0], "-XX:+UseG1GC");
    assert!(aikar.contains(&s("-Daikars.new.flags=true")));
}

fn version(id: &str, games: &[&str], loaders: &[&str]) -> ModrinthVersion {
    ModrinthVersion {
        name: s(id),
        version_number: format!("v{id}"),
        changelog: s(""),
        dependencies: vec![],
        game_versions: games.iter().map(|g| s(g)).collect(),
        version_type: VersionType::Release,
        loaders: loaders.iter().map(|g| s(g)).collect(),
        featured: false,
        status: ModrinthStatus::Listed,
        requested_status: None,
        id: s(id),
        project_id: s("p"),
        author_id: s("a"),
        date_published: s(""),
        downloads: 0,
        files: vec![],
    }
}

#[test]
fn server_defaults_and_maps() {
    let mut srv = Server::default();
    assert_eq!(srv.mc_version, "latest");
    assert_eq!(srv.variables.get("PORT").map(|v| v.as_str()), Some("25565"));
    assert_eq!(srv.markdown.files, vec!["README.md"]);
    assert!(!MarkdownOptions::default().is_empty());
    assert!(srv.launcher.aikars_flags && srv.launcher.nogui && srv.launcher.eula_args);
    srv.mc_version = s("1.20.1");
    srv.jar = ServerType::Fabric { loader: s("0.15"), installer: s("1.0") };
    let m = srv.to_map(true);
    assert_eq!(m.entry_at(0).0, "minecraft");
    assert_eq!(m.get("fabric-loader").map(|v| v.as_str()), Some("0.15"));
    let mut other = Server::default();
    other.fill_from_map(&m);
    assert_eq!(other.mc_version, "1.20.1");
    assert!(matches!(&other.jar, ServerType::Fabric { loader, installer } if loader == "0.15" && installer == "latest"));
    let mut vanilla = Server::default();
    vanilla.mc_version = s("1.8");
    let vm = vanilla.to_map(false);
    assert_eq!(vm.len(), 1);
    let mut q = StrMap::new();
    q.insert(s("quilt"), s("0.1"));
    q.insert(s("forge"), s("47"));
    let mut t = Server::default();
    t.fill_from_map(&q);
    assert!(matches!(&t.jar, ServerType::Quilt { loader, .. } if loader == "0.1"));
    assert_eq!(t.mc_version, "latest");
    assert_eq!(t.format_var("mcver"), Some(s("latest")));
    assert_eq!(t.format_var("SERVER_NAME"), Some(s("")));
    assert_eq!(t.format_var("PORT"), Some(s("25565")));
    assert_eq!(t.format_var("nope"), None);
}

#[test]
fn server_filters_versions() {
    let mut srv = Server::default();
    srv.mc_version = s("1.20.1");
    srv.jar = ServerType::Quilt { loader: s("l"), installer: s("i") };
    let list = vec![
        version("a", &["1.20.1"], &["fabric"]),
        version("b", &["1.19"], &["quilt"]),
        version("c", &["1.20.1"], &["forge"]),
        version("d", &["1.20.1"], &["datapack"]),
    ];
    let kept: Vec<String> = srv.filter_modrinth_versions(&list).into_iter().map(|v| v.id).collect();
    assert_eq!(kept, vec!["a", "d"]);
    srv.jar = ServerType::Velocity {};
    let kept: Vec<String> = srv.filter_modrinth_versions(&list).into_iter().map(|v| v.id).collect();
    assert_eq!(kept, vec!["d"]);
    srv.jar = ServerType::Vanilla {};
    let kept: Vec<String> = srv.filter_modrinth_versions(&list).into_iter().map(|v| v.id).collect();
    assert_eq!(kept, vec!["d"]);
    srv.jar = ServerType::Downloadable { inner: bungeecord() };
    let kept: Vec<String> = srv.filter_modrinth_versions(&list).into_iter().map(|v| v.id).collect();
    assert_eq!(kept, vec!["a", "c", "d"]);
}

#[test]
fn server_worlds_and_datapacks() {
    let mut srv = Server::default();
    let choices = srv.world_choices();
    assert_eq!(choices, vec![(s("+"), s("+ New world entry"))]);
    let dp = Downloadable::Modrinth { id: s("dp"), version: s("1") };
    assert_eq!(srv.add_datapack_to(s("world"), dp.clone()), "world");
    srv.add_datapack_to(s("world"), Downloadable::Modrinth { id: s("dp2"), version: s("1") });
    assert_eq!(srv.worlds.len(), 1);
    let w: &World = srv.worlds.get("world").unwrap();
    assert_eq!(w.datapacks.len(), 2);
    assert!(w.datapacks[0].is_same_as(&dp));
    assert_eq!(srv.world_choices()[0], (s("world"), s("world")));
    let nw = Network::default();
    assert_eq!((nw.proxy.as_str(), nw.port), ("proxy", 25565));
}

#[test]
fn default_lines() {
    assert_eq!(default_success_line(), "]: Done");
    assert!(is_default_success_line(&default_success_line()));
    assert!(!is_default_success_line("Done"));
    assert_eq!(default_stop_command(), "stop");
    assert!(is_default_stop_command(&default_stop_command()));
    assert!(!is_default_stop_command("end"));
}

#[test]
fn hooks_selection() {
    let mut server_hooks: StrMap<Hook> = StrMap::new();
    let mut h = Hook::default();
    h.when = HookEvent::PostBuild;
    h.linux = Some(s("post.sh"));
    server_hooks.insert(s("post"), h);
    let mut off = Hook::default();
    off.when = HookEvent::PostBuild;
    off.disabled = true;
    server_hooks.insert(s("off"), off);
    let mut net: StrMap<Hook> = StrMap::new();
    let mut n = Hook::default();
    n.when = HookEvent::PostBuild;
    net.insert(s("nethook"), n);
    let api = HooksAPI { server_hooks: &server_hooks, network_hooks: Some(&net) };
    assert_eq!(api.hooks_for(HookEvent::PostBuild), vec!["post", "nethook"]);
    assert!(api.hooks_for(HookEvent::PreBuild).is_empty());
    assert_eq!(api.resolve_filename("post", "unix"), "post.sh");
    assert_eq!(api.resolve_filename("post", "windows"), "post");
    assert_eq!(api.resolve_filename("nethook", "unix"), "nethook");
    assert_eq!(hook_outcome(true, HookFailBehavior::Error), HookOutcome::Succeeded);
    assert_eq!(hook_outcome(false, HookFailBehavior::Warn), HookOutcome::Warned);
    assert_eq!(hook_outcome(false, HookFailBehavior::Ignore), HookOutcome::Ignored);
    assert_eq!(hook_outcome(false, HookFailBehavior::Error), HookOutcome::Failed);
    assert!(bool_true());
    assert_eq!(api.hook_path("srv", "post", "unix"), "srv/hooks/post.sh");
    assert_eq!(api.hook_path("srv/", "nethook", "windows"), "srv/hooks/nethook");
    assert_eq!(hook_step(false, true, HookFailBehavior::Error), HookStep::NotFound);
    assert_eq!(hook_step(true, false, HookFailBehavior::Warn), HookStep::Ran(HookOutcome::Warned));
    assert!(!stops_event(hook_step(false, false, HookFailBehavior::Error)));
    assert!(!stops_event(hook_step(true, false, HookFailBehavior::Ignore)));
    assert!(stops_event(hook_step(true, false, HookFailBehavior::Error)));
    assert!(!stops_event(hook_step(true, true, HookFailBehavior::Error)));
}
