use mcman::downloadable::Downloadable;
use mcman::import_url::{
    asset_choices, curserinth_version_choices, find_modrinth_number, import_candidates,
    infer_job, modrinth_version_choices, other_url_choices, plan_import, release_choices,
    segments_of, tag_for_choice, url_source, ImportError, ImportPlan, VersionPick,
};
use mcman::markdown::{
    describe_addon, describe_world_download, fetch_downloadable_info, get_template_ids, init_network_readme, replace_block,
    world_download_info, MarkdownAPI, ProjectInfo,
};
use mcman::packwiz::{
    curserinth_pw_mod, hash_format_of, hash_name, local_pack_file, remote_pack_file, config_export_paths, modrinth_pw_mod, url_pw_mod, CurseforgeModUpdate,
    DownloadMode, FromPwMod, HashFormat, ModDownload, ModOption, ModUpdate, PackFile, PackImport,
    PackwizInterop, ProjectSummary, PwError, PwExport, PwMod, Side, SideSupport,
};
use mcman::server::Server;
use mcman::servertype::ServerType;
use mcman::sources::curserinth::{curserinth_versions_url, CurseRinthVersion};
use mcman::sources::fabric::{fabric_filename, quilt_filename};
use mcman::sources::github::{
    is_first_asset, pick_asset, pick_release, ratelimit_wait, release_download_url, releases_url, GithubAsset, GithubRelease,
};
use mcman::sources::jenkins::{artifact_url, job_api_url, pick_artifact, pick_jenkins_build, str_process_job, JenkinsArtifact, JenkinsBuild};
use mcman::sources::modrinth::{
    modrinth_versions_url, pick_file, ModrinthFile, ModrinthStatus, ModrinthVersion, PickError,
    VersionType,
};
use mcman::sources::papermc::{download_url, papermc_filename, pick_build, resolve_version, PaperMCBuild, PaperMCBuildApplication, PaperMCBuildDownloads};
use mcman::sources::pick_id;
use mcman::sources::purpur::{purpur_download_url, purpur_filename, resolve_purpur_version};
use mcman::sources::spigot::{get_resource_id, resource_download_url, spigot_filename};
use mcman::sources::vanilla::{find_version, vanilla_filename, VersionManifest, VersionManifestLatest, VersionManifestVersion};
use mcman::error::McmanError;
use mcman::strmap::StrMap;

fn s(x: &str) -> String {
    x.to_owned()
}

fn file(name: &str, hashes: &[(&str, &str)]) -> ModrinthFile {
    let mut h = StrMap::new();
    for (k, v) in hashes {
        h.insert(s(k), s(v));
    }
    ModrinthFile { hashes: h, url: format!("https://cdn/{name}"), filename: s(name), primary: true, size: 1 }
}

fn mr_version(id: &str, num: &str, loaders: &[&str], files: Vec<ModrinthFile>) -> ModrinthVersion {
    ModrinthVersion {
        name: format!("Name {id}"),
        version_number: s(num),
        changelog: s(""),
        dependencies: vec![],
        game_versions: vec![s("1.20.1"), s("1.20.2")],
        version_type: VersionType::Release,
        loaders: loaders.iter().map(|l| s(l)).collect(),
        featured: false,
        status: ModrinthStatus::Listed,
        requested_status: None,
        id: s(id),
        project_id: s("proj"),
        author_id: s("me"),
        date_published: s(""),
        downloads: 0,
        files,
    }
}

fn cr_version(id: &str, project: &str, files: Vec<ModrinthFile>) -> CurseRinthVersion {
    CurseRinthVersion {
        name: format!("CR {id}"),
        version_number: format!("n{id}"),
        changelog: s(""),
        changelog_url: s(""),
        dependencies: vec![],
        game_versions: vec![s("1.20.1")],
        version_type: VersionType::Beta,
        loaders: vec![s("forge")],
        featured: false,
        id: s(id),
        project_id: s(project),
        author_id: s(""),
        date_published: s(""),
        downloads: 0,
        files,
    }
}

#[test]
fn import_url_plans() {
    match plan_import("https://cdn.modrinth.com/data/AANobbMI/versions/OihdIimA/sodium.jar").ok().unwrap() {
        ImportPlan::Ready(Downloadable::Modrinth { id, version }) => assert_eq!((id.as_str(), version.as_str()), ("AANobbMI", "OihdIimA")),
        _ => panic!("modrinth cdn url"),
    }
    match plan_import("https://modrinth.com/mod/sodium/version/mc1.20.1-0.5.3").ok().unwrap() {
        ImportPlan::Modrinth { id, pick: VersionPick::Number(n) } => assert_eq!((id.as_str(), n.as_str()), ("sodium", "mc1.20.1-0.5.3")),
        _ => panic!("modrinth project url"),
    }
    assert!(matches!(plan_import("https://modrinth.com/mod/sodium").ok().unwrap(), ImportPlan::Modrinth { pick: VersionPick::Choose, .. }));
    assert!(matches!(plan_import("https://modrinth.com/mod/sodium/version").ok().unwrap(), ImportPlan::Modrinth { pick: VersionPick::MissingNumber, .. }));
    match plan_import("https://modrinth.com/shader/x") {
        Err(ImportError::Invalid(m)) => assert_eq!(m, "Invalid Modrinth project URL: must start with /mod, /plugin or /datapack"),
        _ => panic!("refused"),
    }
    match plan_import("https://www.curseforge.com/minecraft/mc-mods/jei").ok().unwrap() {
        ImportPlan::CurseForge { id } => assert_eq!(id, "mod__jei"),
        _ => panic!("curseforge"),
    }
    match plan_import("https://www.curseforge.com/minecraft/mc-mods/jei/files/4712866").ok().unwrap() {
        ImportPlan::Ready(Downloadable::CurseRinth { id, version }) => assert_eq!((id.as_str(), version.as_str()), ("mod__jei", "4712866")),
        _ => panic!("curseforge with file"),
    }
    match plan_import("https://www.spigotmc.org/resources/http-requests.101253/").ok().unwrap() {
        ImportPlan::Ready(Downloadable::Spigot { id, version }) => assert_eq!((id.as_str(), version.as_str()), ("http-requests.101253", "latest")),
        _ => panic!("spigot"),
    }
    match plan_import("https://github.com/IPTFreedom/TotalFreedomMod/releases/download/2022.06.08-IPT/TotalFreedomMod-2022.06.08-IPT.jar").ok().unwrap() {
        ImportPlan::Github { repo, tag, file } => {
            assert_eq!(repo, "IPTFreedom/TotalFreedomMod");
            assert_eq!(tag.as_deref(), Some("2022.06.08-IPT"));
            assert_eq!(file.as_deref(), Some("TotalFreedomMod-2022.06.08-IPT.jar"));
        }
        _ => panic!("github"),
    }
    match plan_import("https://github.com/a/b/releases/latest") {
        Err(ImportError::Invalid(m)) => assert_eq!(m, "No idea what to do with releases/latest"),
        _ => panic!("refused"),
    }
    match plan_import("https://ci.example.org/job/Foo/job/Bar/lastBuild/").ok().unwrap() {
        ImportPlan::Other { jenkins_default, filename, jenkins_url, job } => {
            assert!(jenkins_default);
            assert_eq!(filename, "");
            assert_eq!(jenkins_url.as_deref(), Some("https://ci.example.org"));
            assert_eq!(job, "Foo/Bar");
        }
        _ => panic!("other"),
    }
    match plan_import("https://example.org/files/plugin.jar?dl=1").ok().unwrap() {
        ImportPlan::Other { jenkins_default, filename, .. } => {
            assert!(!jenkins_default);
            assert_eq!(filename, "plugin.jar");
        }
        _ => panic!("other"),
    }
    assert!(matches!(plan_import("not a url"), Err(ImportError::BadUrl)));
    assert_eq!(segments_of("/a/b/"), Some(vec![s("a"), s("b"), s("")]));
    assert_eq!(segments_of("a"), None);
    assert_eq!(infer_job(&vec![s("job"), s("x"), s("job"), s("y"), s("z")]), "x/y");
    assert_eq!(infer_job(&vec![s("job")]), "");
}

#[test]
fn import_choices() {
    let vs = vec![
        mr_version("v1", "1.0", &["fabric", "quilt"], vec![]),
        mr_version("v2", "2.0", &["datapack"], vec![]),
    ];
    assert_eq!(modrinth_version_choices(&vs)[0], "[1.0]: Name v1 (fabric,quilt ; 1.20.1,1.20.2)");
    let dps: Vec<String> = import_candidates(&vs, true).into_iter().map(|v| v.id).collect();
    assert_eq!(dps, vec!["v2"]);
    let mods: Vec<String> = import_candidates(&vs, false).into_iter().map(|v| v.id).collect();
    assert_eq!(mods, vec!["v1"]);
    assert_eq!(find_modrinth_number(&vs, "2.0"), Some(1));
    assert_eq!(find_modrinth_number(&vs, "3.0"), None);
    let crs = vec![cr_version("11", "22", vec![])];
    assert_eq!(curserinth_version_choices(&crs), vec!["[n11]: CR 11 (forge ; 1.20.1)"]);
    let rels = vec![GithubRelease { tag_name: s("v1"), name: s("First"), assets: vec![] }];
    assert_eq!(release_choices(&rels), vec!["Always use latest release", "Release First"]);
    assert_eq!(tag_for_choice(0, &rels), "latest");
    assert_eq!(tag_for_choice(1, &rels), "v1");
    let (items, idx) = asset_choices("1.2", Some("mod-1.2.jar"));
    assert_eq!(idx, 2);
    assert_eq!(
        items,
        vec![
            (s("first"), s("Use the first asset everytime")),
            (s("mod-1.2.jar"), s("mod-1.2.jar")),
            (s("mod-${tag}.jar"), s("mod-${tag}.jar")),
            (s(""), s("Edit 'mod-1.2.jar'")),
        ]
    );
    let (items, idx) = asset_choices("latest", None);
    assert_eq!(idx, 0);
    assert_eq!(items[1], (s(""), s("Set asset manually")));
    assert_eq!(other_url_choices(), vec!["Add as Custom URL", "Add as Jenkins"]);
    match url_source("https://x/y.jar", s("y.jar"), s("")) {
        Downloadable::Url { filename, desc, .. } => {
            assert_eq!(filename.as_deref(), Some("y.jar"));
            assert_eq!(desc, None);
        }
        _ => panic!("url source"),
    }
}

#[test]
fn source_addresses_and_picks() {
    assert_eq!(modrinth_versions_url("x", None), "https://api.modrinth.com/v2/project/x/version");
    assert_eq!(
        modrinth_versions_url("x", Some(("fabric", "1.20"))),
        "https://api.modrinth.com/v2/project/x/version?loaders=[\"fabric\"]&game_versions=[\"1.20\"]"
    );
    assert_eq!(curserinth_versions_url("y", None), "https://curserinth-api.kuylar.dev/v2/project/y/version");
    let vs = vec![mr_version("a", "1", &[], vec![]), mr_version("b", "2", &[], vec![file("b.jar", &[])])];
    assert!(matches!(pick_file(&vs, "latest"), Err(PickError::NoFiles)));
    assert_eq!(pick_file(&vs, "b").ok().unwrap().filename, "b.jar");
    assert!(matches!(pick_file(&vs, "c"), Err(PickError::ReleaseNotFound)));
    assert_eq!(pick_id(&vec![s("a"), s("b"), s("b")], "b"), Some(1));
    assert_eq!(pick_id(&vec![], "latest"), None);
    assert_eq!(str_process_job("a/b"), "/job/a/job/b");
    assert_eq!(job_api_url("https://ci", "J"), "https://ci/job/J/api/json?tree=builds[*[url,number,result]]");
    assert_eq!(artifact_url("https://ci/job/J/5/", "target/x.jar"), "https://ci/job/J/5/artifact/target/x.jar");
    let builds = vec![
        JenkinsBuild { url: s("u3"), number: 3, result: s("FAILURE") },
        JenkinsBuild { url: s("u2"), number: 2, result: s("SUCCESS") },
        JenkinsBuild { url: s("u1"), number: 1, result: s("SUCCESS") },
    ];
    assert_eq!(pick_jenkins_build(&builds, "latest"), Some(1));
    assert_eq!(pick_jenkins_build(&builds, "1"), Some(2));
    assert_eq!(pick_jenkins_build(&builds, "3"), None);
    let rels = vec![GithubRelease { tag_name: s("v2"), name: s("2"), assets: vec![] }, GithubRelease { tag_name: s("v1"), name: s("1"), assets: vec![] }];
    assert_eq!(pick_release(&rels, "latest"), Some(0));
    assert_eq!(pick_release(&rels, "v1"), Some(1));
    assert!(is_first_asset("any") && is_first_asset("") && !is_first_asset("x.jar"));
    assert_eq!(ratelimit_wait("1", 100, 40), Some(60));
    assert_eq!(ratelimit_wait("5", 100, 40), None);
    assert_eq!(releases_url("o/r"), "https://api.github.com/repos/o/r/releases");
    assert_eq!(release_download_url("o/r", "v1", "x.jar"), "https://github.com/o/r/releases/download/v1/x.jar");
}

#[test]
fn server_software_sources() {
    let b = |n: i32| PaperMCBuild {
        build: n,
        channel: s("default"),
        downloads: PaperMCBuildDownloads { application: PaperMCBuildApplication { name: format!("paper-{n}.jar"), sha256: s("") } },
    };
    let builds = vec![b(10), b(11), b(12)];
    assert_eq!(pick_build("paper", "1.20", "latest", &builds).ok(), Some(2));
    assert_eq!(pick_build("paper", "1.20", "11", &builds).ok(), Some(1));
    assert!(matches!(pick_build("paper", "1.20", "99", &builds), Err(McmanError::PaperMCBuildNotFound(p, v, b)) if p == "paper" && v == "1.20" && b == "99"));
    assert_eq!(resolve_version("paper", "latest", &vec![s("1.19"), s("1.20")]).ok(), Some(s("1.20")));
    assert!(matches!(resolve_version("paper", "latest", &vec![]), Err(McmanError::PaperMCVersionNotFound(..))));
    assert_eq!(download_url("paper", "1.20", 12, "paper-12.jar"), "https://api.papermc.io/v2/projects/paper/versions/1.20/builds/12/downloads/paper-12.jar");
    assert_eq!(papermc_filename("paper", "1.20", "12"), "paper-1.20-12.jar");
    assert_eq!(purpur_filename("1.20", "latest", &vec![s("1"), s("2")]), "purpur-1.20-2.jar");
    assert_eq!(purpur_filename("1.20", "latest", &vec![]), "purpur-1.20-latest.jar");
    assert_eq!(purpur_download_url("1.20", "5"), "https://api.purpurmc.org/v2/purpur/1.20/5/download");
    assert_eq!(resolve_purpur_version("latest", &vec![]), None);
    assert_eq!(fabric_filename("1.20", "latest", "0.15", "1.0", "1.1"), "fabric-server-mc.1.20-loader.0.15-launcher.1.0.jar");
    assert_eq!(quilt_filename("1.20", "0.20", "0.21"), "quilt-server-1.20-0.20-launch.jar");
    assert_eq!(get_resource_id("http-requests.101253"), "101253");
    assert_eq!(get_resource_id("plain"), "plain");
    assert_eq!(get_resource_id("ends."), "ends.");
    assert_eq!(resource_download_url("x.5"), "https://api.spiget.org/v2/resources/5/download");
    assert_eq!(spigot_filename("x.5", -3), "x.5--3.jar");
    let m = VersionManifest {
        latest: VersionManifestLatest { release: s("1.20.4"), snapshot: s("24w03a") },
        versions: vec![
            VersionManifestVersion { id: s("24w03a"), url: s("s") },
            VersionManifestVersion { id: s("1.20.4"), url: s("r") },
        ],
    };
    assert_eq!(find_version(&m, "latest").ok(), Some(1));
    assert_eq!(find_version(&m, "latest-snapshot").ok(), Some(0));
    assert!(matches!(find_version(&m, "1.0"), Err(McmanError::VanillaVersionNotFound(v)) if v == "1.0"));
    assert_eq!(vanilla_filename("1.20.4"), "server-1.20.4.jar");
}

#[test]
fn markdown_rows_and_blocks() {
    let mut srv = Server::default();
    srv.mc_version = s("1.20.1");
    srv.jar = ServerType::Fabric { loader: s("latest"), installer: s("latest") };
    let rows: Vec<(String, String)> = MarkdownAPI(&srv).table_server().into_iter().collect();
    assert_eq!(rows, vec![(s("Version"), s("1.20.1")), (s("Type"), s("[Fabric](https://fabricmc.net/)")), (s("Loader"), s("*Latest*"))]);
    let info = ProjectInfo { title: s("Sodium"), slug: s("sodium"), description: s("Fast") };
    let dl = Downloadable::Modrinth { id: s("AANobbMI"), version: s("v1") };
    let rows: Vec<(String, String)> = fetch_downloadable_info(&dl, &info).into_iter().collect();
    assert_eq!(rows, vec![(s("Name"), s("[Sodium](https://modrinth.com/mod/sodium)")), (s("Description"), s("Fast")), (s("Version"), s("v1"))]);
    let url = Downloadable::Url { url: s("https://w/x.zip"), filename: None, desc: None };
    let rows: Vec<(String, String)> = world_download_info(&url, &info).into_iter().collect();
    assert_eq!(rows[0], (s("Name"), s("**(World Download)** `Custom URL`")));
    assert_eq!(rows[1], (s("Description"), s("*No description provided*")));
    assert_eq!(rows[2], (s("Version"), s("[URL](https://w/x.zip)")));
    assert_eq!(MarkdownAPI(&srv).init_server("# {SERVER_NAME}\n## {ADDON_HEADER}"), "# \n## Mods");
    assert_eq!(init_network_readme("# {NETWORK_NAME}", "net"), "# net");
    srv.plugins.push(dl);
    srv.add_datapack_to(s("w1"), Downloadable::Modrinth { id: s("d"), version: s("1") });
    assert_eq!(get_template_ids(&srv), vec!["server", "addons", "world-w1"]);
    let content = "a\n<!--start:mcman-server-->\nold\n<!--end:mcman-server-->\nb";
    assert_eq!(
        replace_block(content, "server", "| t |").unwrap(),
        "a\n<!--start:mcman-server-->\n| t |\n<!--end:mcman-server-->\nb"
    );
    assert_eq!(replace_block("no markers", "server", "x").unwrap(), "no markers");
    assert_eq!(replace_block("x", "(", "y"), None);
}

fn summary(client: SideSupport) -> ProjectSummary {
    ProjectSummary { id: s("PID"), slug: s("slug"), title: s("Title"), description: s("Desc"), server_side: SideSupport::Required, client_side: client }
}

#[test]
fn packwiz_mods() {
    let vs = vec![mr_version("v1", "1", &[], vec![file("a.jar", &[("sha512", "H5"), ("sha1", "H1")])])];
    let (name, m) = modrinth_pw_mod(&summary(SideSupport::Optional), "latest", &vs, None, "").ok().unwrap();
    assert_eq!(name, "slug.pw.toml");
    assert_eq!((m.name.as_str(), m.filename.as_str(), m.download.hash.as_str()), ("Title", "a.jar", "H5"));
    assert_eq!(m.download.url.as_deref(), Some("https://cdn/a.jar"));
    assert_eq!(m.side, Side::Both);
    assert!(m.option.optional);
    assert_eq!(m.option.description.as_deref(), Some("Desc"));
    let upd = m.update.unwrap().modrinth.unwrap();
    assert_eq!((upd.mod_id.as_str(), upd.version.as_str()), ("PID", "latest"));
    assert!(matches!(modrinth_pw_mod(&summary(SideSupport::Unsupported), "zzz", &vs, None, ""), Err(PwError::ReleaseNotFound)));
    let (_, m) = modrinth_pw_mod(&summary(SideSupport::Unsupported), "v1", &vs, Some(false), "Mine").ok().unwrap();
    assert_eq!(m.side, Side::Server);
    assert!(!m.option.optional);
    assert_eq!(m.option.description.as_deref(), Some("Mine"));
    let nohash = vec![mr_version("v1", "1", &[], vec![file("a.jar", &[])])];
    assert!(matches!(modrinth_pw_mod(&summary(SideSupport::Required), "v1", &nohash, None, ""), Err(PwError::MissingHash)));

    let crs = vec![cr_version("4712866", "238222", vec![file("jei.jar", &[("sha1", "S1")])])];
    let (_, m) = curserinth_pw_mod(&summary(SideSupport::Required), "latest", &crs, false, None, "").ok().unwrap();
    assert_eq!(m.download.mode, DownloadMode::Curseforge);
    assert_eq!(m.download.url, None);
    let cf = m.update.unwrap().curseforge.unwrap();
    assert_eq!((cf.file_id, cf.project_id), (4712866, 238222));
    let (_, m) = curserinth_pw_mod(&summary(SideSupport::Required), "4712866", &crs, true, None, "").ok().unwrap();
    assert_eq!(m.download.mode, DownloadMode::Url);
    assert!(m.update.is_none());
    let bad = vec![cr_version("x", "238222", vec![file("jei.jar", &[("sha1", "S1")])])];
    assert!(matches!(curserinth_pw_mod(&summary(SideSupport::Required), "latest", &bad, false, None, ""), Err(PwError::BadId)));

    let (name, m) = url_pw_mod("https://x/y.jar", &Some(s("d")), "y.jar", s("H"), None, "");
    assert_eq!(name, "y.jar.pw.toml");
    assert_eq!(m.download.hash_format, HashFormat::Sha256);
    assert_eq!(m.option.description.as_deref(), Some("d"));

    let back = Downloadable::from_pw_mod(&PwMod {
        name: s("n"),
        side: Side::Both,
        filename: s("f"),
        download: ModDownload { mode: DownloadMode::Url, url: None, hash: s(""), hash_format: HashFormat::Sha1 },
        option: ModOption { optional: false, default: false, description: None },
        update: Some(ModUpdate { modrinth: None, curseforge: Some(CurseforgeModUpdate { file_id: 5, project_id: 7 }) }),
    });
    assert!(matches!(back, FromPwMod::Known(Downloadable::CurseRinth { id, version }) if id == "7" && version == "5"));
    let r = PackwizInterop::resolved_to_mod("sodium-0.5.jar", "https://u", s("h"), "murmur2");
    assert_eq!(r.name, "sodium-0.5");
    assert_eq!(r.download.hash_format, HashFormat::Curseforge);
    assert_eq!(hash_name(HashFormat::Curseforge), "murmur2");
    assert_eq!(hash_format_of("other"), HashFormat::Md5);
    assert!(PackwizInterop::get_file_provider("https://x/pack.toml"));
    assert!(!PackwizInterop::get_file_provider("./pack"));
    let pf = |file: &str, metafile: bool| PackFile { file: s(file), hash: s(""), hash_format: None, alias: None, metafile, preserve: false };
    assert_eq!(PackwizInterop::import_action(&pf("mods/x.pw.toml", true)), PackImport::Mod);
    assert_eq!(PackwizInterop::import_action(&pf("resourcepacks/x.pw.toml", true)), PackImport::Unsupported);
    assert_eq!(PackwizInterop::import_action(&pf("config/a.yml", false)), PackImport::Config);
    let mut srv = Server::default();
    srv.name = s("srv");
    srv.mc_version = s("1.20.1");
    srv.jar = ServerType::Quilt { loader: s("0.2"), installer: s("latest") };
    let pack = PackwizInterop(&srv).export_pack(None, None, None, None, s("IH"));
    assert_eq!(pack.name, "srv");
    assert_eq!(pack.versions.get("quilt").map(|v| v.as_str()), Some("0.2"));
    assert_eq!(pack.index.file, "index.toml");
    assert_eq!(pack.pack_format, "packwiz:1.1.0");
}

#[test]
fn sanitize_descriptions() {
    assert_eq!(
        mcman::markdown::sanitize("A <b>bold</b>\nmod<br>for <a href=\"x>y\">you</a>\r").unwrap(),
        "A bold mod for you"
    );
}

#[test]
fn packwiz_export_import_round_trip() {
    let vs = vec![mr_version("v1", "1", &[], vec![file("a.jar", &[("sha512", "H5")])])];
    let (_, m) = modrinth_pw_mod(&summary(SideSupport::Required), "v1", &vs, None, "").ok().unwrap();
    assert!(matches!(Downloadable::from_pw_mod(&m),
        FromPwMod::Known(Downloadable::Modrinth { id, version }) if id == "PID" && version == "v1"));

    let src = Downloadable::Modrinth { id: s("sodium"), version: s("abc") };
    let back = PackwizInterop::dl_from_mod_update(&PackwizInterop::get_mod_update(&src));
    assert!(back == Some(src));
    assert!(PackwizInterop::get_mod_update(&Downloadable::Spigot { id: s("1"), version: s("latest") }).is_none());

    let r = PackwizInterop::resolved_to_mod("y.jar", "https://x/y.jar", s("h"), "sha1");
    assert!(matches!(Downloadable::from_pw_mod(&r), FromPwMod::FromUrl(u) if u == "https://x/y.jar"));
}

#[test]
fn hash_names_read_back() {
    for f in [HashFormat::Md5, HashFormat::Sha1, HashFormat::Sha256, HashFormat::Sha512, HashFormat::Curseforge] {
        assert_eq!(hash_format_of(&hash_name(f)), f);
    }
}

#[test]
fn named_artifacts_and_assets() {
    let art = |f: &str| JenkinsArtifact { file_name: s(f), relative_path: format!("build/{f}") };
    let arts = vec![art("core.jar"), art("api.jar"), art("api.jar")];
    assert_eq!(pick_artifact(&arts, "first"), Some(0));
    assert_eq!(pick_artifact(&arts, "api.jar"), Some(1));
    assert_eq!(pick_artifact(&arts, "nope.jar"), None);
    assert_eq!(pick_artifact(&Vec::new(), "first"), None);
    let asset = |n: &str| GithubAsset { url: format!("https://x/{n}"), name: s(n) };
    let assets = vec![asset("a.jar"), asset("b.jar")];
    assert_eq!(pick_asset(&assets, ""), Some(0));
    assert_eq!(pick_asset(&assets, "any"), Some(0));
    assert_eq!(pick_asset(&assets, "b.jar"), Some(1));
    assert_eq!(pick_asset(&assets, "c.jar"), None);
    assert_eq!(pick_asset(&Vec::new(), "first"), None);
}

#[test]
fn pack_files_remote_and_local() {
    let pf = PackFile { file: s("config/sub/a.yml"), hash: s("H"), hash_format: None, alias: None, metafile: false, preserve: false };
    let r = remote_pack_file("https://x.com/pack/pack.toml", &pf, HashFormat::Sha256).unwrap();
    assert_eq!(r.url, "https://x.com/pack/config/sub/a.yml");
    assert_eq!(r.filename, "a.yml");
    assert_eq!(r.hashes.get("sha256").map(|h| h.as_str()), Some("H"));
    assert!(r.size.is_none());
    assert!(remote_pack_file("not a url", &pf, HashFormat::Sha1).is_none());
    assert_eq!(local_pack_file("pack", "srv", &pf), (s("pack/config/sub/a.yml"), s("srv/config/config/sub/a.yml")));
    assert_eq!(
        config_export_paths("srv", "out", "srv/config/sub/a.yml"),
        Some((s("sub/a.yml"), s("srv/config/sub/a.yml"), s("out/sub/a.yml")))
    );
    assert_eq!(config_export_paths("/srv", "out", "srv/config/a.yml"), None);
}

#[test]
fn packwiz_export_ways() {
    assert_eq!(Downloadable::Modrinth { id: s("a"), version: s("1") }.pw_export_way(), PwExport::Modrinth);
    assert_eq!(Downloadable::CurseRinth { id: s("a"), version: s("1") }.pw_export_way(), PwExport::CurseRinth);
    assert_eq!(Downloadable::Url { url: s("https://x/a.jar"), filename: None, desc: None }.pw_export_way(), PwExport::Url);
    assert_eq!(Downloadable::Spigot { id: s("1"), version: s("latest") }.pw_export_way(), PwExport::Unsupported);
    assert_eq!(Downloadable::GithubRelease { repo: s("r"), tag: s("t"), asset: s("a") }.pw_export_way(), PwExport::Unsupported);
}

#[test]
fn addon_rows_sanitize_descriptions() {
    let dl = Downloadable::Modrinth { id: s("AANobbMI"), version: s("v1") };
    let rows: Vec<(String, String)> = describe_addon(&dl, "Sodium", "sodium", "A <b>fast</b>\nmod<br>!").unwrap().into_iter().collect();
    assert_eq!(rows[1], (s("Description"), s("A fast mod !")));
    let gh = Downloadable::GithubRelease { repo: s("o/r"), tag: s("latest"), asset: s("a.jar") };
    let rows: Vec<(String, String)> = describe_world_download(&gh, "", "", "<i>World</i>\r").unwrap().into_iter().collect();
    assert!(rows[0].1.starts_with("**(World Download)** "));
    assert_eq!(rows[1], (s("Description"), s("World")));
    let mv = Downloadable::Maven { url: s("https://m"), group: s("g"), artifact: s("a"), version: s("1"), filename: s("f") };
    let rows: Vec<(String, String)> = describe_addon(&mv, "", "", "<ignored>").unwrap().into_iter().collect();
    assert_eq!(rows.len(), 2);
    assert_eq!(rows[1], (s("Version"), s("1")));
}
