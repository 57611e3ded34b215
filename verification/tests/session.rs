use mcman::build_steps::{
    datapack_folder, installed_jar_name, installer_command, installer_log_header,
    installer_log_line, installer_log_name, is_folder_entry, jar_label, must_install,
    bootstrap_target, path_extension, placeholder_value, processing_message, removed_files, rename_step,
    should_bootstrap_file, split_placeholder, world_source_path, world_step, RenameStep,
    WorldStep, WorldsAPI,
};
use mcman::error::CliError;
use mcman::hot_reload::{
    is_crash, servertoml_changed, session_start_commands, Command, Entry, HotReloadAction,
    HotReloadConfig, Interrupt, SessionState, State, TestResult,
};
use mcman::lockfile::{join_path, needs_bootstrap, recorded_date, AddonType, BootstrappedFile, Lockfile, ResolvedFile};
use mcman::downloadable::Downloadable;
use mcman::mrpack::{Env, EnvSupport, MRPackFile, MRPackStep};
use mcman::runner::{output_lines, TestRun};
use mcman::server::Server;
use mcman::strmap::StrMap;

fn s(x: &str) -> String {
    x.to_owned()
}

fn describe(cs: &[Command]) -> Vec<String> {
    cs.iter()
        .map(|c| match c {
            Command::Start => s("start"),
            Command::EndSession => s("end"),
            Command::Rebuild => s("rebuild"),
            Command::SendCommand(x) => format!("send {x:?}"),
            Command::Log(x) => format!("log {x}"),
            Command::WaitUntilExit => s("wait"),
            Command::Bootstrap(p) => format!("bootstrap {p}"),
        })
        .collect()
}

#[test]
fn hot_reload_action_text() {
    for a in [HotReloadAction::Reload, HotReloadAction::Restart, HotReloadAction::RunCommand(s("say hi"))] {
        let t = a.to_text();
        let back = HotReloadAction::try_from_text(&t).ok().unwrap();
        assert_eq!(back.to_text(), t);
    }
    assert_eq!(HotReloadAction::RunCommand(s("say hi")).to_text(), "/say hi");
    assert!(matches!(HotReloadAction::try_from_text("ReLoAd"), Ok(HotReloadAction::Reload)));
    assert!(matches!(HotReloadAction::try_from_text("RESTART"), Ok(HotReloadAction::Restart)));
    assert!(matches!(HotReloadAction::try_from_text("/"), Ok(HotReloadAction::RunCommand(c)) if c.is_empty()));
    assert!(HotReloadAction::try_from_text("reboot").is_err());
    assert!(HotReloadAction::try_from_text("").is_err());
}

#[test]
fn hot_reload_file_changes() {
    let cfg = HotReloadConfig::default();
    assert_eq!(
        describe(&cfg.file_changed("server.properties")),
        vec![s("bootstrap server.properties"), s("send \"reload confirm\\n\"")]
    );
    assert_eq!(describe(&cfg.file_changed("ops.json")), vec![s("bootstrap ops.json")]);
    let mut cfg2 = HotReloadConfig::default();
    cfg2.files = vec![
        Entry { path: s("plugins/*.yml"), action: HotReloadAction::Restart },
        Entry { path: s("*.yml"), action: HotReloadAction::RunCommand(s("say yml")) },
    ];
    assert_eq!(cfg2.find_entry("plugins/a.yml"), Some(0));
    assert_eq!(
        describe(&cfg2.file_changed("plugins/a.yml")),
        vec![s("bootstrap plugins/a.yml"), s("send \"stop\\nend\\n\""), s("wait"), s("start")]
    );
    assert_eq!(
        describe(&cfg2.file_changed("b.yml")),
        vec![s("bootstrap b.yml"), s("send \"say yml\\n\"")]
    );
    assert_eq!(describe(&servertoml_changed(true)), vec![s("send \"stop\\nend\""), s("wait"), s("rebuild"), s("start")]);
    assert!(servertoml_changed(false).is_empty());
    assert_eq!(describe(&session_start_commands()), vec![s("rebuild"), s("start")]);
}

#[test]
fn test_run_session() {
    let mut st = SessionState::new(true);
    st.started();
    assert_eq!(st.state, State::Starting);
    assert!(st.server_line("[12:00] Loading", "]: Done", "stop").is_empty());
    let cs = st.server_line("  [12:01 INFO]: Done (3.2s)!  ", "]: Done", "stop");
    assert_eq!(describe(&cs), vec![s("send \"stop\\n\""), s("wait"), s("end")]);
    assert_eq!(st.test_result, TestResult::Success);
    assert_eq!(st.state, State::Online);
    assert!(st.server_line("]: Crashed! The full crash report has been saved to x", "]: Done", "stop").is_empty());
    assert_eq!(st.exit_code(), Some(0));

    let mut crash = SessionState::new(true);
    let cs = crash.server_line("---- end of report ----", "]: Done", "stop");
    assert_eq!(describe(&cs), vec![s("wait"), s("end")]);
    assert_eq!(crash.test_result, TestResult::Crashed);
    assert_eq!(crash.exit_code(), Some(1));
    assert!(is_crash(TestResult::Crashed, ""));
    assert!(is_crash(TestResult::Failed, "x]: Crashed! The full crash report has been saved to y"));
    assert!(!is_crash(TestResult::Failed, "fine"));

    let mut dev = SessionState::new(false);
    assert!(dev.server_line("]: Done", "]: Done", "stop").is_empty());
    assert_eq!(dev.exit_code(), None);
    assert!(dev.child_exited().is_empty());
    match dev.interrupted() {
        Interrupt::Stop(cs) => assert_eq!(describe(&cs), vec![s("send \"stop\\nend\\n\""), s("wait"), s("end")]),
        _ => panic!("first interrupt stops the server"),
    }
    assert!(matches!(dev.interrupted(), Interrupt::ForceStop));
    let mut stopping = SessionState::new(false);
    stopping.stopping();
    assert!(matches!(stopping.interrupted(), Interrupt::Ignore));
    stopping.stopped_waiting();
    assert!(!stopping.is_stopping);
    stopping.building();
    assert_eq!(stopping.state, State::Building);
    let mut t = SessionState::new(true);
    assert_eq!(describe(&t.child_exited()), vec![s("end")]);
}

#[test]
fn runner_test_mode() {
    assert_eq!(output_lines("  a\nb \n"), vec!["a", "b"]);
    assert!(output_lines("   ").is_empty());
    let mut run = TestRun::new(true);
    assert_eq!(run.on_line("[Server] Starting"), None);
    let done = "[12:00:00 INFO]: Done (1.0s)! For help, type \"help\"";
    assert_eq!(run.on_line(done), Some(s("stop\nend\n")));
    assert_eq!(run.on_line(done), None);
    assert_eq!(run.outcome(true), Some(true));
    assert_eq!(run.outcome(false), Some(false));
    let mut plain = TestRun::new(false);
    assert_eq!(plain.on_line(done), None);
    assert_eq!(plain.outcome(true), None);
}

#[test]
fn bootstrap_decisions() {
    let none: Vec<String> = vec![];
    assert!(should_bootstrap_file("server.properties", &none));
    assert!(should_bootstrap_file("plugins/x/config.yml", &none));
    assert!(!should_bootstrap_file("plugins/x.jar", &none));
    assert!(!should_bootstrap_file(".secret", &none));
    assert!(should_bootstrap_file("a/b.cfg", &vec![s("cfg")]));
    assert_eq!(path_extension("a/b.tar.gz"), "gz");
    assert_eq!(path_extension("a/.bashrc"), "");
    assert_eq!(path_extension("a/b."), "");
    assert_eq!(path_extension("a/../.."), "");
    assert_eq!(path_extension("x/y.txt/"), "txt");
    assert_eq!(split_placeholder(" PORT "), (s("PORT"), None));
    assert_eq!(split_placeholder(" PORT : 25565 "), (s("PORT"), Some(s("25565"))));
    assert_eq!(split_placeholder("a:b:c"), (s("a"), Some(s("b:c"))));
    assert_eq!(placeholder_value(None, Some(s("d"))), Some(s("d")));
    assert_eq!(placeholder_value(Some(s("v")), Some(s("d"))), Some(s("v")));
    assert!(needs_bootstrap(true, Some(5), Some(1)));
    assert!(!needs_bootstrap(false, Some(5), Some(5)));
    assert!(needs_bootstrap(false, Some(5), Some(6)));
    assert!(needs_bootstrap(false, Some(5), None));
    assert!(needs_bootstrap(false, None, Some(1)));
    let files = vec![BootstrappedFile { path: s("a"), date: 3 }, BootstrappedFile { path: s("a"), date: 4 }];
    assert_eq!(recorded_date(&files, "a"), Some(4));
    assert_eq!(recorded_date(&files, "b"), None);
}

#[test]
fn install_decisions() {
    assert_eq!(installed_jar_name("spigot-${mcver}.jar", "1.20"), "spigot-1.20.jar");
    assert_eq!(jar_label(false, "x.jar"), "<in libraries>");
    assert_eq!(jar_label(true, "x.jar"), "x.jar");
    assert_eq!(installer_command("bt.jar", &vec![s("--rev"), s("1.20")]), vec!["-jar", "bt.jar", "--rev", "1.20"]);
    assert_eq!(rename_step(true, true), RenameStep::Rename);
    assert_eq!(rename_step(false, true), RenameStep::Skip);
    assert_eq!(rename_step(false, false), RenameStep::Fail);
    assert!(must_install(true, true));
    assert!(!must_install(false, true));
    assert_eq!(installer_log_name("bt"), ".bt.mcman.log");
    assert_eq!(installer_log_header("bt", "BuildTools"), "=== mcman bt / BuildTools output ===\n\n");
    assert_eq!(installer_log_line("  x \n"), Some(s("x")));
    assert_eq!(installer_log_line(" \n"), None);
}

#[test]
fn addon_and_world_decisions() {
    let prev = vec![s("a.jar"), s("b.jar"), s("a.jar"), s("c.jar")];
    let now = vec![s("b.jar")];
    assert_eq!(removed_files(&prev, &now), vec!["a.jar", "c.jar"]);
    assert_eq!(processing_message(1, "plugin"), "Processing 1 plugin...");
    assert_eq!(processing_message(3, "mod"), "Processing 3 mods...");
    assert_eq!(processing_message(250, "mod"), "Processing 250 mods... may god help you");
    assert_eq!(world_step(true, true, true), WorldStep::Keep);
    assert_eq!(world_step(false, true, true), WorldStep::UnzipSource);
    assert_eq!(world_step(false, false, true), WorldStep::DownloadAndUnzip);
    assert_eq!(world_step(false, false, false), WorldStep::Nothing);
    assert_eq!(world_source_path("w"), "worlds/w.zip");
    assert_eq!(datapack_folder("w"), "w/datapacks");
    assert!(is_folder_entry("a/b/"));
    assert!(!is_folder_entry("a/b"));
    let mut srv = Server::default();
    srv.path = s("/srv/mc");
    let api = WorldsAPI(&srv);
    assert_eq!(api.world_zip("w"), "/srv/mc/worlds/w.zip");
    assert_eq!(api.world_folder("w"), "/srv/mc/server/w");
    assert_eq!(WorldsAPI::missing_zip_message("w"), "worlds/w.zip doesnt exist");
}

#[test]
fn lockfile_paths() {
    assert_eq!(join_path("out", ".mcman.lock"), "out/.mcman.lock");
    assert_eq!(join_path("out/", ".mcman.lock"), "out/.mcman.lock");
    assert_eq!(join_path("", "x"), "x");
    let fresh = Lockfile::get_lockfile("server", None);
    assert_eq!(fresh.path, "server/.mcman.lock");
    assert!(fresh.files.is_empty());
    let mut loaded = Lockfile::default();
    assert_eq!(loaded.path, "./.mcman.lock");
    loaded.files.push(BootstrappedFile { path: s("a"), date: 1 });
    let kept = Lockfile::get_lockfile("out", Some(loaded));
    assert_eq!(kept.path, "out/.mcman.lock");
    assert_eq!(kept.files.len(), 1);
    assert!(fresh.plugins.is_empty() && fresh.mods.is_empty());
}

fn resolved(name: &str) -> ResolvedFile {
    ResolvedFile { url: format!("https://x/{name}"), filename: s(name), size: None, hashes: StrMap::new() }
}

#[test]
fn lockfile_addon_records() {
    let mut old = Lockfile::default();
    old.record_addon(AddonType::Plugin, Downloadable::Spigot { id: s("1"), version: s("latest") }, resolved("a.jar"));
    old.record_addon(AddonType::Plugin, Downloadable::Spigot { id: s("2"), version: s("latest") }, resolved("b.jar"));
    old.record_addon(AddonType::Mod, Downloadable::Modrinth { id: s("m"), version: s("1") }, resolved("m.jar"));
    assert_eq!(old.plugins.len(), 2);
    assert_eq!(old.mods.len(), 1);
    assert_eq!(old.addon_filenames(AddonType::Plugin), vec![s("a.jar"), s("b.jar")]);
    let kept = Lockfile::get_lockfile("out", Some(old));
    assert_eq!(kept.addon_filenames(AddonType::Mod), vec![s("m.jar")]);

    let mut new = Lockfile::get_lockfile("out", None);
    new.record_addon(AddonType::Plugin, Downloadable::Spigot { id: s("2"), version: s("latest") }, resolved("b.jar"));
    let produced = new.addon_filenames(AddonType::Plugin);
    assert_eq!(kept.stale_addon_files(AddonType::Plugin, &produced), vec![s("a.jar")]);
    assert_eq!(kept.stale_addon_files(AddonType::Mod, &Vec::new()), vec![s("m.jar")]);
    assert!(kept.has_addon_work(AddonType::Plugin, 0));
    assert!(!new.has_addon_work(AddonType::Mod, 0));
    assert!(new.has_addon_work(AddonType::Mod, 3));
    assert_eq!(AddonType::Plugin.folder(), "plugins");
    assert_eq!(AddonType::Mod.folder(), "mods");
}

#[test]
fn mrpack_steps() {
    let f = |client: EnvSupport, downloads: Vec<String>| MRPackFile {
        path: s("mods/x.jar"),
        env: Env { client, server: EnvSupport::Required },
        downloads,
    };
    assert!(matches!(f(EnvSupport::Unsupported, vec![s("u")]).import_step(), MRPackStep::Skip));
    assert!(matches!(f(EnvSupport::Optional, vec![s("u1"), s("u2")]).import_step(), MRPackStep::Import(u) if u == "u1"));
    assert!(matches!(f(EnvSupport::Required, vec![]).import_step(), MRPackStep::NoDownload));
}

#[test]
fn cli_error_messages() {
    assert_eq!(CliError::AlreadyExists.message(), "server.toml already exists");
    assert_eq!(
        CliError::MissingServerName.message(),
        "can't get package name from current path; please specify a name using --name"
    );
    let _unused: StrMap<String> = StrMap::new();
}

#[test]
fn paths_relative_to_a_directory() {
    let mut srv = Server::default();
    srv.path = s("srv");
    let worlds = WorldsAPI(&srv);
    assert_eq!(worlds.archive_entry_name("w", "srv/server/w/region/r.mca"), Some(s("region/r.mca")));
    assert_eq!(worlds.archive_entry_name("w", "srv/server/w"), Some(s("")));
    assert_eq!(bootstrap_target("srv/config", "out", "srv/config/a/b.yml"), Some((s("a/b.yml"), s("out/a/b.yml"))));
    assert_eq!(bootstrap_target("/srv/config", "out", "x.yml"), None);
    let cfg = HotReloadConfig::default();
    assert_eq!(
        describe(&cfg.config_file_changed("srv/config", "srv/config/server.properties").unwrap()),
        vec![s("bootstrap server.properties"), s("send \"reload confirm\\n\"")]
    );
    assert!(cfg.config_file_changed("/srv/config", "server.properties").is_none());
}

#[test]
fn session_start_and_end() {
    let mut st = SessionState::new(true);
    assert!(st.start_requested(false));
    assert_eq!(st.state, State::Starting);
    st.state = State::Online;
    assert!(!st.start_requested(true));
    assert_eq!(st.state, State::Online);
    let end = st.session_end(true);
    assert!(end.kill_child);
    assert_eq!(end.exit_code, Some(1));
    let st2 = SessionState::new(false);
    let end2 = st2.session_end(false);
    assert!(!end2.kill_child);
    assert_eq!(end2.exit_code, None);
}

#[test]
fn hot_reload_patterns_checked() {
    assert!(HotReloadConfig::default().check_patterns().is_ok());
    let mut cfg = HotReloadConfig::default();
    cfg.files.push(Entry { path: s("plugins/*.yml"), action: HotReloadAction::Reload });
    cfg.files.push(Entry { path: s("a**b"), action: HotReloadAction::Restart });
    cfg.files.push(Entry { path: s("[x"), action: HotReloadAction::Restart });
    let err = cfg.check_patterns().err().unwrap();
    assert_eq!(err.index, 2);
    assert_eq!(err.pattern, "a**b");
}
