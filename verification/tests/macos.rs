use rustdesk::helper::start::ServiceStartAction;
use rustdesk::macos::displays::{
    block_input, change_resolution_directly, clip_cursor, current_resolution, display_number,
    get_double_click_time, get_focused_display, is_can_screen_recording, resolutions,
    unsafe_is_can_screen_recording, CursorSeed, Resolution, ResolutionError, ScreenRecording,
    ScreenWindow,
};
use rustdesk::macos::dmg_update::{extract_update_dmg, DmgStep, DmgUpdate};
use rustdesk::macos::identity::{
    get_installed_bundle_id, render_plist_body, render_privileged_template, replace_app_identity,
    replace_app_names, validate_bundle_identifier,
};
use rustdesk::macos::install::{
    agent_plist_file, app_bundle, daemon_plist_file, elevate_script, finish_direct_update,
    finish_uninstall, handle_application_should_open_untitled_file, install_args,
    install_service, is_installed,
    is_installed_daemon, mounted_bundle, require_successful_osascript, run_as_user_args,
    start_os_service, starts_agent, uninstall_service, update_daemon_agent, update_me_from_source,
    updates_start_after_migration, write_plists_for_app, AppIdentity, InstallCheck, ScriptRun,
    ServiceStep, Template, UninstallAction, UninstallCheck, UpdatePlan, UpdateSource,
};
use rustdesk::macos::plists::{
    after_write_step, first_write_step, read_optional_plist, report_failed_plist_cleanup,
    restore_plist, temporary_name, PairNext, PairStep, PathKind, PlistPair, PlistRead, PlistRestore,
    Removal, Which, WriteNext, WriteStep,
};
use rustdesk::macos::root_update::{
    backup_update_plist, check_staged_version, extract_dmg_into_existing_dir,
    preparation_directory, script_values, CommandRun, RootOutcome, RootRequest, RootStep, RootUpdate,
};
use rustdesk::macos::sessions::{
    console_uid, get_active_user, get_active_user_home, get_logged_in_uids, get_server_start_time,
    gui_domain, is_locked, is_prelogin, is_root, session_uid, session_user, uid_list, ConsoleOwner,
    RunningProcess,
};
use rustdesk::macos::update_body::privileged_update_body;
use rustdesk::macos::update_script::{fill, update_script};
use rustdesk::macos::update_tree::{
    ensure_same_filesystem, validate_update_tree, UpdateEntry, UpdateNode,
};

fn ok() -> Result<(), String> {
    Ok(())
}

fn err(text: &str) -> Result<(), String> {
    Err(text.to_owned())
}

fn app() -> AppIdentity {
    AppIdentity {
        app_name: "AcmeDesk".to_owned(),
        name_check: Ok(()),
        bundle_id: Some("com.example.acme".to_owned()),
    }
}

fn text(s: &str) -> Template {
    Template::Text(s.to_owned())
}

fn good_run() -> ScriptRun {
    ScriptRun {
        success: true,
        status: "exit status: 0".to_owned(),
        stdout: String::new(),
        stderr: String::new(),
    }
}

fn bad_run() -> ScriptRun {
    ScriptRun {
        success: false,
        status: "exit status: 1".to_owned(),
        stdout: String::new(),
        stderr: " authorization denied\n".to_owned(),
    }
}

#[test]
fn privileged_template_identity_rejects_shell_and_xml_injection() {
    assert!(render_privileged_template(
        "RustDesk com.carriez.rustdesk",
        "RustDesk;touch",
        err("Invalid application name"),
        Some("com.example.safe")
    )
    .is_err());
    assert!(render_privileged_template(
        "RustDesk com.carriez.rustdesk",
        "RustDesk",
        ok(),
        Some("com.example</string><key>RunAtLoad")
    )
    .is_err());
}

#[test]
fn plist_rendering_uses_validated_explicit_white_label_bundle_id() {
    let template = "<string>com.carriez.rustdesk</string><string>RustDesk</string>";
    let rendered =
        render_plist_body(template, "AcmeDesk", ok(), "com.example.acme-desktop").unwrap();
    assert!(rendered.contains("com.example.acme-desktop"));
    assert!(rendered.contains("AcmeDesk"));
    assert!(render_plist_body(template, "AcmeDesk", ok(), "</string><key>Injected</key>").is_err());
}

#[test]
fn names_are_written_into_templates() {
    let template = "rustdesk RustDesk com.carriez.rustdesk";
    assert_eq!(
        replace_app_identity(template, "ACME", None),
        "acme ACME com.carriez.acme"
    );
    assert_eq!(
        replace_app_identity(template, "RustDesk", Some("com.x.rustdesk")),
        "rustdesk RustDesk com.x.rustdesk"
    );
    assert_eq!(replace_app_names(template, "rustdesk", "RustDesk", None), template);
    assert!(validate_bundle_identifier("").is_err());
    assert!(validate_bundle_identifier("com.example_app").is_err());
    assert!(validate_bundle_identifier("com.Example-1").is_ok());
    assert_eq!(
        get_installed_bundle_id(ok(), None),
        Err("Failed to read installed application bundle identifier".to_owned())
    );
    assert_eq!(
        get_installed_bundle_id(ok(), Some("a.b".to_owned())),
        Ok("a.b".to_owned())
    );
    assert!(get_installed_bundle_id(ok(), Some("a b".to_owned())).is_err());
}

#[test]
fn nonzero_osascript_status_is_an_error() {
    let failed = require_successful_osascript(Ok(bad_run()));
    assert_eq!(
        failed.err().unwrap(),
        "run osascript failed with status: exit status: 1, stderr: authorization denied"
    );
    assert_eq!(
        require_successful_osascript(Err("not found".to_owned())).err().unwrap(),
        "run osascript failed: not found"
    );
    assert!(require_successful_osascript(Ok(good_run())).is_ok());
    assert_eq!(
        finish_direct_update(Ok(bad_run())),
        err("osascript execution failed with status: exit status: 1, stderr: authorization denied")
    );
    assert_eq!(finish_direct_update(Ok(good_run())), ok());
    assert_eq!(
        finish_direct_update(Err("x".to_owned())),
        err("run osascript failed: x")
    );
}

#[test]
fn service_is_installed_with_both_definitions() {
    for (daemon, agent) in [(true, true), (true, false), (false, true)] {
        let check = is_installed_daemon(
            false,
            daemon,
            agent,
            &Template::Absent,
            &Template::Absent,
            &Template::Absent,
            &app(),
        );
        assert!(matches!(check, InstallCheck::Answer(a) if a == (daemon && agent)));
    }
    let InstallCheck::Install(request) = is_installed_daemon(
        true,
        true,
        true,
        &text("RustDesk i"),
        &text("RustDesk d"),
        &text("RustDesk a"),
        &app(),
    ) else {
        panic!("expected an installation");
    };
    assert_eq!(
        install_args(request, "me".to_owned()),
        vec!["-e", "AcmeDesk i", "AcmeDesk d", "AcmeDesk a", "me"]
    );
    for (install, daemon, agent) in [
        (Template::Absent, text("d"), text("a")),
        (text("i"), Template::Unreadable, text("a")),
        (text("i"), text("d"), Template::Absent),
    ] {
        assert!(matches!(
            is_installed_daemon(true, true, true, &install, &daemon, &agent, &app()),
            InstallCheck::Answer(false)
        ));
    }
    let refused = AppIdentity { name_check: err("bad name"), ..app() };
    assert!(matches!(
        is_installed_daemon(true, true, true, &text("i"), &text("d"), &text("a"), &refused),
        InstallCheck::Answer(false)
    ));
    assert!(starts_agent(Ok(good_run()), true));
    assert!(!starts_agent(Ok(good_run()), false));
    assert!(!starts_agent(Ok(bad_run()), true));
    assert_eq!(
        daemon_plist_file("com.carriez.A"),
        "/Library/LaunchDaemons/com.carriez.A_service.plist"
    );
    assert_eq!(
        agent_plist_file("com.carriez.A"),
        "/Library/LaunchAgents/com.carriez.A_server.plist"
    );
}

#[test]
fn direct_update_script_keeps_its_guards() {
    let script = privileged_update_body();
    let line = |marker: &str| {
        script
            .lines()
            .find(|line| line.contains(marker))
            .unwrap()
            .to_owned()
    };
    for guard in [
        "/var/run/com.carriez.service-maintenance.lock",
        "/usr/bin/lockf -knw -t 0",
        "set sh to lock_transaction & quoted form of sh",
        "on run {app_name, cur_pid, source_path, user_name, restore_owner, expected_sha256}",
    ] {
        assert!(script.contains(guard), "missing {guard}");
    }
    assert!(!script.contains("/usr/bin/seq"));
    let install = line("set install_staged_bundle");
    assert!(install.contains("staged_bundle_identity"));
    assert!(install.contains("/usr/bin/stat -f '%d:%i'"));
    let order = line("set sh to");
    let place = |part: &str| order.find(part).unwrap();
    assert!(place("ensure_service_inactive") < place("copy_files"));
    assert!(place("ensure_atomic_bundle_swap") < place("copy_files"));
    assert!(script.ends_with("end run\n\t        "));
}

#[test]
fn update_scripts_roll_back_uncommitted_bundle_swap() {
    let script = privileged_update_body();
    assert!(script.contains("transaction_committed"));
    assert!(script.contains("rollback_bundle"));
    assert!(script.contains("bundle_backed_up"));
    assert!(script.contains(r#"if [ \"${rollback_status:-0}\" -eq 0 ]"#));
    assert!(script.contains("restore_installed_owner & commit_update"));
}

#[test]
fn committed_update_cleanup_failure_is_non_fatal() {
    let script = privileged_update_body();
    let cleanup = script
        .lines()
        .find(|line| line.contains("set cleanup_verified"))
        .unwrap();
    let rollback = script
        .lines()
        .find(|line| line.contains("set rollback_update"))
        .unwrap();
    assert!(cleanup.contains("cleanup_status=1"));
    assert!(!cleanup.contains("|| status=1"));
    assert!(rollback.contains("cleanup_status=0"));
    assert!(rollback.contains("UPDATE_CLEANUP_FAILED_AFTER_COMMIT"));
    assert!(rollback.contains(r#"[ \"${transaction_committed:-0}\" -ne 1 ]; then status=1"#));
}

#[test]
fn verified_dmg_is_hashed_after_privileged_copy() {
    let script = privileged_update_body();
    let copy = script.find("/bin/cp").unwrap();
    let hash = script.find("/usr/bin/shasum -a 256").unwrap();
    let attach = script.find("/usr/bin/hdiutil attach -readonly").unwrap();
    assert!(script.contains("expected_sha256"));
    assert!(copy < hash && hash < attach);
}

#[test]
fn updates_go_through_the_agent_or_directly() {
    let dmg = || UpdateSource::VerifiedDmg {
        path: "/a.dmg".to_owned(),
        expected_sha256: "ff".to_owned(),
    };
    let plan = |installed: bool, stopped: bool| {
        update_me_from_source(
            dmg(),
            "RustDesk",
            ok(),
            "com.carriez.RustDesk",
            installed,
            stopped,
            7,
            "me".to_owned(),
        )
        .unwrap()
    };
    assert!(matches!(
        plan(true, false),
        UpdatePlan::Agent { agent_plist, .. }
            if agent_plist == "/Library/LaunchAgents/com.carriez.RustDesk_server.plist"
    ));
    let UpdatePlan::Direct { args } = plan(true, true) else {
        panic!("expected a direct update");
    };
    let body = privileged_update_body();
    assert_eq!(
        args,
        vec!["-e", body.as_str(), "RustDesk", "7", "/a.dmg", "me", "0", "ff"]
    );
    let UpdatePlan::Direct { args } = plan(false, false) else {
        panic!("expected a direct update");
    };
    assert_eq!(args[6], "1");
    assert_eq!(
        update_daemon_agent(
            &text("RustDesk"),
            &app(),
            "me".to_owned(),
            7,
            UpdateSource::AppDir("/x.app".to_owned())
        ),
        Ok(vec![
            "-e".to_owned(),
            "AcmeDesk".to_owned(),
            "me".to_owned(),
            "7".to_owned(),
            "/x.app".to_owned(),
            String::new()
        ])
    );
    assert_eq!(
        update_daemon_agent(&Template::Absent, &app(), String::new(), 7, dmg()),
        Err("Failed to find update.scpt".to_owned())
    );
    assert_eq!(
        update_daemon_agent(&Template::Unreadable, &app(), String::new(), 7, dmg()),
        Err("Failed to read update.scpt".to_owned())
    );
    let bad_id = AppIdentity { bundle_id: Some("a b".to_owned()), ..app() };
    assert_eq!(
        update_daemon_agent(&text("x"), &bad_id, String::new(), 7, dmg()),
        Err("Invalid application bundle identifier".to_owned())
    );
    assert_eq!(app_bundle("A"), "/Applications/A.app");
    assert_eq!(mounted_bundle("/Volumes/x", "A"), "/Volumes/x/A.app");
    assert!(is_installed(Some("/Applications/A.app/Contents/MacOS/A".to_owned()), "A"));
    assert!(!is_installed(Some("/Volumes/A.app".to_owned()), "A"));
    assert!(!is_installed(None, "A"));
}

#[test]
fn definitions_are_rendered_for_the_installed_app() {
    let id = || Ok("com.example.acme".to_owned());
    let (daemon, agent) =
        write_plists_for_app("AcmeDesk", ok(), id(), &text("d RustDesk"), &text("a rustdesk"))
            .unwrap();
    assert_eq!(
        daemon.path,
        "/Library/LaunchDaemons/com.carriez.AcmeDesk_service.plist"
    );
    assert_eq!(
        agent.path,
        "/Library/LaunchAgents/com.carriez.AcmeDesk_server.plist"
    );
    assert_eq!(daemon.body, "d AcmeDesk");
    assert_eq!(agent.body, "a acmedesk");
    for (daemon, agent, error) in [
        (Template::Absent, text("a"), "daemon.plist not found in embedded resources"),
        (Template::Unreadable, text("a"), "Failed to read daemon.plist"),
        (text("d"), Template::Absent, "agent.plist not found in embedded resources"),
        (text("d"), Template::Unreadable, "Failed to read agent.plist"),
    ] {
        assert_eq!(
            write_plists_for_app("A", ok(), id(), &daemon, &agent).err().unwrap(),
            error
        );
    }
    assert_eq!(
        write_plists_for_app("A", ok(), Err("no bundle".to_owned()), &text("d"), &text("a"))
            .err()
            .unwrap(),
        "no bundle"
    );
    assert_eq!(
        write_plists_for_app("A", ok(), Ok("a b".to_owned()), &text("d"), &text("a"))
            .err()
            .unwrap(),
        "Invalid application bundle identifier"
    );
}

#[test]
fn uninstalling_ends_with_the_window_gone() {
    assert!(matches!(
        uninstall_service(false, &text("u"), &app(), true),
        UninstallCheck::No
    ));
    assert!(matches!(
        uninstall_service(true, &Template::Absent, &app(), true),
        UninstallCheck::No
    ));
    assert!(matches!(
        uninstall_service(true, &text("RustDesk u"), &app(), true),
        UninstallCheck::RunAndWait(s) if s == "AcmeDesk u"
    ));
    assert!(matches!(
        uninstall_service(true, &text("RustDesk u"), &app(), false),
        UninstallCheck::RunInBackground(s) if s == "AcmeDesk u"
    ));
    let (gone, actions) = finish_uninstall(Ok(good_run()), false, false, "com.carriez.A", "A");
    assert!(gone);
    assert!(matches!(
        actions.as_slice(),
        [
            UninstallAction::CloseAllInstances,
            UninstallAction::Pause,
            UninstallAction::SetStopService,
            UninstallAction::RemoveAgent(label),
            UninstallAction::QuitGui,
        ] if label == "com.carriez.A_server"
    ));
    let (_, actions) = finish_uninstall(Ok(good_run()), false, true, "com.carriez.A", "A");
    assert!(matches!(
        actions.as_slice(),
        [
            UninstallAction::SetStopService,
            UninstallAction::RemoveAgent(_),
            UninstallAction::OpenApp(bundle),
            UninstallAction::Pause,
            UninstallAction::QuitGui,
        ] if bundle == "/Applications/A.app"
    ));
    let (gone, actions) = finish_uninstall(Ok(good_run()), true, true, "com.carriez.A", "A");
    assert!(!gone && actions.is_empty());
    assert!(!finish_uninstall(Ok(bad_run()), false, true, "com.carriez.A", "A").0);
}

#[test]
fn services_start_with_their_updates() {
    let steps = |action: ServiceStartAction| start_os_service(Ok(action)).unwrap();
    assert_eq!(
        steps(ServiceStartAction::Start),
        vec![ServiceStep::StartUpdates, ServiceStep::StartChannel]
    );
    assert_eq!(
        steps(ServiceStartAction::StartForMigrationReadiness),
        vec![ServiceStep::UpdatesAfterMigration, ServiceStep::StartChannel]
    );
    assert_eq!(
        steps(ServiceStartAction::StartForRollbackReadiness),
        vec![ServiceStep::StartChannel]
    );
    assert!(steps(ServiceStartAction::ExitAfterMigrationLaunch).is_empty());
    assert!(start_os_service(Err("refused".to_owned())).is_err());
    assert!(updates_start_after_migration(ok(), ok()));
    assert!(!updates_start_after_migration(err("x"), ok()));
    assert!(!updates_start_after_migration(ok(), err("x")));
    for arg in ["--server", "--cm", "--tray"] {
        assert!(handle_application_should_open_untitled_file(arg));
    }
    assert!(!handle_application_should_open_untitled_file(""));
    assert_eq!(
        elevate_script("/a/b", &vec!["--x".to_owned(), "y".to_owned()], "Please"),
        "do shell script \"/a/b --x y\" with prompt \"Please\" with administrator privileges"
    );
    assert_eq!(
        run_as_user_args("501".to_owned(), "/a".to_owned(), &vec!["--tray".to_owned()]),
        vec!["asuser", "501", "/a", "--tray"]
    );
}

/// The two definitions on a disk, and how writing them goes.
struct PairDisk {
    daemon: String,
    agent: String,
    fail_write: Option<Which>,
    written_before_failure: bool,
    agent_is_link: bool,
}

impl PairDisk {
    fn new() -> PairDisk {
        PairDisk {
            daemon: "old daemon".to_owned(),
            agent: "old agent".to_owned(),
            fail_write: None,
            written_before_failure: false,
            agent_is_link: false,
        }
    }

    fn run(&mut self) -> Result<(), String> {
        let backup = (self.daemon.clone(), self.agent.clone());
        let mut pair = PlistPair::new();
        loop {
            let result = match pair.awaited().unwrap() {
                PairStep::BackUp(Which::Agent) if self.agent_is_link => {
                    let kind = Ok(PathKind::Other);
                    match read_optional_plist("/agent.plist", kind) {
                        PlistRead::Refused(error) => Err(error),
                        _ => Ok(()),
                    }
                }
                PairStep::BackUp(_) => Ok(()),
                PairStep::Write(which) => {
                    let fails = self.fail_write == Some(which);
                    if !fails || self.written_before_failure {
                        match which {
                            Which::Daemon => self.daemon = "new daemon".to_owned(),
                            Which::Agent => self.agent = "new agent".to_owned(),
                        }
                    }
                    if fails {
                        err("write failed")
                    } else {
                        ok()
                    }
                }
                PairStep::Restore(Which::Daemon) => {
                    self.daemon = backup.0.clone();
                    ok()
                }
                PairStep::Restore(Which::Agent) => {
                    self.agent = backup.1.clone();
                    ok()
                }
            };
            match pair.write_plist_pair_with(result) {
                PairNext::Step(_) => {}
                PairNext::Done => return Ok(()),
                PairNext::Failed(error) => return Err(error),
            }
        }
    }

    fn assert_unchanged(&self) {
        assert_eq!(self.daemon, "old daemon");
        assert_eq!(self.agent, "old agent");
    }
}

#[test]
fn second_plist_failure_restores_the_first_plist() {
    let mut disk = PairDisk::new();
    disk.fail_write = Some(Which::Agent);
    assert_eq!(disk.run(), err("write failed"));
    disk.assert_unchanged();
}

#[test]
fn agent_plist_symlink_is_rejected_before_daemon_write() {
    let mut disk = PairDisk::new();
    disk.agent_is_link = true;
    assert_eq!(disk.run(), err("plist is not a regular file: /agent.plist"));
    disk.assert_unchanged();
}

#[test]
fn post_rename_error_restores_both_plists() {
    let mut disk = PairDisk::new();
    disk.fail_write = Some(Which::Agent);
    disk.written_before_failure = true;
    assert!(disk.run().is_err());
    disk.assert_unchanged();
}

#[test]
fn both_plists_are_written() {
    let mut disk = PairDisk::new();
    assert_eq!(disk.run(), ok());
    assert_eq!(disk.daemon, "new daemon");
    assert_eq!(disk.agent, "new agent");
}

#[test]
fn failed_restoring_is_reported() {
    let mut pair = PlistPair::new();
    pair.write_plist_pair_with(ok());
    pair.write_plist_pair_with(ok());
    pair.write_plist_pair_with(err("disk full"));
    pair.write_plist_pair_with(err("gone"));
    let PairNext::Failed(error) = pair.write_plist_pair_with(ok()) else {
        panic!("expected a failure");
    };
    assert_eq!(
        error,
        "plist write failed (disk full); rollback results: daemon=Err(gone), agent=Ok(())"
    );
    assert_eq!(pair.awaited(), None);
}

#[test]
fn definitions_are_written_through_a_waiting_file() {
    assert_eq!(temporary_name("a.plist", 12), "a.plist.tmp.12");
    let mut steps = vec![first_write_step()];
    while let WriteNext::Step(next) = after_write_step(steps[steps.len() - 1], true) {
        steps.push(next);
    }
    assert_eq!(
        steps,
        vec![
            WriteStep::CreateTemporary,
            WriteStep::SetMode,
            WriteStep::WriteBody,
            WriteStep::SyncFile,
            WriteStep::Rename,
            WriteStep::SyncDirectory,
        ]
    );
    assert!(matches!(
        after_write_step(WriteStep::WriteBody, false),
        WriteNext::Step(WriteStep::RemoveTemporary)
    ));
    assert!(matches!(
        after_write_step(WriteStep::RemoveTemporary, false),
        WriteNext::Done
    ));
    assert_eq!(report_failed_plist_cleanup("a".to_owned(), Removal::Removed), "a");
    assert_eq!(report_failed_plist_cleanup("a".to_owned(), Removal::NotFound), "a");
    assert_eq!(
        report_failed_plist_cleanup("a".to_owned(), Removal::Failed("b".to_owned())),
        "plist write failed (a); temporary cleanup failed (b)"
    );
    assert!(matches!(
        read_optional_plist("/p", Ok(PathKind::RegularFile)),
        PlistRead::ReadContents
    ));
    assert!(matches!(
        read_optional_plist("/p", Ok(PathKind::Absent)),
        PlistRead::NoBackup
    ));
    assert!(matches!(
        read_optional_plist("/p", Err("io".to_owned())),
        PlistRead::Refused(e) if e == "io"
    ));
    assert!(matches!(
        restore_plist("/p", true, Ok(PathKind::Other)),
        PlistRestore::WriteBackup
    ));
    assert!(matches!(
        restore_plist("/p", false, Ok(PathKind::RegularFile)),
        PlistRestore::RemoveFile
    ));
    assert!(matches!(
        restore_plist("/p", false, Ok(PathKind::Absent)),
        PlistRestore::Nothing
    ));
    assert!(matches!(
        restore_plist("/p", false, Ok(PathKind::Other)),
        PlistRestore::Refused(e) if e == "new plist path is not a regular file: /p"
    ));
}

#[test]
fn sessions_are_read_from_reports() {
    let listing = "total 0\ncrw------- 1 alice staff 0 console\n";
    assert_eq!(get_active_user(Some(listing.to_owned())), "alice");
    assert_eq!(get_active_user(Some("a b\n".to_owned())), "");
    assert_eq!(get_active_user(None), "");
    assert_eq!(session_user("bob  console Jan 1"), Some("bob".to_owned()));
    assert_eq!(session_user("   "), None);
    assert_eq!(session_uid(" 501\n"), Some(501));
    assert_eq!(session_uid("x"), None);
    assert_eq!(console_uid("0"), Some(0));
    assert_eq!(console_uid(" 0"), None);
    assert_eq!(gui_domain(501), "gui/501");
    assert_eq!(get_active_user_home("bob"), Some("/Users/bob".to_owned()));
    assert_eq!(get_active_user_home(""), None);
    assert!(is_prelogin("0"));
    assert!(!is_prelogin("501"));
    assert!(is_locked(Some("x \"CGSSessionScreenIsLocked\"=Yes y".to_owned())));
    assert!(is_locked(Some("\"CGSSessionScreenIsLocked\"=true".to_owned())));
    assert!(!is_locked(Some("\"CGSSessionScreenIsLocked\"=No".to_owned())));
    assert!(!is_locked(None));
}

#[test]
fn users_are_listed_in_rising_order() {
    let owner = |uid: u32, has_domain: bool| Some(ConsoleOwner { uid, has_domain });
    assert_eq!(
        get_logged_in_uids(&vec![503, 501, 503], owner(502, true)),
        vec![501, 502, 503]
    );
    assert_eq!(get_logged_in_uids(&vec![501], owner(0, false)), vec![0, 501]);
    assert_eq!(get_logged_in_uids(&vec![501], owner(502, false)), vec![501]);
    assert_eq!(get_logged_in_uids(&vec![], owner(502, false)), vec![0]);
    assert_eq!(get_logged_in_uids(&vec![], None), vec![0]);
    assert_eq!(uid_list(&vec![0, 501, 502]), "0 501 502");
    assert_eq!(uid_list(&vec![]), "");
}

#[test]
fn servers_are_found_by_their_program() {
    let process = |pid: u32, args: &[&str], exe: Option<&str>| RunningProcess {
        pid,
        cmd: args.iter().map(|a| a.to_string()).collect(),
        exe: exe.map(|e| e.to_owned()),
        start_time: 100 + pid as i64,
    };
    let list = vec![
        process(1, &["a"], Some("/a")),
        process(2, &["a", "--tray"], Some("/a")),
        process(3, &["a", "--server"], None),
        process(4, &["a", "--server"], Some("/b")),
        process(5, &["a", "--server"], Some("/a")),
    ];
    assert_eq!(get_server_start_time(&list, "/a"), Some((105, 5)));
    assert_eq!(get_server_start_time(&list, "/c"), None);
}

fn size(width: i32, height: i32) -> Resolution {
    Resolution { width, height }
}

#[test]
fn resolutions_fall_and_narrow_ones_go() {
    assert_eq!(
        resolutions(&vec![size(640, 480), size(1920, 1080), size(640, 480), size(1920, 1200)]),
        vec![size(1920, 1200), size(1920, 1080), size(640, 480)]
    );
    let many: Vec<Resolution> = (0..16).map(|i| size(760 + 5 * i, 600)).collect();
    let kept = resolutions(&many);
    assert_eq!(kept.len(), 8);
    assert_eq!(kept[0], size(835, 600));
    assert_eq!(kept[7], size(800, 600));
    assert_eq!(resolutions(&many[..15].to_vec()).len(), 15);
}

#[test]
fn displays_and_windows_are_told_apart() {
    let names = vec!["1".to_owned(), "42".to_owned()];
    assert_eq!(get_focused_display(&names, 42), Some(1));
    assert_eq!(get_focused_display(&names, 7), None);
    assert_eq!(display_number("42"), Some(42));
    assert_eq!(display_number("main"), None);
    assert!(clip_cursor(None));
    assert!(!clip_cursor(Some((0, 0, 1, 1))));

    let window = |named: bool, pid: i32, owner: Option<&str>| ScreenWindow {
        named,
        pid,
        owner: owner.map(|o| o.to_owned()),
    };
    assert!(!unsafe_is_can_screen_recording(
        &vec![
            window(false, 9, Some("Safari")),
            window(true, 5, Some("Safari")),
            window(true, 9, None),
            window(true, 9, Some("Dock")),
        ],
        5
    ));
    assert!(unsafe_is_can_screen_recording(&vec![window(true, 9, Some("Safari"))], 5));

    let mut seed = CursorSeed { latest: 0 };
    assert!(seed.changed(3));
    assert!(!seed.changed(3));
    seed.reset_input_cache();
    assert!(seed.changed(3));
}

fn node(path: &str, entry: UpdateEntry) -> UpdateNode {
    UpdateNode {
        path: path.to_owned(),
        name: path.rsplit('/').next().map(|n| n.to_owned()),
        entry,
    }
}

fn dir(path: &str, children: Vec<UpdateNode>) -> UpdateNode {
    node(
        path,
        UpdateEntry::Directory { resolved: Ok(path.to_owned()), children, failure: None },
    )
}

fn link(path: &str, target: &str) -> UpdateNode {
    node(path, UpdateEntry::Link { target: Ok(target.to_owned()) })
}

#[test]
fn update_tree_rejects_framework_root_symlink() {
    let app = dir(
        "/t/RustDesk.app",
        vec![dir(
            "/t/RustDesk.app/Contents",
            vec![dir(
                "/t/RustDesk.app/Contents/Frameworks",
                vec![link(
                    "/t/RustDesk.app/Contents/Frameworks/External.framework",
                    "/t/External.framework",
                )],
            )],
        )],
    );
    assert!(validate_update_tree(&app, None).is_err());
}

#[test]
fn update_tree_allows_internal_framework_symlink() {
    let root = "/t/RustDesk.app/Contents/Frameworks/Test.framework";
    let framework = dir(
        root,
        vec![dir(
            &format!("{root}/Versions"),
            vec![
                dir(&format!("{root}/Versions/A"), vec![]),
                link(&format!("{root}/Versions/Current"), &format!("{root}/Versions/A")),
            ],
        )],
    );
    let app = dir(
        "/t/RustDesk.app",
        vec![dir("/t/RustDesk.app/Contents/Frameworks", vec![framework])],
    );
    assert!(validate_update_tree(&app, None).is_ok());
}

#[test]
fn update_tree_reports_the_first_fault() {
    let root = "/t/X.framework";
    let leaving = dir("/t", vec![dir(root, vec![link("/t/X.framework/l", "/t/X.frameworkX")])]);
    assert_eq!(
        validate_update_tree(&leaving, None),
        err("[root-update] symlink in update bundle: /t/X.framework/l")
    );
    let device = dir("/t", vec![node("/t/d", UpdateEntry::Other), link("/t/l", "/etc")]);
    assert_eq!(
        validate_update_tree(&device, None),
        err("[root-update] unsupported file in update bundle: /t/d")
    );
    let unreadable = dir("/t", vec![node("/t/f", UpdateEntry::File), node("/t/u", UpdateEntry::Unreadable("denied".to_owned()))]);
    assert_eq!(validate_update_tree(&unreadable, None), err("denied"));
    let broken = node(
        "/t",
        UpdateEntry::Directory {
            resolved: Ok("/t".to_owned()),
            children: vec![],
            failure: Some("read error".to_owned()),
        },
    );
    assert_eq!(validate_update_tree(&broken, None), err("read error"));
    assert!(ensure_same_filesystem("/a", 1, "/b", 1).is_ok());
    assert_eq!(
        ensure_same_filesystem("/a", 1, "/b", 2),
        err("[root-update] atomic bundle swap requires one filesystem: /a and /b")
    );
}

fn position(text: &str, part: &str) -> usize {
    match text.find(part) {
        Some(at) => at,
        None => panic!("missing {part}"),
    }
}

#[test]
fn root_update_transactions_protected_helper() {
    let values = script_values("RustDesk", "/tmp/u", &vec![501, 502]);
    let source = update_script(&values);
    let stage = position(&source, "staged_helper_bundle=");
    let swap = position(&source, "helper_swapped=1");
    let write_plists = source.rfind("if ! write_new_plists; then").unwrap();
    let commit = source.rfind("rollback_done=1").unwrap();
    let cleanup = position(
        &source,
        "committed update but could not remove helper transaction",
    );

    assert!(source.contains("/Library/PrivilegedHelperTools/com.carriez.RustDesk_service.bundle"));
    assert!(source.contains("restore_old_helper"));
    assert!(source.contains("signed update metadata"));
    assert!(source.contains(
        "/Library/PrivilegedHelperTools/com.carriez.RustDesk_service.bundle/Contents/MacOS/service --write-plists"
    ));
    assert!(source.contains("restore_plist_atomically()"));
    assert!(source.contains("/usr/bin/logger -t RustDesk \"$cleanup_warning\""));
    assert!(source.contains(
        "/Library/PrivilegedHelperTools/.com.carriez.RustDesk_service.root-update/previous.bundle"
    ));
    assert!(source.contains(
        "/Library/PrivilegedHelperTools/.com.carriez.RustDesk_service.root-update/failed.bundle"
    ));
    assert!(!source.contains("/Applications/RustDesk.app/Contents/MacOS/service --write-plists"));
    assert!(stage < swap && swap < write_plists && write_plists < commit && commit < cleanup);
    assert!(source.starts_with("#!/bin/sh\numask 077\n"));
    assert!(source.contains("for agent_uid in 501 502; do"));
    assert!(!source.contains("{uid_list}"));
    assert!(!source.contains("{{"));
}

#[test]
fn values_replace_their_names() {
    let values = script_values("A", "/t", &vec![0]);
    assert_eq!(fill("{app_name} {{x}} {tmp_dir}", &values), "A {x} /t");
    assert_eq!(fill("{unknown} {open", &values), "{unknown} {open");
    assert_eq!(fill("}", &values), "}");
}

fn run(success: bool, stdout: &str) -> CommandRun {
    CommandRun {
        success,
        status: "exit status: 1".to_owned(),
        stdout: Ok(stdout.to_owned()),
        stderr: " no space\n".to_owned(),
    }
}

#[test]
fn commands_of_the_update_are_read() {
    assert_eq!(preparation_directory(&run(true, "/tmp/u\n")), Ok("/tmp/u".to_owned()));
    assert_eq!(
        preparation_directory(&run(false, "")),
        Err("[root-update] failed to create preparation directory: no space".to_owned())
    );
    assert_eq!(
        preparation_directory(&run(true, " \n")),
        Err("[root-update] Failed to create temp directory".to_owned())
    );
    let garbled = CommandRun { stdout: Err("bad byte".to_owned()), ..run(true, "") };
    assert_eq!(
        preparation_directory(&garbled),
        Err("[root-update] mktemp output error: bad byte".to_owned())
    );
    assert_eq!(check_staged_version(&run(true, "1.4.9\n"), "1.4.9"), ok());
    assert_eq!(
        check_staged_version(&run(true, "1.4.\"8\n"), "1.4.9"),
        err("[root-update] staged bundle version mismatch: expected \"1.4.9\", found \"1.4.\\\"8\"")
    );
    assert_eq!(
        check_staged_version(&run(true, ""), "1.4.9"),
        err("[root-update] staged bundle version is empty")
    );
    assert_eq!(
        check_staged_version(&garbled, "1.4.9"),
        err("[root-update] staged bundle version is not UTF-8: bad byte")
    );
    assert_eq!(
        check_staged_version(&run(false, ""), "1.4.9"),
        err("[root-update] failed to read staged bundle version: no space")
    );
    assert_eq!(backup_update_plist("/p", Ok(PathKind::RegularFile)), ok());
    assert_eq!(
        backup_update_plist("/p", Ok(PathKind::Absent)),
        err("[root-update] required installed plist is missing: /p")
    );
    assert_eq!(
        backup_update_plist("/p", Ok(PathKind::Other)),
        err("[root-update] plist is not a regular file: /p")
    );
}

/// Runs an update in which each request is answered well, but for one step.
fn run_update(bad: Option<(RootStep, RootOutcome)>) -> (RootUpdate, Vec<RootRequest>) {
    let mut bad = bad;
    let mut update =
        RootUpdate::update_from_dmg_as_root("RustDesk", ok(), "/a.dmg", "1.4.9").unwrap();
    let mut requests = Vec::new();
    while let Some(request) = update.request() {
        let good = match &request {
            RootRequest::MakeDirectory => RootOutcome::Command(run(true, "/tmp/u\n")),
            RootRequest::CheckDirectory(_) | RootRequest::ProbeFile(_) => RootOutcome::Present(true),
            RootRequest::Probe(_) => RootOutcome::Present(false),
            RootRequest::CompareFilesystems(_) => RootOutcome::Devices(1, 1),
            RootRequest::AskSessions => RootOutcome::Idle(true),
            RootRequest::ReadVersion(_) => RootOutcome::Command(run(true, "1.4.9\n")),
            RootRequest::ListUsers => RootOutcome::Users(vec![501]),
            RootRequest::MakeExecutable(_) => RootOutcome::Command(run(true, "")),
            _ => RootOutcome::Done,
        };
        requests.push(request);
        let outcome = match bad.take() {
            Some((step, outcome)) if step == update.step => outcome,
            other => {
                bad = other;
                good
            }
        };
        update.resume(outcome);
    }
    (update, requests)
}

#[test]
fn updates_are_launched_when_all_is_well() {
    let (update, requests) = run_update(None);
    assert_eq!(update.step, RootStep::Launched);
    assert_eq!(update.error, None);
    assert_eq!(requests.len(), 23);
    assert!(matches!(
        &requests[5],
        RootRequest::Extract { dmg, into } if dmg == "/a.dmg" && into == "/tmp/u"
    ));
    assert!(matches!(
        &requests[7],
        RootRequest::ReadVersion(p) if p == "/tmp/u/RustDesk.app/Contents/Info.plist"
    ));
    assert!(requests.iter().any(|r| matches!(
        r,
        RootRequest::WriteScript { path, text }
            if path == "/tmp/u/rustdesk_update.sh" && text.contains("in 501; do")
    )));
    assert!(matches!(&requests[22], RootRequest::Launch(p) if p == "/tmp/u/rustdesk_update.sh"));
    assert!(RootUpdate::update_from_dmg_as_root("A;b", err("bad"), "/a.dmg", "1").is_err());
}

#[test]
fn failed_updates_remove_their_directory() {
    let session = "[root-update] active session started before update launch";
    for (step, outcome, error, cleans) in [
        (RootStep::MakeDirectory, RootOutcome::Error("io".to_owned()), "io", false),
        (
            RootStep::CheckDirectory,
            RootOutcome::Present(false),
            "[root-update] preparation path is not a real directory",
            false,
        ),
        (
            RootStep::CompareFilesystems,
            RootOutcome::Devices(1, 2),
            "[root-update] atomic bundle swap requires one filesystem: /tmp/u and /Applications",
            true,
        ),
        (
            RootStep::FirstSessions,
            RootOutcome::Idle(false),
            "[root-update] Active session detected, deferring update.",
            true,
        ),
        (RootStep::ValidateTree, RootOutcome::Error("link".to_owned()), "link", true),
        (
            RootStep::ProbeTransaction,
            RootOutcome::Present(true),
            "[root-update] stale update recovery path requires inspection: \
             /Library/PrivilegedHelperTools/.com.carriez.RustDesk_service.root-update",
            true,
        ),
        (
            RootStep::ProbeBackup,
            RootOutcome::Present(true),
            "[root-update] stale update recovery path requires inspection: /tmp/u/previous.app",
            true,
        ),
        (
            RootStep::ProbeService,
            RootOutcome::Present(false),
            "[root-update] staged service binary is missing: \
             /tmp/u/RustDesk.app/Contents/MacOS/service",
            true,
        ),
        (
            RootStep::SecondSessions,
            RootOutcome::Idle(false),
            "[root-update] Active session detected after extraction, deferring update.",
            true,
        ),
        (RootStep::ThirdSessions, RootOutcome::Idle(false), session, true),
        (
            RootStep::MakeExecutable,
            RootOutcome::Command(run(false, "")),
            "[root-update] failed to make update script executable: exit status: 1",
            true,
        ),
        (
            RootStep::ListUsersAgain,
            RootOutcome::Users(vec![501, 502]),
            "[root-update] GUI session set changed before update launch",
            true,
        ),
        (RootStep::LastSessions, RootOutcome::Idle(false), session, true),
        (RootStep::Launch, RootOutcome::Error("no lockf".to_owned()), "no lockf", true),
    ] {
        let (update, requests) = run_update(Some((step, outcome)));
        assert_eq!(update.step, RootStep::Failed);
        assert_eq!(update.error.as_deref(), Some(error));
        let removed = requests
            .iter()
            .any(|r| matches!(r, RootRequest::RemoveDirectory(d) if d == "/tmp/u"));
        assert_eq!(removed, cleans);
    }
}

fn dmg_steps(mut update: DmgUpdate, outcomes: &[bool]) -> (Vec<DmgStep>, Option<String>) {
    let mut steps = vec![update.step];
    for (number, well) in outcomes.iter().enumerate() {
        update.resume(if *well { ok() } else { err(&format!("failure {number}")) });
        steps.push(update.step);
    }
    (steps, update.error)
}

#[test]
fn mounted_updates_clean_up() {
    let (steps, error) = dmg_steps(DmgUpdate::update_from_dmg(), &[true; 5]);
    assert_eq!(
        steps,
        [
            DmgStep::CopyToTemp,
            DmgStep::Attach,
            DmgStep::UpdateMounted,
            DmgStep::Detach,
            DmgStep::RemoveTemp,
            DmgStep::Finished,
        ]
    );
    assert_eq!(error, None);
    let (steps, error) = dmg_steps(DmgUpdate::update_from_dmg(), &[true, false, false]);
    assert_eq!(steps[2..], [DmgStep::RemoveTemp, DmgStep::Finished]);
    assert_eq!(error, Some("failure 1".to_owned()));
    let (steps, error) = dmg_steps(DmgUpdate::update_from_dmg(), &[true, true, false, false, true]);
    assert_eq!(steps[3..], [DmgStep::Detach, DmgStep::RemoveTemp, DmgStep::Finished]);
    assert_eq!(error, Some("failure 2".to_owned()));
    let (steps, error) = dmg_steps(DmgUpdate::update_to(), &[false, true]);
    assert_eq!(
        steps,
        [DmgStep::UpdateExtracted, DmgStep::RemoveTemp, DmgStep::Finished]
    );
    assert_eq!(error, Some("failure 0".to_owned()));
}

#[test]
fn verified_updates_remove_their_copy_before_quitting() {
    let start = DmgUpdate::update_to_verified_dmg;
    let (steps, error) = dmg_steps(start(), &[true; 5]);
    assert_eq!(
        steps,
        [
            DmgStep::CopyAndVerify,
            DmgStep::VerifyAgain,
            DmgStep::UpdateFromCopy,
            DmgStep::RemoveCopy,
            DmgStep::QuitGui,
            DmgStep::Finished,
        ]
    );
    assert_eq!(error, None);
    let (steps, error) = dmg_steps(start(), &[false]);
    assert_eq!(steps[1], DmgStep::Finished);
    assert_eq!(error, Some("failure 0".to_owned()));
    let (steps, error) = dmg_steps(start(), &[true, false, true]);
    assert_eq!(steps[2..], [DmgStep::RemoveCopy, DmgStep::Finished]);
    assert_eq!(error, Some("failure 1".to_owned()));
    let (steps, _) = dmg_steps(start(), &[true, true, false, true]);
    assert_eq!(steps[3..], [DmgStep::RemoveCopy, DmgStep::Finished]);
    let (steps, error) = dmg_steps(start(), &[true, true, true, false]);
    assert_eq!(steps[4], DmgStep::QuitGui);
    assert_eq!(error, None);
}

#[test]
fn unpacking_is_reported() {
    let name = ("name", "extract-update-dmg".to_owned());
    assert_eq!(extract_update_dmg(Ok(())), [name.clone()]);
    assert_eq!(extract_update_dmg(err("no space")), [name, ("err", "no space".to_owned())]);
    assert!(extract_dmg_into_existing_dir("/tmp/x", true).is_ok());
    assert_eq!(
        extract_dmg_into_existing_dir("/tmp/x", false),
        err("[root-update] Temp directory does not exist: \"/tmp/x\"")
    );
}

#[test]
fn displays_and_sessions_answer_plainly() {
    let size = Resolution { width: 1920, height: 1080 };
    assert_eq!(current_resolution("1", Some(size)), Ok(size));
    assert_eq!(current_resolution("1", None), Err(ResolutionError::Refused));
    assert_eq!(current_resolution("main", Some(size)), Err(ResolutionError::NoNumber));
    assert_eq!(change_resolution_directly("1", true), Ok(()));
    assert_eq!(change_resolution_directly("1", false), Err(ResolutionError::Refused));
    assert_eq!(change_resolution_directly("", true), Err(ResolutionError::NoNumber));
    let texts = |error: ResolutionError| (error.reading_text(), error.changing_text());
    let refused = (Some("MacGetMode failed"), Some("MacSetMode failed"));
    assert_eq!(texts(ResolutionError::Refused), refused);
    assert_eq!(texts(ResolutionError::NoNumber), (None, None));
    assert_eq!(get_double_click_time(), 500);
    assert_eq!(block_input(true), (true, String::new()));
    assert!(is_root("root") && !is_root("Root"));
    assert!(install_service(true, true) && !install_service(true, false));
    let foreign = vec![ScreenWindow { named: true, pid: 7, owner: Some("Finder".to_owned()) }];
    let answer = |allowed, start_capture| ScreenRecording { allowed, start_capture };
    assert_eq!(is_can_screen_recording(Some(false), &foreign, 1, true), answer(false, false));
    assert_eq!(is_can_screen_recording(None, &foreign, 1, true), answer(true, false));
    assert_eq!(is_can_screen_recording(None, &foreign, 7, true), answer(false, true));
    assert_eq!(is_can_screen_recording(None, &foreign, 7, false), answer(false, false));
}
