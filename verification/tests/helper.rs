use rustdesk::helper::ipc_mode::{
    complete_migration_readiness, legacy_rollback_ipc_enabled, protected_service_ipc_enabled,
    record_service_ipc_mode, ServiceIpcMode, MODE_PROTECTED_ONLY, MODE_UNINITIALIZED,
};
use rustdesk::file_path::{same_optional_path, same_path};
use rustdesk::helper::launchd::{
    after_reload_step, job_has_stopped, launchd_output_is_running, launchd_output_ready_pid,
    launchd_pid, launchd_ready_pid, load_failure_text, signal_pid, socket_is_live, ReadyWait,
    ReloadNext, ReloadStep, ServiceProbe, StopNext, StopWait, WaitStep, READINESS_ATTEMPTS,
    STOP_ATTEMPTS,
};
use rustdesk::helper::migration::{
    HelperMigration, MigrationNext, MigrationPhase, MigrationStep, Outcome,
};
use rustdesk::helper::paths::{
    app_name_of_label, expected_gui_executable, legacy_service_path, starts_helper, HelperPaths,
    MigrationPaths,
};
use rustdesk::helper::start::{
    classify_service_identity, complete_existing_migration, ipc_mode_for, legacy_pending_action,
    legacy_start, migration_is_complete, migration_state_step, protected_start_action,
    recover_protected_preparation, validate_finalizer_identity, validate_legacy_writer,
    validate_plist_writer_uid, FinalizerNext, FinalizerStep, LegacyStart, ServiceIdentity,
    ServiceStartAction,
};
use rustdesk::helper::validate::{
    atomic_write_failure, lock_failure, octal_text, require_maintenance_root,
    validate_ancestor_directories, validate_hardened_directory, validate_helper_tree,
    validate_lock_file, validate_lock_identity, validate_owned_directory, validate_owned_file,
    validate_privileged_tools_directory, validate_state_directory, ExpectedOwner, FileIdentity,
    FileMeta, Found, HelperTree, ROOT_UID,
};

const PROTECTED_HELPER: &str =
    "/Library/PrivilegedHelperTools/com.carriez.RustDesk_service.bundle/Contents/MacOS/service";
const LEGACY_HELPER: &str = "/Applications/RustDesk.app/Contents/MacOS/service";
const WRONG_HELPER: &str =
    "/Library/PrivilegedHelperTools/com.carriez.Other_service.bundle/Contents/MacOS/service";

const OLD_PLIST: &str = "old daemon plist";
const NEW_PLIST: &str = "new daemon plist";

/// An installation, in memory, on which moves are carried out.
struct World {
    plist: String,
    /// What the plist starts is the helper.
    old_program_is_helper: bool,
    helper: Option<String>,
    helper_acceptable: bool,
    source: String,
    source_acceptable: bool,
    custom: bool,
    helper_custom: bool,
    backup: Option<String>,
    state: bool,
    phase: Option<MigrationPhase>,
    quarantined: bool,
    ready: bool,
    fail_first_reload: bool,
    reload_calls: usize,
    checked_helper: Vec<bool>,
}

impl World {
    fn new() -> World {
        World {
            plist: OLD_PLIST.to_owned(),
            old_program_is_helper: false,
            helper: None,
            helper_acceptable: true,
            source: "new service".to_owned(),
            source_acceptable: true,
            custom: true,
            helper_custom: false,
            backup: None,
            state: false,
            phase: None,
            quarantined: false,
            ready: false,
            fail_first_reload: false,
            reload_calls: 0,
            checked_helper: Vec::new(),
        }
    }

    fn write(&mut self, phase: MigrationPhase) -> Outcome {
        self.phase = Some(phase);
        Outcome::Done
    }

    fn clean_up(&mut self) -> Outcome {
        self.state = false;
        self.phase = None;
        self.backup = None;
        Outcome::Done
    }

    fn present(there: bool) -> Outcome {
        if there {
            Outcome::Present
        } else {
            Outcome::Absent
        }
    }

    fn check(acceptable: bool, error: &str) -> Outcome {
        if acceptable {
            Outcome::Done
        } else {
            Outcome::Failed { error: error.to_owned() }
        }
    }

    fn restore(&mut self) -> Outcome {
        match self.backup.clone() {
            Some(plist) => {
                self.plist = plist;
                Outcome::Done
            }
            None => Outcome::Failed { error: "no backup".to_owned() },
        }
    }

    fn perform(&mut self, step: MigrationStep) -> Outcome {
        match step {
            MigrationStep::StatTools => Outcome::Present,
            MigrationStep::StatState => World::present(self.state),
            MigrationStep::CreateState => {
                self.state = true;
                Outcome::Done
            }
            MigrationStep::BackUpPlist => {
                self.backup = Some(self.plist.clone());
                Outcome::Done
            }
            MigrationStep::WritePreparing | MigrationStep::WritePreparingAgain => {
                self.write(MigrationPhase::Preparing)
            }
            MigrationStep::CreateStagedHelper => {
                World::check(self.source_acceptable, "source is not a regular file")
            }
            MigrationStep::StatHelper
            | MigrationStep::StatHelperWithoutBackup
            | MigrationStep::StatRemovedHelper => World::present(self.helper.is_some()),
            MigrationStep::ValidateExistingHelper
            | MigrationStep::ValidateInstalledHelper
            | MigrationStep::ValidateHelperBeforePlist
            | MigrationStep::ValidatePreparedHelper
            | MigrationStep::ValidatePendingHelper(_)
            | MigrationStep::ValidateKeptHelper
            | MigrationStep::ValidateRemovedHelper => World::check(
                self.helper.is_some() && self.helper_acceptable,
                "helper is not acceptable",
            ),
            MigrationStep::CompareHelper => {
                Outcome::Answer(self.helper.as_ref() == Some(&self.source))
            }
            MigrationStep::WriteInstalling => self.write(MigrationPhase::InstallingHelper),
            MigrationStep::InstallHelper => {
                self.helper = Some(self.source.clone());
                self.helper_custom = self.custom;
                Outcome::Done
            }
            MigrationStep::WriteDaemonPlist => {
                self.plist = NEW_PLIST.to_owned();
                Outcome::Done
            }
            MigrationStep::WritePrepared => self.write(MigrationPhase::Prepared),
            MigrationStep::ReadOptionalPhase => match self.phase {
                Some(phase) => Outcome::Phase(phase),
                None => Outcome::Absent,
            },
            MigrationStep::StatBackup => World::present(self.backup.is_some()),
            MigrationStep::RestorePlistAfterPreparation | MigrationStep::RestorePlist => {
                self.restore()
            }
            MigrationStep::CleanUpMismatch
            | MigrationStep::CleanUpPreparation
            | MigrationStep::CleanUpRollback
            | MigrationStep::CleanUpCommit => self.clean_up(),
            MigrationStep::ValidateState | MigrationStep::ValidateRolledBackState => {
                World::check(self.state, "no state")
            }
            MigrationStep::ReadPhase | MigrationStep::ReadRolledBackPhase => match self.phase {
                Some(phase) => Outcome::Phase(phase),
                None => Outcome::Failed { error: "no phase".to_owned() },
            },
            MigrationStep::WriteBootstrapping => self.write(MigrationPhase::Bootstrapping),
            MigrationStep::ReloadDaemon | MigrationStep::ReloadOldDaemon => {
                self.reload_calls += 1;
                World::check(
                    !(self.fail_first_reload && self.reload_calls == 1),
                    "injected initial reload failure",
                )
            }
            MigrationStep::CheckReady => Outcome::Answer(self.ready),
            MigrationStep::ReadOldProgram | MigrationStep::ReadRolledBackProgram => {
                Outcome::Answer(self.old_program_is_helper)
            }
            MigrationStep::CheckOldReady(helper) => {
                self.checked_helper.push(helper);
                Outcome::Answer(self.ready)
            }
            MigrationStep::WriteRollingBack => self.write(MigrationPhase::RollingBack),
            MigrationStep::WriteRolledBack => self.write(MigrationPhase::RolledBack),
            MigrationStep::WriteRollbackFailed => self.write(MigrationPhase::RollbackFailed),
            MigrationStep::StatQuarantine => Outcome::Absent,
            MigrationStep::DeleteHelper => {
                self.helper = None;
                Outcome::Done
            }
            MigrationStep::QuarantineHelper => {
                self.helper = None;
                self.quarantined = true;
                Outcome::Done
            }
            MigrationStep::WriteCommitted => self.write(MigrationPhase::Committed),
            _ => Outcome::Done,
        }
    }

    fn run(&mut self, mut migration: HelperMigration) -> Result<(), String> {
        let mut step = migration.step;
        for _ in 0..200 {
            let outcome = self.perform(step);
            match migration.resume(outcome) {
                MigrationNext::Step(next) => step = next,
                MigrationNext::Finished => return Ok(()),
                MigrationNext::Refused { error } => return Err(error),
            }
        }
        panic!("a move must end");
    }

    fn prepare(&mut self) -> Result<(), String> {
        self.run(HelperMigration::prepare("/quarantine".to_owned()))
    }

    fn complete(&mut self) -> Result<(), String> {
        self.run(HelperMigration::complete("/quarantine".to_owned()))
    }

    fn install_helper(&mut self) {
        self.helper = Some("new service".to_owned());
        self.old_program_is_helper = true;
    }
}

fn ok() -> Result<(), String> {
    Ok(())
}

fn err(text: &str) -> Result<(), String> {
    Err(text.to_owned())
}

#[test]
fn migration_commits_after_normal_or_interrupted_bootstrap() {
    for (interrupted, include_custom) in [(false, true), (true, false)] {
        let mut world = World::new();
        world.custom = include_custom;
        world.prepare().unwrap();
        assert_eq!(world.phase, Some(MigrationPhase::Prepared));
        if interrupted {
            world.phase = Some(MigrationPhase::Bootstrapping);
        }
        world.ready = true;

        world.complete().unwrap();
        assert_eq!(world.helper.as_deref(), Some("new service"));
        assert_eq!(world.helper_custom, include_custom);
        assert!(!world.state);
        assert_eq!(world.reload_calls, 1);
    }
}

#[test]
fn migration_bootstrap_failure_restores_old_plist() {
    let mut world = World::new();
    world.prepare().unwrap();
    world.fail_first_reload = true;
    world.ready = true;

    assert_eq!(
        world.complete(),
        err(
            "Protected helper activation failed; old daemon restored: injected initial reload failure"
        )
    );

    assert_eq!(world.plist, OLD_PLIST);
    assert!(world.helper.is_none());
    assert!(!world.state);
    assert_eq!(world.reload_calls, 2);
}

#[test]
fn migration_staging_rejects_symlink_service() {
    let mut world = World::new();
    world.source_acceptable = false;

    assert!(world.prepare().is_err());
    assert!(world.helper.is_none());
}

#[test]
fn interrupted_helper_install_restores_plist_and_removes_helper() {
    let mut world = World::new();
    world.prepare().unwrap();
    world.phase = Some(MigrationPhase::InstallingHelper);

    assert_eq!(
        world.prepare(),
        err("Interrupted helper preparation was rolled back; retry migration")
    );
    assert_eq!(world.plist, OLD_PLIST);
    assert!(world.helper.is_none());
    assert!(!world.state);
}

#[test]
fn rollback_intent_is_persisted_before_restoring_the_old_plist() {
    let mut world = World::new();
    world.prepare().unwrap();
    world.phase = Some(MigrationPhase::Bootstrapping);
    world.backup = None;

    let abandon =
        HelperMigration::abandon_plist_write("cause".to_owned(), "/quarantine".to_owned());
    assert_eq!(
        world.run(abandon),
        err("plist write failed (cause); migration rollback failed (no backup)")
    );
    assert_eq!(world.phase, Some(MigrationPhase::RollingBack));
    assert_eq!(world.phase.unwrap().as_str(), "rolling-back");
    assert_eq!(world.reload_calls, 0);
}

#[test]
fn interrupted_compatibility_helper_is_reused_when_bytes_match() {
    let mut world = World::new();
    world.install_helper();

    world.prepare().unwrap();

    assert_eq!(world.phase, Some(MigrationPhase::Prepared));
}

#[test]
fn compatibility_rollback_uses_the_plist_program_not_exact_bytes() {
    for plist in [NEW_PLIST, "new daemon plist kept alive"] {
        let mut world = World::new();
        world.install_helper();
        world.plist = plist.to_owned();
        world.prepare().unwrap();
        world.fail_first_reload = true;
        world.ready = true;

        assert!(world.complete().is_err());
        assert_eq!(world.checked_helper, vec![true]);
        assert!(world.helper.is_some());
        assert_eq!(world.plist, plist);
        assert!(!world.state);
    }
}

#[test]
fn mismatched_compatibility_helper_is_rejected() {
    let mut world = World::new();
    world.install_helper();
    world.helper = Some("unexpected service".to_owned());

    assert_eq!(
        world.prepare(),
        err("Existing protected helper does not match migration source")
    );
    assert!(!world.state);
    assert!(world.prepare().is_err());
    assert_eq!(world.helper.as_deref(), Some("unexpected service"));
}

#[test]
fn rolled_back_finalizer_accepts_an_already_removed_helper() {
    let mut world = World::new();
    world.prepare().unwrap();
    world.plist = OLD_PLIST.to_owned();
    world.phase = Some(MigrationPhase::RolledBack);
    world.helper = None;

    world.complete().unwrap();

    assert_eq!(world.reload_calls, 0);
    assert!(!world.state);
}

#[test]
fn legacy_plist_write_leaves_a_resumable_prepared_migration() {
    let mut world = World::new();
    world.prepare().unwrap();
    assert_eq!(world.helper.as_deref(), Some("new service"));
    assert_eq!(world.phase, Some(MigrationPhase::Prepared));
    assert_eq!(world.plist, NEW_PLIST);
    // A second preparation finds the first one complete.
    world.prepare().unwrap();
    assert_eq!(world.phase, Some(MigrationPhase::Prepared));
}

#[test]
fn plist_write_or_validation_failure_rolls_back_the_migration() {
    for corrupt_helper in [false, true] {
        let mut world = World::new();
        world.prepare().unwrap();
        world.helper_acceptable = !corrupt_helper;
        let result = world.run(HelperMigration::abandon_plist_write(
            "injected plist write failure".to_owned(),
            "/quarantine".to_owned(),
        ));

        assert_eq!(result, err("injected plist write failure"));
        assert_eq!(world.plist, OLD_PLIST);
        assert!(world.helper.is_none());
        assert_eq!(world.quarantined, corrupt_helper);
        assert!(!world.state);
    }
}

#[test]
fn failed_rollback_is_recorded() {
    let mut world = World::new();
    world.prepare().unwrap();
    world.fail_first_reload = true;
    world.ready = false;

    assert_eq!(
        world.complete(),
        err(
            "CRITICAL: protected helper activation failed (injected initial reload failure); \
             rollback failed (Restored daemon did not become ready); state persistence: Ok(())"
        )
    );
    assert_eq!(world.phase, Some(MigrationPhase::RollbackFailed));
    assert!(world.state);

    // The next attempt repeats the return, and reports it.
    world.fail_first_reload = false;
    world.ready = true;
    assert_eq!(
        world.complete(),
        err("Recovered a previously failed privileged helper rollback")
    );
    assert_eq!(world.plist, OLD_PLIST);
    assert!(!world.state);
}

#[test]
fn finishing_needs_a_verified_return() {
    let mut world = World::new();
    world.prepare().unwrap();
    let result = world.run(HelperMigration::finish_rolled_back("/quarantine".to_owned()));
    assert_eq!(
        result,
        err("Privileged helper rollback has not reached a verified state")
    );
    assert!(world.state);
}

#[test]
fn unready_phases_are_not_completed() {
    let mut world = World::new();
    world.prepare().unwrap();
    world.phase = Some(MigrationPhase::Preparing);
    assert_eq!(
        world.complete(),
        err("Privileged helper migration is not ready for launchd reload")
    );
    world.phase = Some(MigrationPhase::RollingBack);
    assert_eq!(
        world.prepare(),
        err("Helper migration recovery requires the migration finalizer")
    );
}

#[test]
fn phase_names_are_read_back() {
    for phase in [
        MigrationPhase::Preparing,
        MigrationPhase::InstallingHelper,
        MigrationPhase::Prepared,
        MigrationPhase::Bootstrapping,
        MigrationPhase::RollingBack,
        MigrationPhase::RolledBack,
        MigrationPhase::RollbackFailed,
        MigrationPhase::Committed,
    ] {
        assert_eq!(MigrationPhase::parse(phase.as_str()), Ok(phase));
    }
    assert!(MigrationPhase::parse("done").is_err());
}

#[test]
fn migration_waiter_accepts_state_cleanup_between_checks() {
    let gone: Result<Option<()>, String> =
        migration_state_step(Err("migration state was removed".to_owned()), Ok(false));
    assert!(gone.unwrap().is_none());
    assert_eq!(
        migration_state_step::<()>(Err("broken".to_owned()), Ok(true)),
        Err("broken".to_owned())
    );
    assert_eq!(migration_state_step(Ok(7u8), Ok(true)), Ok(Some(7u8)));
}

#[test]
fn finalizer_identity_requires_root_and_exact_protected_helper() {
    assert!(validate_finalizer_identity(PROTECTED_HELPER, PROTECTED_HELPER, 0).is_ok());
    assert!(validate_finalizer_identity(PROTECTED_HELPER, PROTECTED_HELPER, 501).is_err());
    assert!(validate_finalizer_identity(LEGACY_HELPER, PROTECTED_HELPER, 0).is_err());
    assert!(validate_finalizer_identity(WRONG_HELPER, PROTECTED_HELPER, 0).is_err());
}

#[test]
fn service_identity_accepts_only_root_legacy_or_protected_paths() {
    for (current, uid, expected) in [
        (PROTECTED_HELPER, 0, Some(ServiceIdentity::Protected)),
        (LEGACY_HELPER, 0, Some(ServiceIdentity::Legacy)),
        (PROTECTED_HELPER, 501, None),
        ("/tmp/service", 0, None),
    ] {
        let actual = classify_service_identity(current, PROTECTED_HELPER, LEGACY_HELPER, uid);
        assert_eq!(actual.ok(), expected);
    }
}

#[test]
fn absent_migration_state_requires_an_installed_helper() {
    assert!(migration_is_complete(None, err("no helper")).is_err());
    assert!(migration_is_complete(None, ok()).unwrap());
    assert_eq!(
        migration_is_complete(Some(MigrationPhase::Prepared), err("no helper")),
        Ok(false)
    );
    assert_eq!(
        migration_is_complete(Some(MigrationPhase::Committed), err("no helper")),
        Ok(true)
    );
}

#[test]
fn rolled_back_migration_state_is_an_explicit_error() {
    assert!(migration_is_complete(Some(MigrationPhase::RolledBack), ok()).is_err());
}

#[test]
fn migration_ipc_modes_gate_business_and_rollback_readiness() {
    assert_eq!(
        legacy_pending_action(MigrationPhase::RollingBack),
        Some(ServiceStartAction::StartForRollbackReadiness)
    );
    assert_eq!(legacy_pending_action(MigrationPhase::Prepared), None);
    let readiness = ServiceIpcMode::MigrationReadiness;
    assert!(!readiness.protected_ipc_enabled());
    assert_eq!(
        readiness.after_migration_completion(),
        Some(ServiceIpcMode::ProtectedOnly)
    );
    assert!(ServiceIpcMode::ProtectedOnly.protected_ipc_enabled());
    assert_eq!(
        ServiceIpcMode::LegacyRollback.after_migration_completion(),
        None
    );
}

#[test]
fn modes_are_recorded_once() {
    let mut current: u8 = MODE_UNINITIALIZED;
    record_service_ipc_mode(&mut current, ServiceIpcMode::MigrationReadiness).unwrap();
    assert!(!protected_service_ipc_enabled(current));
    assert!(!legacy_rollback_ipc_enabled(current));
    assert!(record_service_ipc_mode(&mut current, ServiceIpcMode::LegacyRollback).is_err());
    complete_migration_readiness(&mut current).unwrap();
    assert_eq!(current, MODE_PROTECTED_ONLY);
    assert!(protected_service_ipc_enabled(current));

    let mut rollback: u8 = MODE_UNINITIALIZED;
    record_service_ipc_mode(&mut rollback, ServiceIpcMode::LegacyRollback).unwrap();
    assert!(legacy_rollback_ipc_enabled(rollback));
    assert!(complete_migration_readiness(&mut rollback).is_err());
    assert_eq!(ServiceIpcMode::from_value(ServiceIpcMode::LegacyRollback.value()), Some(ServiceIpcMode::LegacyRollback));
    assert_eq!(ServiceIpcMode::from_value(9), None);
}

#[test]
fn duplicate_finalizer_accepts_an_already_cleaned_state() {
    assert!(matches!(
        complete_existing_migration(FinalizerStep::LookFirst, ok(), Ok(false)),
        FinalizerNext::Nothing
    ));
    assert!(matches!(
        complete_existing_migration(FinalizerStep::TakeLock, err("lock"), Ok(false)),
        FinalizerNext::Nothing
    ));
    assert!(matches!(
        complete_existing_migration(FinalizerStep::LookFirst, ok(), Ok(true)),
        FinalizerNext::Step(FinalizerStep::ValidateState)
    ));
    assert!(matches!(
        complete_existing_migration(FinalizerStep::ValidateState, ok(), Ok(true)),
        FinalizerNext::Step(FinalizerStep::TakeLock)
    ));
    assert!(matches!(
        complete_existing_migration(FinalizerStep::TakeLock, ok(), Ok(true)),
        FinalizerNext::Step(FinalizerStep::LookAgain)
    ));
    assert!(matches!(
        complete_existing_migration(FinalizerStep::LookAgain, ok(), Ok(true)),
        FinalizerNext::Complete
    ));
    assert!(matches!(
        complete_existing_migration(FinalizerStep::ValidateState, err("bad"), Ok(true)),
        FinalizerNext::Fail { .. }
    ));
}

#[test]
fn plist_writer_rejects_non_root_uid() {
    assert!(validate_plist_writer_uid(ROOT_UID.saturating_add(1)).is_err());
    assert!(validate_plist_writer_uid(ROOT_UID).is_ok());
    assert!(validate_legacy_writer(LEGACY_HELPER, LEGACY_HELPER).is_ok());
    assert_eq!(
        validate_legacy_writer("/tmp/x", LEGACY_HELPER),
        err("Refusing plist writer executable path: /tmp/x")
    );
}

#[test]
fn protected_start_promotes_interrupted_post_plist_preparation() {
    assert_eq!(
        recover_protected_preparation(MigrationPhase::Preparing, ok(), ok(), true),
        Ok(true)
    );
    assert_eq!(
        recover_protected_preparation(MigrationPhase::Committed, err("x"), err("y"), false),
        Ok(false)
    );
}

#[test]
fn protected_start_rejects_preparation_with_unexpected_plist() {
    assert!(recover_protected_preparation(MigrationPhase::Preparing, ok(), ok(), false).is_err());
}

#[test]
fn protected_start_rejects_preparation_with_unsafe_plist_mode() {
    let owner = ExpectedOwner { uid: 0, gid: 0 };
    let unsafe_mode = FileMeta { mode: 0o100666, ..file(0) };
    let check = validate_owned_file("/plist", unsafe_mode, owner, 0o644);
    assert!(recover_protected_preparation(MigrationPhase::Preparing, ok(), check, true).is_err());
}

#[test]
fn services_start_by_what_is_pending() {
    assert_eq!(legacy_start(None), LegacyStart::Prepare);
    assert_eq!(legacy_start(Some(MigrationPhase::Prepared)), LegacyStart::Prepare);
    assert_eq!(
        legacy_start(Some(MigrationPhase::RolledBack)),
        LegacyStart::FinishRolledBack(ServiceStartAction::StartForRollbackReadiness)
    );
    assert_eq!(
        legacy_start(Some(MigrationPhase::RollbackFailed)),
        LegacyStart::SpawnFinalizer(ServiceStartAction::StartForRollbackReadiness)
    );
    assert_eq!(protected_start_action(true), ServiceStartAction::StartForMigrationReadiness);
    assert_eq!(protected_start_action(false), ServiceStartAction::Start);
    assert_eq!(
        ipc_mode_for(ServiceStartAction::StartForRollbackReadiness),
        ServiceIpcMode::LegacyRollback
    );
    assert_eq!(ipc_mode_for(ServiceStartAction::Start), ServiceIpcMode::ProtectedOnly);
}

fn directory(uid: u32) -> FileMeta {
    FileMeta {
        is_symlink: false,
        is_dir: true,
        is_file: false,
        uid,
        gid: 0,
        mode: 0o40755,
        has_acl: false,
    }
}

fn file(uid: u32) -> FileMeta {
    FileMeta {
        is_symlink: false,
        is_dir: false,
        is_file: true,
        uid,
        gid: 0,
        mode: 0o100755,
        has_acl: false,
    }
}

fn good_tree() -> HelperTree {
    HelperTree {
        ancestors: vec![Found { path: "/".to_owned(), meta: Ok(directory(0)) }],
        privileged_tools: Ok(directory(0)),
        bundle: Ok(directory(0)),
        contents: Ok(directory(0)),
        macos: Ok(directory(0)),
        resources: Ok(directory(0)),
        service: Ok(file(0)),
        custom: Ok(Some(FileMeta { mode: 0o100600, ..file(0) })),
    }
}

fn paths() -> HelperPaths {
    HelperPaths::for_app_name("RustDesk", ok()).unwrap()
}

const ROOT: ExpectedOwner = ExpectedOwner { uid: 0, gid: 0 };

#[test]
fn helper_validation_rejects_and_clears_extended_acl() {
    let mut tree = good_tree();
    tree.bundle = Ok(FileMeta { has_acl: true, ..directory(0) });
    assert!(validate_helper_tree(&paths(), &tree, ROOT).is_err());
    tree.bundle = Ok(directory(0));
    assert!(validate_helper_tree(&paths(), &tree, ROOT).is_ok());

    let open = FileMeta { has_acl: true, ..directory(0) };
    assert!(validate_privileged_tools_directory("/tools", open, ROOT).is_err());
}

#[test]
fn helper_paths_use_protected_bundle() {
    let paths = paths();
    assert_eq!(
        paths.service,
        "/Library/PrivilegedHelperTools/com.carriez.RustDesk_service.bundle/Contents/MacOS/service"
    );
    assert_eq!(
        paths.custom,
        "/Library/PrivilegedHelperTools/com.carriez.RustDesk_service.bundle/Contents/Resources/custom.txt"
    );
    assert!(validate_helper_tree(&paths, &good_tree(), ROOT).is_ok());
    assert!(HelperPaths::for_app_name("Rust/Desk", err("Invalid app name")).is_err());
    assert_eq!(
        expected_gui_executable("RustDesk", ok()).unwrap(),
        "/Applications/RustDesk.app/Contents/MacOS/RustDesk"
    );
    assert_eq!(legacy_service_path("RustDesk", ok()).unwrap(), LEGACY_HELPER);
    assert_eq!(
        app_name_of_label("com.carriez.RustDesk_service"),
        Some("RustDesk".to_owned())
    );
    assert_eq!(app_name_of_label("org.other"), None);
}

#[test]
fn helper_validation_rejects_symlink_and_non_regular_service() {
    let mut tree = good_tree();
    tree.service = Ok(FileMeta { is_symlink: true, is_file: false, ..file(0) });
    assert!(validate_helper_tree(&paths(), &tree, ROOT).is_err());
    tree.service = Ok(directory(0));
    assert!(validate_helper_tree(&paths(), &tree, ROOT).is_err());
    tree.service = Err("no such file".to_owned());
    assert_eq!(
        validate_helper_tree(&paths(), &tree, ROOT),
        err("no such file")
    );
}

#[test]
fn helper_validation_rejects_unsafe_mode_and_owner() {
    let mut tree = good_tree();
    tree.service = Ok(FileMeta { mode: 0o100775, ..file(0) });
    assert_eq!(
        validate_helper_tree(&paths(), &tree, ROOT),
        err(&format!(
            "Unexpected permissions on {}: 775, expected 755",
            PROTECTED_HELPER
        ))
    );
    tree.service = Ok(file(0));
    let wrong_owner = ExpectedOwner { uid: 1, gid: 0 };
    assert!(validate_helper_tree(&paths(), &tree, wrong_owner).is_err());
}

#[test]
fn privileged_tools_rejects_non_root_owner_when_read_only() {
    let expected_root = ExpectedOwner { uid: 1, gid: 0 };
    let read_only = FileMeta { mode: 0o40555, ..directory(0) };
    assert_eq!(
        validate_privileged_tools_directory("/tools", read_only, expected_root),
        err("Helper directory is not root-owned: /tools")
    );
    let writable = FileMeta { mode: 0o40777, ..directory(0) };
    assert!(validate_privileged_tools_directory("/tools", writable, ROOT).is_err());
    let sticky = FileMeta { mode: 0o41777, ..directory(0) };
    assert!(validate_privileged_tools_directory("/tools", sticky, ROOT).is_ok());
}

#[test]
fn directories_and_locks_are_checked() {
    assert_eq!(octal_text(0o1755), "1755");
    assert_eq!(octal_text(0), "0");
    assert!(validate_owned_directory("/d", directory(0), ROOT).is_ok());
    let private = FileMeta { mode: 0o40700, ..directory(0) };
    assert!(validate_state_directory("/d", private, ROOT).is_ok());
    assert_eq!(
        validate_state_directory("/d", directory(0), ROOT),
        err("Unexpected privileged helper migration directory mode: 755")
    );
    let missing = vec![
        Found { path: "/".to_owned(), meta: Ok(directory(0)) },
        Found { path: "/x".to_owned(), meta: Ok(file(0)) },
    ];
    assert!(validate_ancestor_directories(&missing).is_err());

    let opened = FileIdentity { dev: 1, ino: 2, meta: private };
    assert!(validate_hardened_directory("/d", opened, opened, ROOT, 0o700).is_ok());
    let other = FileIdentity { dev: 1, ino: 3, meta: private };
    assert_eq!(
        validate_hardened_directory("/d", opened, other, ROOT, 0o700),
        err("Directory path identity changed: /d")
    );

    assert!(require_maintenance_root(0).is_ok());
    assert!(require_maintenance_root(501).is_err());
    assert!(validate_lock_file(file(0)).is_ok());
    assert!(validate_lock_file(file(5)).is_err());
    let lock = FileIdentity { dev: 1, ino: 2, meta: FileMeta { mode: 0o100600, ..file(0) } };
    assert!(validate_lock_identity(lock, lock).is_ok());
    let moved = FileIdentity { ino: 9, ..lock };
    assert!(validate_lock_identity(lock, moved).is_err());
    assert_eq!(
        lock_failure(true, true, "busy".to_owned()),
        "another macOS service maintenance transaction is already running"
    );
    assert_eq!(lock_failure(false, true, "busy".to_owned()), "busy");
    assert_eq!(atomic_write_failure("a".to_owned(), None), "a");
    assert_eq!(
        atomic_write_failure("a".to_owned(), Some("b".to_owned())),
        "Atomic write failed (a); temporary cleanup failed (b)"
    );
}

#[test]
fn migration_paths_stand_below_their_roots() {
    let paths = MigrationPaths::for_roots("/tools", "/daemons", "RustDesk", ok()).unwrap();
    assert_eq!(
        paths.helper.service,
        "/tools/com.carriez.RustDesk_service.bundle/Contents/MacOS/service"
    );
    assert_eq!(
        paths.expected_legacy_service(ok()).unwrap(),
        LEGACY_HELPER
    );
}

#[test]
fn socket_readiness_requires_a_live_socket_with_the_expected_owner() {
    assert!(socket_is_live(true, 501, 501, true));
    assert!(!socket_is_live(true, 501, 0, true));
    assert!(!socket_is_live(true, 501, 501, false));
    assert!(!socket_is_live(false, 501, 501, true));
}

#[test]
fn reports_name_running_processes() {
    let report = "system/x = {\n\tstate = running\n\tpid = 42\n}\n";
    assert!(launchd_output_is_running(report));
    assert_eq!(launchd_pid(report), Some(42));
    assert_eq!(launchd_output_ready_pid(report), Some(42));
    assert_eq!(launchd_output_ready_pid("\tstate = waiting\n\tpid = 42\n"), None);
    assert_eq!(launchd_pid("no pid here"), None);
    assert_eq!(signal_pid(42), Some(42));
    assert_eq!(signal_pid(u32::MAX), None);

    let probe = ServiceProbe {
        report: Some(report.to_owned()),
        socket_is_live: true,
        process_is_alive: true,
        executable: Some(PROTECTED_HELPER.to_owned()),
    };
    assert_eq!(launchd_ready_pid(&probe, PROTECTED_HELPER), Some(42));
    assert_eq!(launchd_ready_pid(&probe, LEGACY_HELPER), None);
    let silent = ServiceProbe { socket_is_live: false, ..probe };
    assert_eq!(launchd_ready_pid(&silent, PROTECTED_HELPER), None);
}

#[test]
fn readiness_needs_two_looks_at_one_process() {
    let mut wait = ReadyWait::new();
    assert_eq!(wait.wait_for_ready(Some(7)), WaitStep::SleepAndLook);
    assert_eq!(wait.wait_for_ready(Some(7)), WaitStep::Ready);

    let mut restless = ReadyWait::new();
    assert_eq!(restless.wait_for_ready(Some(7)), WaitStep::SleepAndLook);
    assert_eq!(restless.wait_for_ready(Some(8)), WaitStep::LookNow);

    let mut never = ReadyWait::new();
    for _ in 1..READINESS_ATTEMPTS {
        assert_eq!(never.wait_for_ready(None), WaitStep::SleepAndLook);
    }
    assert_eq!(never.wait_for_ready(None), WaitStep::SleepAndGiveUp);
}

#[test]
fn reloading_falls_back_to_older_commands() {
    assert_eq!(
        after_reload_step(ReloadStep::Bootout, false),
        ReloadNext::Step(ReloadStep::Unload)
    );
    assert_eq!(
        after_reload_step(ReloadStep::Unload, false),
        ReloadNext::Step(ReloadStep::WaitForStop)
    );
    assert_eq!(
        after_reload_step(ReloadStep::WaitForStop, false),
        ReloadNext::StillRunning
    );
    assert_eq!(
        after_reload_step(ReloadStep::WaitForStop, true),
        ReloadNext::Step(ReloadStep::Bootstrap)
    );
    assert_eq!(
        after_reload_step(ReloadStep::Bootstrap, false),
        ReloadNext::Step(ReloadStep::Load)
    );
    assert_eq!(after_reload_step(ReloadStep::Load, false), ReloadNext::CouldNotLoad);
    assert_eq!(
        load_failure_text("exit 5", "exit 1"),
        "launchctl reload failed: bootstrap=exit 5, load=exit 1"
    );
    assert!(job_has_stopped(Some(9), true, None));
    assert!(!job_has_stopped(Some(9), false, None));
    assert!(!job_has_stopped(None, false, Some(9)));
}

#[test]
fn stopping_jobs_are_looked_at_until_they_are_gone() {
    let mut wait = StopWait::new();
    assert_eq!(wait.look(Some(7), false, None), StopNext::Wait);
    assert_eq!(wait.look(Some(7), true, Some(8)), StopNext::Wait);
    assert_eq!(wait.look(Some(7), true, None), StopNext::Stopped);
    let mut wait = StopWait::new();
    for _ in 1..STOP_ATTEMPTS {
        assert_eq!(wait.look(None, true, Some(8)), StopNext::Wait);
    }
    assert_eq!(wait.look(None, true, Some(8)), StopNext::GiveUp);
    assert_eq!(StopWait { looks: STOP_ATTEMPTS - 1 }.look(None, true, None), StopNext::Stopped);
}

#[test]
fn programs_are_compared_as_paths() {
    let helper = "/Library/Helper.bundle/Contents/MacOS/service";
    assert!(starts_helper("/Library/Helper.bundle/Contents/MacOS/service\n", helper));
    assert!(starts_helper(" /Library//Helper.bundle/./Contents/MacOS/service/ ", helper));
    assert!(!starts_helper("/Applications/RustDesk.app/Contents/MacOS/service\n", helper));
    assert!(!starts_helper("Library/Helper.bundle/Contents/MacOS/service", helper));
    for (a, b) in [("./a", "a"), ("a/.", "a"), ("/", "//."), ("", "."), ("/a/../b", "/b")] {
        assert_eq!(same_path(a, b), std::path::Path::new(a) == std::path::Path::new(b));
    }
    let place = |path: &str| Some(path.to_owned());
    assert!(same_optional_path(&place("/a//b"), &place("/a/b/")));
    assert!(!same_optional_path(&place("/a"), &None) && same_optional_path(&None, &None));
    assert!(validate_finalizer_identity("/a//b", "/a/b", 0).is_ok());
    assert!(validate_legacy_writer("/a/./b", "/a/b").is_ok());
    assert_eq!(
        classify_service_identity("/a/b/", "/a/b", "/c", 0),
        Ok(ServiceIdentity::Protected)
    );
    assert_eq!(classify_service_identity("//c", "/a/b", "/c", 0), Ok(ServiceIdentity::Legacy));
    let mut confirming = ReadyWait { attempts: READINESS_ATTEMPTS - 1, candidate: Some(7) };
    assert_eq!(confirming.wait_for_ready(Some(8)), WaitStep::GiveUp);
    let paths = MigrationPaths::for_roots("/t", "/d", "Acme", Ok(())).unwrap();
    let target = ("com.carriez.Acme_service", "/d/com.carriez.Acme_service.plist");
    assert_eq!(paths.reload_target(), target);
}
