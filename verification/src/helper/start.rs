//! How the service starts, given who runs it and how far the move to the helper
//! has come.
use crate::file_path::same_path;
use crate::helper::ipc_mode::ServiceIpcMode;
use crate::helper::migration::MigrationPhase;
use crate::helper::validate::ROOT_UID;
use vstd::prelude::*;

verus! {

/// The time between two looks at the state of a move, in seconds.
pub const MIGRATION_POLL_INTERVAL_SECS: u64 = 1;

/// How the service starts.
#[derive(Clone, Copy, Debug, PartialEq, Eq, Structural)]
pub enum ServiceStartAction {
    Start,
    StartForMigrationReadiness,
    StartForRollbackReadiness,
    ExitAfterMigrationLaunch,
}

/// Which program the service is.
#[derive(Clone, Copy, Debug, PartialEq, Eq, Structural)]
pub enum ServiceIdentity {
    Protected,
    Legacy,
}

/// Which program the service is, where it may run.
pub open spec fn identity_of(
    current: Seq<char>,
    protected: Seq<char>,
    legacy: Seq<char>,
    effective_uid: u32,
) -> Option<ServiceIdentity> {
    if effective_uid != 0 {
        None
    } else if crate::file_path::same_path_names(current, protected) {
        Some(ServiceIdentity::Protected)
    } else if crate::file_path::same_path_names(current, legacy) {
        Some(ServiceIdentity::Legacy)
    } else {
        None
    }
}

/// Tells which program the service is, by its path. Only the superuser may run it,
/// and only from the helper or from the app.
pub fn classify_service_identity(
    current: &str,
    protected: &str,
    legacy: &str,
    effective_uid: u32,
) -> (r: Result<ServiceIdentity, String>)
    ensures
        r is Ok <==> identity_of(current@, protected@, legacy@, effective_uid) is Some,
        r matches Ok(identity) ==> identity_of(current@, protected@, legacy@, effective_uid) == Some(
            identity,
        ),
        if effective_uid != ROOT_UID {
            r matches Err(e) && e@ == "macOS service requires root"@
        } else if crate::file_path::same_path_names(current@, protected@) {
            r == Ok::<ServiceIdentity, String>(ServiceIdentity::Protected)
        } else if crate::file_path::same_path_names(current@, legacy@) {
            r == Ok::<ServiceIdentity, String>(ServiceIdentity::Legacy)
        } else {
            r matches Err(e) && e@ == "Refusing macOS service executable path: "@ + current@
        },
{
    if effective_uid != ROOT_UID {
        return Err("macOS service requires root".to_owned());
    }
    if same_path(current, protected) {
        return Ok(ServiceIdentity::Protected);
    }
    if same_path(current, legacy) {
        return Ok(ServiceIdentity::Legacy);
    }
    let mut text: String = "Refusing macOS service executable path: ".to_owned();
    text.append(current);
    Err(text)
}

/// Checks who finishes a move: the superuser, and from the helper itself.
pub fn validate_finalizer_identity(
    current_executable: &str,
    expected_helper: &str,
    effective_uid: u32,
) -> (r: Result<(), String>)
    ensures
        r is Ok <==> effective_uid == ROOT_UID && crate::file_path::same_path_names(
            current_executable@,
            expected_helper@,
        ),
        r matches Err(e) ==> e@ == if effective_uid != ROOT_UID {
            "Helper migration finalizer requires root"@
        } else {
            "Helper migration finalizer must run from protected path: "@ + expected_helper@
        },
{
    if effective_uid != ROOT_UID {
        return Err("Helper migration finalizer requires root".to_owned());
    }
    if !same_path(current_executable, expected_helper) {
        let mut text: String =
            "Helper migration finalizer must run from protected path: ".to_owned();
        text.append(expected_helper);
        return Err(text);
    }
    Ok(())
}

/// Checks who writes the settings of the daemon: the superuser.
pub fn validate_plist_writer_uid(effective_uid: u32) -> (r: Result<(), &'static str>)
    ensures
        r is Ok <==> effective_uid == ROOT_UID,
        r matches Err(e) ==> e@ == "Privileged plist writer requires root"@,
{
    if effective_uid != ROOT_UID {
        return Err("Privileged plist writer requires root");
    }
    Ok(())
}

/// Checks the program that writes the settings of the daemon, where that is not
/// the helper: the service in the app.
pub fn validate_legacy_writer(current: &str, legacy: &str) -> (r: Result<(), String>)
    ensures
        r is Ok <==> crate::file_path::same_path_names(current@, legacy@),
        r matches Err(e) ==> e@ == "Refusing plist writer executable path: "@ + current@,
{
    if same_path(current, legacy) {
        return Ok(());
    }
    let mut text: String = "Refusing plist writer executable path: ".to_owned();
    text.append(current);
    Err(text)
}

/// How a service in the app starts while a move is in a phase: where it is being
/// undone, it starts to show that it is ready.
pub open spec fn legacy_action(phase: MigrationPhase) -> Option<ServiceStartAction> {
    match phase {
        MigrationPhase::RollingBack | MigrationPhase::RolledBack | MigrationPhase::RollbackFailed =>
            Some(ServiceStartAction::StartForRollbackReadiness),
        _ => None,
    }
}

/// How a service in the app starts while a move is in a phase.
pub fn legacy_pending_action(phase: MigrationPhase) -> (r: Option<ServiceStartAction>)
    ensures
        r == legacy_action(phase),
{
    match phase {
        MigrationPhase::RollingBack => Some(ServiceStartAction::StartForRollbackReadiness),
        MigrationPhase::RolledBack => Some(ServiceStartAction::StartForRollbackReadiness),
        MigrationPhase::RollbackFailed => Some(ServiceStartAction::StartForRollbackReadiness),
        _ => None,
    }
}

/// How a service in the helper starts.
pub open spec fn helper_start(state_present: bool) -> ServiceStartAction {
    match state_present {
        true => ServiceStartAction::StartForMigrationReadiness,
        false => ServiceStartAction::Start,
    }
}

/// How a service in the helper starts: with the state of a move it has to show
/// that it is ready.
pub fn protected_start_action(state_present: bool) -> (r: ServiceStartAction)
    ensures
        r == helper_start(state_present),
        r == if state_present {
            ServiceStartAction::StartForMigrationReadiness
        } else {
            ServiceStartAction::Start
        },
{
    if state_present {
        ServiceStartAction::StartForMigrationReadiness
    } else {
        ServiceStartAction::Start
    }
}

/// What is done for a service in the app before it starts.
#[derive(Clone, Copy, Debug, PartialEq, Eq, Structural)]
pub enum LegacyStart {
    /// Finish a return to the old daemon.
    FinishRolledBack(ServiceStartAction),
    /// Let the helper finish the move.
    SpawnFinalizer(ServiceStartAction),
    /// Prepare the move, and let the helper finish it.
    Prepare,
}

/// How a service in the app starts, given the phase of a move, if there is one.
pub open spec fn begins_with(pending: Option<MigrationPhase>) -> LegacyStart {
    match pending {
        Some(MigrationPhase::RolledBack) => LegacyStart::FinishRolledBack(
            ServiceStartAction::StartForRollbackReadiness,
        ),
        Some(MigrationPhase::RollingBack) | Some(MigrationPhase::RollbackFailed) =>
            LegacyStart::SpawnFinalizer(ServiceStartAction::StartForRollbackReadiness),
        _ => LegacyStart::Prepare,
    }
}

/// How a service in the app starts, given the phase of a move, if there is one.
pub fn legacy_start(pending: Option<MigrationPhase>) -> (r: LegacyStart)
    ensures
        r == begins_with(pending),
        r == match pending {
            Some(phase) => match legacy_action(phase) {
                Some(action) => if phase == MigrationPhase::RolledBack {
                    LegacyStart::FinishRolledBack(action)
                } else {
                    LegacyStart::SpawnFinalizer(action)
                },
                None => LegacyStart::Prepare,
            },
            None => LegacyStart::Prepare,
        },
{
    match pending {
        Some(phase) => match legacy_pending_action(phase) {
            Some(action) => {
                if phase == MigrationPhase::RolledBack {
                    LegacyStart::FinishRolledBack(action)
                } else {
                    LegacyStart::SpawnFinalizer(action)
                }
            },
            None => LegacyStart::Prepare,
        },
        None => LegacyStart::Prepare,
    }
}

/// The channels that a service offers, by how it starts.
pub open spec fn mode_for(action: ServiceStartAction) -> ServiceIpcMode {
    match action {
        ServiceStartAction::StartForMigrationReadiness => ServiceIpcMode::MigrationReadiness,
        ServiceStartAction::StartForRollbackReadiness => ServiceIpcMode::LegacyRollback,
        ServiceStartAction::Start => ServiceIpcMode::ProtectedOnly,
        ServiceStartAction::ExitAfterMigrationLaunch => ServiceIpcMode::ProtectedOnly,
    }
}

/// The channels that a service offers, by how it starts.
pub fn ipc_mode_for(action: ServiceStartAction) -> (r: ServiceIpcMode)
    ensures
        r == mode_for(action),
{
    match action {
        ServiceStartAction::StartForMigrationReadiness => ServiceIpcMode::MigrationReadiness,
        ServiceStartAction::StartForRollbackReadiness => ServiceIpcMode::LegacyRollback,
        ServiceStartAction::Start => ServiceIpcMode::ProtectedOnly,
        ServiceStartAction::ExitAfterMigrationLaunch => ServiceIpcMode::ProtectedOnly,
    }
}

/// Whether an interrupted preparation is complete, or nothing where it is not sound.
pub open spec fn recovery(
    phase: MigrationPhase,
    helper_is_fine: bool,
    plist_is_fine: bool,
    plist_is_expected: bool,
) -> Option<bool> {
    if phase == MigrationPhase::Preparing {
        if helper_is_fine && plist_is_fine && plist_is_expected {
            Some(true)
        } else {
            None
        }
    } else {
        Some(false)
    }
}

/// Whether a preparation that was interrupted at its end is complete: the helper
/// and the settings of the daemon are checked, and the settings must be the new
/// ones. In any other phase nothing is checked and nothing changes.
pub fn recover_protected_preparation(
    phase: MigrationPhase,
    helper_check: Result<(), String>,
    plist_check: Result<(), String>,
    plist_is_expected: bool,
) -> (r: Result<bool, String>)
    ensures
        r is Ok <==> recovery(phase, helper_check is Ok, plist_check is Ok, plist_is_expected)
            is Some,
        r matches Ok(recovered) ==> recovery(
            phase,
            helper_check is Ok,
            plist_check is Ok,
            plist_is_expected,
        ) == Some(recovered),
        if phase != MigrationPhase::Preparing {
            r == Ok::<bool, String>(false)
        } else {
            match (helper_check, plist_check) {
                (Err(e), _) => r == Err::<bool, String>(e),
                (Ok(()), Err(e)) => r == Err::<bool, String>(e),
                (Ok(()), Ok(())) => if plist_is_expected {
                    r == Ok::<bool, String>(true)
                } else {
                    r matches Err(e) && e@
                        == "Interrupted helper preparation has an unexpected daemon plist"@
                },
            }
        },
{
    if phase != MigrationPhase::Preparing {
        return Ok(false);
    }
    if let Err(e) = helper_check {
        return Err(e);
    }
    if let Err(e) = plist_check {
        return Err(e);
    }
    if !plist_is_expected {
        return Err("Interrupted helper preparation has an unexpected daemon plist".to_owned());
    }
    Ok(true)
}

/// What a result about the state of a move comes to, by whether the state is there.
pub open spec fn settled<T>(result: Result<T, String>, exists_now: Result<bool, String>) -> Result<
    Option<T>,
    String,
> {
    match (result, exists_now) {
        (Ok(value), _) => Ok(Some(value)),
        (Err(error), Ok(true)) => Err(error),
        (Err(_), Ok(false)) => Ok(None),
        (Err(_), Err(look)) => Err(look),
    }
}

/// A result about the state of a move, where the state may vanish meanwhile: an
/// error about a state that is gone is no error, but the end of the move.
pub fn migration_state_step<T>(result: Result<T, String>, exists_now: Result<bool, String>) -> (r:
    Result<Option<T>, String>)
    ensures
        r == settled(result, exists_now),
        match result {
            Ok(value) => r == Ok::<Option<T>, String>(Some(value)),
            Err(error) => match exists_now {
                Ok(true) => r == Err::<Option<T>, String>(error),
                Ok(false) => r == Ok::<Option<T>, String>(None),
                Err(look) => r == Err::<Option<T>, String>(look),
            },
        },
{
    match result {
        Ok(value) => Ok(Some(value)),
        Err(error) => match exists_now {
            Ok(true) => Err(error),
            Ok(false) => Ok(None),
            Err(look) => Err(look),
        },
    }
}

/// Whether a move is complete, or nothing where it cannot be completed any more.
pub open spec fn completion(pending: Option<MigrationPhase>, helper_is_fine: bool) -> Option<bool> {
    match pending {
        None => if helper_is_fine {
            Some(true)
        } else {
            None
        },
        Some(phase) => if phase == MigrationPhase::Committed {
            Some(true)
        } else if legacy_action(phase) is Some {
            None
        } else {
            Some(false)
        },
    }
}

/// Whether a move is complete, given its phase, or nothing where its state is gone.
/// Then the helper must be acceptable.
pub fn migration_is_complete(
    pending: Option<MigrationPhase>,
    helper_check: Result<(), String>,
) -> (r: Result<bool, String>)
    ensures
        r is Ok <==> completion(pending, helper_check is Ok) is Some,
        r matches Ok(complete) ==> completion(pending, helper_check is Ok) == Some(complete),
        match pending {
            None => match helper_check {
                Ok(()) => r == Ok::<bool, String>(true),
                Err(e) => r == Err::<bool, String>(e),
            },
            Some(MigrationPhase::Committed) => r == Ok::<bool, String>(true),
            Some(phase) => if legacy_action(phase) is Some {
                r matches Err(e) && e@ == "Privileged helper migration rolled back"@
            } else {
                r == Ok::<bool, String>(false)
            },
        },
{
    match pending {
        None => match helper_check {
            Ok(()) => Ok(true),
            Err(e) => Err(e),
        },
        Some(MigrationPhase::Committed) => Ok(true),
        Some(MigrationPhase::RollingBack) => Err(
            "Privileged helper migration rolled back".to_owned(),
        ),
        Some(MigrationPhase::RolledBack) => Err(
            "Privileged helper migration rolled back".to_owned(),
        ),
        Some(MigrationPhase::RollbackFailed) => Err(
            "Privileged helper migration rolled back".to_owned(),
        ),
        Some(_) => Ok(false),
    }
}

/// What the one who finishes a move does first.
#[derive(Clone, Copy, Debug, PartialEq, Eq, Structural)]
pub enum FinalizerStep {
    LookFirst,
    ValidateState,
    TakeLock,
    LookAgain,
}

/// What the one who finishes a move does next.
#[derive(Debug)]
pub enum FinalizerNext {
    Step(FinalizerStep),
    /// There is nothing to finish.
    Nothing,
    /// The move is to be completed.
    Complete,
    Fail { error: String },
}

/// What comes after a step of the one who finishes a move.
pub open spec fn finalizer_next(
    step: FinalizerStep,
    outcome: Result<(), String>,
    exists_now: Result<bool, String>,
) -> FinalizerNext {
    match step {
        FinalizerStep::LookFirst => match exists_now {
            Ok(true) => FinalizerNext::Step(FinalizerStep::ValidateState),
            Ok(false) => FinalizerNext::Nothing,
            Err(error) => FinalizerNext::Fail { error },
        },
        FinalizerStep::LookAgain => match exists_now {
            Ok(true) => FinalizerNext::Complete,
            Ok(false) => FinalizerNext::Nothing,
            Err(error) => FinalizerNext::Fail { error },
        },
        FinalizerStep::ValidateState => match settled(outcome, exists_now) {
            Ok(Some(())) => FinalizerNext::Step(FinalizerStep::TakeLock),
            Ok(None) => FinalizerNext::Nothing,
            Err(error) => FinalizerNext::Fail { error },
        },
        FinalizerStep::TakeLock => match settled(outcome, exists_now) {
            Ok(Some(())) => FinalizerNext::Step(FinalizerStep::LookAgain),
            Ok(None) => FinalizerNext::Nothing,
            Err(error) => FinalizerNext::Fail { error },
        },
    }
}

/// What comes after a step of the one who finishes a move. `outcome` is what came
/// of checking the state or of taking the lock; `exists_now` says whether the
/// state is still there. Another one may have finished the move meanwhile.
pub fn complete_existing_migration(
    step: FinalizerStep,
    outcome: Result<(), String>,
    exists_now: Result<bool, String>,
) -> (r: FinalizerNext)
    ensures
        r == finalizer_next(step, outcome, exists_now),
        match step {
            FinalizerStep::LookFirst | FinalizerStep::LookAgain => match exists_now {
                Ok(true) => r == (if step == FinalizerStep::LookFirst {
                    FinalizerNext::Step(FinalizerStep::ValidateState)
                } else {
                    FinalizerNext::Complete
                }),
                Ok(false) => r is Nothing,
                Err(e) => r == (FinalizerNext::Fail { error: e }),
            },
            FinalizerStep::ValidateState | FinalizerStep::TakeLock => match outcome {
                Ok(()) => r == (if step == FinalizerStep::ValidateState {
                    FinalizerNext::Step(FinalizerStep::TakeLock)
                } else {
                    FinalizerNext::Step(FinalizerStep::LookAgain)
                }),
                Err(e) => match exists_now {
                    Ok(true) => r == (FinalizerNext::Fail { error: e }),
                    Ok(false) => r is Nothing,
                    Err(look) => r == (FinalizerNext::Fail { error: look }),
                },
            },
        },
{
    match step {
        FinalizerStep::LookFirst => match exists_now {
            Ok(true) => FinalizerNext::Step(FinalizerStep::ValidateState),
            Ok(false) => FinalizerNext::Nothing,
            Err(error) => FinalizerNext::Fail { error },
        },
        FinalizerStep::LookAgain => match exists_now {
            Ok(true) => FinalizerNext::Complete,
            Ok(false) => FinalizerNext::Nothing,
            Err(error) => FinalizerNext::Fail { error },
        },
        FinalizerStep::ValidateState => match migration_state_step(outcome, exists_now) {
            Ok(Some(())) => FinalizerNext::Step(FinalizerStep::TakeLock),
            Ok(None) => FinalizerNext::Nothing,
            Err(error) => FinalizerNext::Fail { error },
        },
        FinalizerStep::TakeLock => match migration_state_step(outcome, exists_now) {
            Ok(Some(())) => FinalizerNext::Step(FinalizerStep::LookAgain),
            Ok(None) => FinalizerNext::Nothing,
            Err(error) => FinalizerNext::Fail { error },
        },
    }
}

/// A service offers the channel of the old service only while a move is being
/// undone, and only as the service in the app.
pub proof fn law_rollback_channel_needs_a_rollback(phase: MigrationPhase, action: ServiceStartAction)
    requires
        legacy_action(phase) == Some(action),
    ensures
        mode_for(action) == ServiceIpcMode::LegacyRollback,
        phase == MigrationPhase::RollingBack || phase == MigrationPhase::RolledBack || phase
            == MigrationPhase::RollbackFailed,
{
}

/// How a service starts settles which channels it offers: the protected one alone as a
/// rule, none of its own while the helper has to show that it is ready, and that of the
/// old service while a move is undone.
pub proof fn law_channels_follow_the_start(phase: MigrationPhase)
    ensures
        mode_for(ServiceStartAction::Start) == ServiceIpcMode::ProtectedOnly,
        mode_for(ServiceStartAction::StartForMigrationReadiness)
            == ServiceIpcMode::MigrationReadiness,
        mode_for(ServiceStartAction::StartForRollbackReadiness) == ServiceIpcMode::LegacyRollback,
        mode_for(ServiceStartAction::ExitAfterMigrationLaunch) == ServiceIpcMode::ProtectedOnly,
        legacy_action(phase) is Some <==> phase == MigrationPhase::RollingBack || phase
            == MigrationPhase::RolledBack || phase == MigrationPhase::RollbackFailed,
        legacy_action(phase) is Some ==> legacy_action(phase) == Some(
            ServiceStartAction::StartForRollbackReadiness,
        ),
{
}

/// A value that was read is kept. An error counts only while the state of the move is
/// there; without the state there is nothing more to do, and an error of looking for it
/// counts before any other.
pub proof fn law_errors_count_while_the_state_is_there(
    result: Result<(), String>,
    exists_now: Result<bool, String>,
)
    ensures
        result is Ok ==> settled(result, exists_now) == Ok::<Option<()>, String>(Some(())),
        settled(result, exists_now) == Ok::<Option<()>, String>(None) <==> result is Err
            && exists_now == Ok::<bool, String>(false),
        result is Err && exists_now == Ok::<bool, String>(true) ==> settled(result, exists_now)
            == Err::<Option<()>, String>(result->Err_0),
        result is Err && exists_now is Err ==> settled(result, exists_now) == Err::<
            Option<()>,
            String,
        >(exists_now->Err_0),
{
}

/// A move is completed only behind the lock, by who has found the state there once more;
/// it is locked only once the state was found to be sound.
pub proof fn law_moves_are_completed_behind_the_lock(
    step: FinalizerStep,
    outcome: Result<(), String>,
    exists_now: Result<bool, String>,
)
    ensures
        ({
            let next = finalizer_next(step, outcome, exists_now);
            let looking = step == FinalizerStep::LookFirst || step == FinalizerStep::LookAgain;
            &&& next is Complete <==> step == FinalizerStep::LookAgain && exists_now == Ok::<
                bool,
                String,
            >(true)
            &&& next == FinalizerNext::Step(FinalizerStep::ValidateState) <==> step
                == FinalizerStep::LookFirst && exists_now == Ok::<bool, String>(true)
            &&& next == FinalizerNext::Step(FinalizerStep::TakeLock) <==> step
                == FinalizerStep::ValidateState && outcome is Ok
            &&& next == FinalizerNext::Step(FinalizerStep::LookAgain) <==> step
                == FinalizerStep::TakeLock && outcome is Ok
            &&& next != FinalizerNext::Step(FinalizerStep::LookFirst)
            &&& next is Nothing <==> exists_now == Ok::<bool, String>(false) && (looking
                || outcome is Err)
            &&& next is Fail <==> (looking && exists_now is Err) || (!looking && outcome is Err
                && exists_now != Ok::<bool, String>(false))
        }),
{
}

/// A service in the app prepares a move unless one is being undone; it starts to show
/// that it is ready exactly where one is, and finishes a return that is complete itself.
pub proof fn law_service_in_the_app(pending: Option<MigrationPhase>)
    ensures
        begins_with(pending) == LegacyStart::Prepare <==> pending is None || legacy_action(
            pending->0,
        ) is None,
        begins_with(pending) is FinishRolledBack <==> pending == Some(MigrationPhase::RolledBack),
        begins_with(pending) is SpawnFinalizer <==> pending == Some(MigrationPhase::RollingBack)
            || pending == Some(MigrationPhase::RollbackFailed),
        begins_with(pending) matches LegacyStart::FinishRolledBack(action) ==> legacy_action(
            pending->0,
        ) == Some(action),
        begins_with(pending) matches LegacyStart::SpawnFinalizer(action) ==> legacy_action(
            pending->0,
        ) == Some(action),
{
}

/// Only the superuser runs the service, from the helper or from the app; where both are
/// one path it counts as the helper's.
pub proof fn law_who_the_service_is(
    current: Seq<char>,
    other: Seq<char>,
    effective_uid: u32,
)
    ensures
        effective_uid != 0 ==> identity_of(current, current, other, effective_uid) is None
            && identity_of(current, other, current, effective_uid) is None,
        effective_uid == 0 ==> identity_of(current, current, other, effective_uid) == Some(
            ServiceIdentity::Protected,
        ),
        effective_uid == 0 && !crate::file_path::same_path_names(current, other) ==> identity_of(
            current,
            other,
            current,
            effective_uid,
        ) == Some(ServiceIdentity::Legacy) && identity_of(current, other, other, effective_uid)
            is None,
{
}

/// A move is complete once it is committed, or once its state is gone and the helper is
/// acceptable; one that is being undone never will be.
pub proof fn law_when_a_move_is_complete(pending: Option<MigrationPhase>, helper_is_fine: bool)
    ensures
        completion(pending, helper_is_fine) == Some(true) <==> pending == Some(
            MigrationPhase::Committed,
        ) || (pending is None && helper_is_fine),
        completion(pending, helper_is_fine) is None <==> (pending is None && !helper_is_fine)
            || pending == Some(MigrationPhase::RollingBack) || pending == Some(
            MigrationPhase::RolledBack,
        ) || pending == Some(MigrationPhase::RollbackFailed),
{
}

/// An interrupted preparation is taken up only where each check of it holds, and what is
/// in another phase is neither checked nor taken up.
pub proof fn law_sound_preparations_are_taken_up(
    phase: MigrationPhase,
    helper_is_fine: bool,
    plist_is_fine: bool,
    plist_is_expected: bool,
)
    ensures
        recovery(phase, helper_is_fine, plist_is_fine, plist_is_expected) == Some(true) ==> phase
            == MigrationPhase::Preparing && helper_is_fine && plist_is_fine && plist_is_expected,
        recovery(MigrationPhase::Preparing, true, true, true) == Some(true),
        recovery(phase, helper_is_fine, plist_is_fine, plist_is_expected) == Some(false) <==> phase
            != MigrationPhase::Preparing,
{
}

/// A service in the helper offers the channels of a move exactly while there is the state
/// of one, and only the protected ones else.
pub proof fn law_service_in_the_helper(state_present: bool)
    ensures
        mode_for(helper_start(state_present)) == ServiceIpcMode::MigrationReadiness
            <==> state_present,
        mode_for(helper_start(state_present)) == ServiceIpcMode::ProtectedOnly <==> !state_present,
        helper_start(state_present) != ServiceStartAction::ExitAfterMigrationLaunch,
{
}

} // verus!
