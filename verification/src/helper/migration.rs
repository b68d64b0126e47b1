//! The move of an installation to the helper, as a state machine. Each step is one
//! piece of work on the disk or with the launch daemon; the driver does it and
//! reports what came of it. What has been done is kept on the disk as a phase, so
//! that an interrupted move is recovered or undone later.
use crate::text::same_text;
use vstd::prelude::*;

verus! {

/// How far a move has come, as it is kept on the disk.
#[derive(Clone, Copy, Debug, PartialEq, Eq, Structural)]
pub enum MigrationPhase {
    Preparing,
    InstallingHelper,
    Prepared,
    Bootstrapping,
    RollingBack,
    RolledBack,
    RollbackFailed,
    Committed,
}

/// The text that stands for a phase.
pub open spec fn phase_text(phase: MigrationPhase) -> Seq<char> {
    match phase {
        MigrationPhase::Preparing => "preparing"@,
        MigrationPhase::InstallingHelper => "installing-helper"@,
        MigrationPhase::Prepared => "prepared"@,
        MigrationPhase::Bootstrapping => "bootstrapping"@,
        MigrationPhase::RollingBack => "rolling-back"@,
        MigrationPhase::RolledBack => "rolled-back"@,
        MigrationPhase::RollbackFailed => "rollback-failed"@,
        MigrationPhase::Committed => "committed"@,
    }
}

impl MigrationPhase {
    /// The text that stands for a phase.
    pub fn as_str(self) -> (r: &'static str)
        ensures
            r@ == phase_text(self),
    {
        match self {
            MigrationPhase::Preparing => "preparing",
            MigrationPhase::InstallingHelper => "installing-helper",
            MigrationPhase::Prepared => "prepared",
            MigrationPhase::Bootstrapping => "bootstrapping",
            MigrationPhase::RollingBack => "rolling-back",
            MigrationPhase::RolledBack => "rolled-back",
            MigrationPhase::RollbackFailed => "rollback-failed",
            MigrationPhase::Committed => "committed",
        }
    }

    /// The phase that a text stands for.
    pub fn parse(value: &str) -> (r: Result<MigrationPhase, String>)
        ensures
            match r {
                Ok(phase) => value@ == phase_text(phase),
                Err(e) => (forall|phase: MigrationPhase| value@ != #[trigger] phase_text(phase))
                    && e@ == "Unknown privileged helper migration phase: "@ + value@,
            },
    {
        if same_text(value, "preparing") {
            return Ok(MigrationPhase::Preparing);
        }
        if same_text(value, "installing-helper") {
            return Ok(MigrationPhase::InstallingHelper);
        }
        if same_text(value, "prepared") {
            return Ok(MigrationPhase::Prepared);
        }
        if same_text(value, "bootstrapping") {
            return Ok(MigrationPhase::Bootstrapping);
        }
        if same_text(value, "rolling-back") {
            return Ok(MigrationPhase::RollingBack);
        }
        if same_text(value, "rolled-back") {
            return Ok(MigrationPhase::RolledBack);
        }
        if same_text(value, "rollback-failed") {
            return Ok(MigrationPhase::RollbackFailed);
        }
        if same_text(value, "committed") {
            return Ok(MigrationPhase::Committed);
        }
        let mut text: String = "Unknown privileged helper migration phase: ".to_owned();
        text.append(value);
        Err(text)
    }
}

/// Different phases have different texts, so that a phase is read back as it was
/// written.
pub proof fn law_phase_texts_differ(a: MigrationPhase, b: MigrationPhase)
    requires
        phase_text(a) == phase_text(b),
    ensures
        a == b,
{
    reveal_strlit("preparing");
    reveal_strlit("installing-helper");
    reveal_strlit("prepared");
    reveal_strlit("bootstrapping");
    reveal_strlit("rolling-back");
    reveal_strlit("rolled-back");
    reveal_strlit("rollback-failed");
    reveal_strlit("committed");
    assert("preparing"@.len() == 9 && "preparing"@[0] == 'p');
    assert("committed"@.len() == 9 && "committed"@[0] == 'c');
    assert("installing-helper"@.len() == 17);
    assert("prepared"@.len() == 8);
    assert("bootstrapping"@.len() == 13);
    assert("rolling-back"@.len() == 12);
    assert("rolled-back"@.len() == 11);
    assert("rollback-failed"@.len() == 15);
}

/// One piece of work.
#[derive(Clone, Copy, Debug, PartialEq, Eq, Structural)]
pub enum MigrationStep {
    /// Look for the directory of all helpers.
    StatTools,
    CreateTools,
    ValidateToolsAncestors,
    ValidateTools,
    /// Look for the state of an earlier move.
    StatState,
    CreateState,
    ValidateDaemonPlist,
    /// Copy the daemon's settings to the state.
    BackUpPlist,
    /// Put the settings that the daemon will have into the state.
    WriteExpectedPlist,
    WritePreparing,
    CreateStagedHelper,
    /// Look for a helper that is installed already.
    StatHelper,
    ValidateExistingHelper,
    CompareHelper,
    RemoveStagedHelper,
    WriteInstalling,
    /// Move the staged helper to its place.
    InstallHelper,
    ValidateInstalledHelper,
    WritePreparingAgain,
    ValidateHelperBeforePlist,
    /// Give the daemon its new settings.
    WriteDaemonPlist,
    WritePrepared,
    CleanUpMismatch,
    ValidateStateDirectory,
    ReadOptionalPhase,
    ValidatePreparedState,
    ValidatePreparedHelper,
    StatBackup,
    StatHelperWithoutBackup,
    /// Give the daemon its old settings, while undoing a preparation.
    RestorePlistAfterPreparation,
    CleanUpPreparation,
    ValidateState,
    ReadPhase,
    /// Check the helper of a move that was found in a phase.
    ValidatePendingHelper(MigrationPhase),
    WriteBootstrapping,
    ReloadDaemon,
    CheckReady,
    WriteRollingBack,
    /// Give the daemon its old settings.
    RestorePlist,
    ReloadOldDaemon,
    /// Find out which program the old settings start.
    ReadOldProgram,
    /// Wait for the helper, or for the service in the app.
    CheckOldReady(bool),
    WriteRolledBack,
    WriteRollbackFailed,
    ValidateRolledBackState,
    ReadRolledBackPhase,
    ReadRolledBackProgram,
    ValidateKeptHelper,
    StatRemovedHelper,
    ValidateRemovedHelper,
    DeleteHelper,
    ValidateQuarantineState,
    StatQuarantine,
    QuarantineHelper,
    CleanUpRollback,
    WriteCommitted,
    CleanUpCommit,
}

/// What came of a piece of work.
#[derive(Debug)]
pub enum Outcome {
    Done,
    /// What was looked for is there.
    Present,
    /// What was looked for is not there.
    Absent,
    /// The answer to a question: two helpers are the same, the daemon is ready, the
    /// old settings start the helper.
    Answer(bool),
    Phase(MigrationPhase),
    Failed { error: String },
}

/// Why a move is being made, undone or finished.
#[derive(Debug)]
pub enum Purpose {
    /// The helper is put in place.
    Prepare,
    /// An interrupted preparation is undone, with the helper if it may have been
    /// installed.
    UndoPreparation { remove_helper: bool },
    /// The daemon is switched to the helper.
    Complete,
    /// The daemon did not come up, for a reason, and is switched back.
    RollBack { reason: String },
    /// An earlier return to the old daemon is repeated.
    RepeatRollBack,
    /// A return to the old daemon is finished.
    FinishRollBack,
    /// Writing the settings failed, and the preparation for it is undone.
    AbandonPlistWrite { error: String },
}

/// A purpose as a value.
pub enum PurposeView {
    Prepare,
    UndoPreparation { remove_helper: bool },
    Complete,
    RollBack { reason: Seq<char> },
    RepeatRollBack,
    FinishRollBack,
    AbandonPlistWrite { error: Seq<char> },
}

impl View for Purpose {
    type V = PurposeView;

    open spec fn view(&self) -> PurposeView {
        match self {
            Purpose::Prepare => PurposeView::Prepare,
            Purpose::UndoPreparation { remove_helper } => PurposeView::UndoPreparation {
                remove_helper: *remove_helper,
            },
            Purpose::Complete => PurposeView::Complete,
            Purpose::RollBack { reason } => PurposeView::RollBack { reason: reason@ },
            Purpose::RepeatRollBack => PurposeView::RepeatRollBack,
            Purpose::FinishRollBack => PurposeView::FinishRollBack,
            Purpose::AbandonPlistWrite { error } => PurposeView::AbandonPlistWrite { error: error@ },
        }
    }
}

/// What comes after a piece of work.
pub enum NextView {
    Go(PurposeView, MigrationStep),
    Finished,
    Refused(Seq<char>),
}

/// What comes after a piece of work, for the driver.
#[derive(Debug)]
pub enum MigrationNext {
    Step(MigrationStep),
    Finished,
    Refused { error: String },
}

/// A move of an installation to the helper.
#[derive(Debug)]
pub struct HelperMigration {
    pub purpose: Purpose,
    pub step: MigrationStep,
    /// The path that an unusable helper is moved to.
    pub quarantine: String,
}

/// The reason of a return to the old daemon.
pub open spec fn reason_of(purpose: PurposeView) -> Seq<char> {
    match purpose {
        PurposeView::RollBack { reason } => reason,
        _ => ""@,
    }
}

/// How a failed return to the old daemon goes on.
pub open spec fn rollback_failed(purpose: PurposeView, error: Seq<char>) -> NextView {
    match purpose {
        PurposeView::RollBack { reason } => NextView::Go(
            PurposeView::RollBack { reason: reason + "); rollback failed ("@ + error },
            MigrationStep::WriteRollbackFailed,
        ),
        PurposeView::AbandonPlistWrite { error: operation } => NextView::Refused(
            "plist write failed ("@ + operation + "); migration rollback failed ("@ + error + ")"@,
        ),
        _ => NextView::Refused(error),
    }
}

/// How a return to the old daemon ends.
pub open spec fn rollback_finished(purpose: PurposeView) -> NextView {
    match purpose {
        PurposeView::RollBack { reason } => NextView::Refused(
            "Protected helper activation failed; old daemon restored: "@ + reason,
        ),
        PurposeView::RepeatRollBack => NextView::Refused(
            "Recovered a previously failed privileged helper rollback"@,
        ),
        PurposeView::AbandonPlistWrite { error } => NextView::Refused(error),
        _ => NextView::Finished,
    }
}

/// How a helper that had to go is gone.
pub open spec fn helper_gone(purpose: PurposeView) -> NextView {
    match purpose {
        PurposeView::UndoPreparation { remove_helper } => NextView::Go(
            purpose,
            MigrationStep::CleanUpPreparation,
        ),
        _ => NextView::Go(purpose, MigrationStep::CleanUpRollback),
    }
}

/// A return to the old daemon, because it did not come up.
pub open spec fn roll_back(reason: Seq<char>) -> NextView {
    NextView::Go(PurposeView::RollBack { reason }, MigrationStep::WriteRollingBack)
}

/// How work that failed goes on.
pub open spec fn after_failure(
    purpose: PurposeView,
    step: MigrationStep,
    error: Seq<char>,
) -> NextView {
    match step {
        MigrationStep::CleanUpMismatch => NextView::Refused(
            "Existing protected helper does not match migration source; state cleanup failed: "@
                + error,
        ),
        MigrationStep::ReloadDaemon => roll_back(error),
        MigrationStep::CheckReady => roll_back(error),
        MigrationStep::ValidateRemovedHelper => NextView::Go(
            purpose,
            MigrationStep::ValidateQuarantineState,
        ),
        MigrationStep::CleanUpCommit => NextView::Finished,
        MigrationStep::WriteRollbackFailed => NextView::Refused(
            "CRITICAL: protected helper activation failed ("@ + reason_of(purpose)
                + "); state persistence: Err("@ + error + ")"@,
        ),
        MigrationStep::WriteRollingBack | MigrationStep::RestorePlist
        | MigrationStep::ReloadOldDaemon | MigrationStep::ReadOldProgram
        | MigrationStep::CheckOldReady(_) | MigrationStep::WriteRolledBack
        | MigrationStep::ValidateRolledBackState | MigrationStep::ReadRolledBackPhase
        | MigrationStep::ReadRolledBackProgram | MigrationStep::ValidateKeptHelper
        | MigrationStep::StatRemovedHelper | MigrationStep::DeleteHelper
        | MigrationStep::ValidateQuarantineState | MigrationStep::StatQuarantine
        | MigrationStep::QuarantineHelper | MigrationStep::CleanUpRollback => rollback_failed(
            purpose,
            error,
        ),
        _ => NextView::Refused(error),
    }
}

/// How a look for something goes on.
pub open spec fn after_look(
    purpose: PurposeView,
    step: MigrationStep,
    present: bool,
    quarantine: Seq<char>,
) -> NextView {
    match step {
        MigrationStep::StatTools => NextView::Go(
            purpose,
            if present {
                MigrationStep::ValidateToolsAncestors
            } else {
                MigrationStep::CreateTools
            },
        ),
        MigrationStep::StatState => match purpose {
            PurposeView::AbandonPlistWrite { error } => if present {
                NextView::Go(purpose, MigrationStep::WriteRollingBack)
            } else {
                NextView::Refused(error)
            },
            _ => NextView::Go(
                purpose,
                if present {
                    MigrationStep::ValidateStateDirectory
                } else {
                    MigrationStep::CreateState
                },
            ),
        },
        MigrationStep::StatHelper => NextView::Go(
            purpose,
            if present {
                MigrationStep::ValidateExistingHelper
            } else {
                MigrationStep::WriteInstalling
            },
        ),
        MigrationStep::StatBackup => if present {
            NextView::Go(purpose, MigrationStep::RestorePlistAfterPreparation)
        } else if purpose == (PurposeView::UndoPreparation { remove_helper: true }) {
            NextView::Go(purpose, MigrationStep::StatHelperWithoutBackup)
        } else {
            NextView::Go(purpose, MigrationStep::CleanUpPreparation)
        },
        MigrationStep::StatHelperWithoutBackup => if present {
            NextView::Refused("CRITICAL: helper exists without a migration plist backup"@)
        } else {
            NextView::Go(purpose, MigrationStep::StatRemovedHelper)
        },
        MigrationStep::StatRemovedHelper => if present {
            NextView::Go(purpose, MigrationStep::ValidateRemovedHelper)
        } else {
            helper_gone(purpose)
        },
        _ => if present {
            rollback_failed(purpose, "Protected path already exists: "@ + quarantine)
        } else {
            NextView::Go(purpose, MigrationStep::QuarantineHelper)
        },
    }
}

/// How the answer to a question goes on.
pub open spec fn after_answer(purpose: PurposeView, step: MigrationStep, yes: bool) -> NextView {
    match step {
        MigrationStep::CompareHelper => NextView::Go(
            purpose,
            if yes {
                MigrationStep::RemoveStagedHelper
            } else {
                MigrationStep::CleanUpMismatch
            },
        ),
        MigrationStep::CheckReady => if yes {
            NextView::Go(purpose, MigrationStep::WriteCommitted)
        } else {
            roll_back("protected helper did not become ready"@)
        },
        MigrationStep::ReadOldProgram => NextView::Go(purpose, MigrationStep::CheckOldReady(yes)),
        MigrationStep::CheckOldReady(_) => if yes {
            NextView::Go(purpose, MigrationStep::WriteRolledBack)
        } else {
            rollback_failed(purpose, "Restored daemon did not become ready"@)
        },
        _ => NextView::Go(
            purpose,
            if yes {
                MigrationStep::ValidateKeptHelper
            } else {
                MigrationStep::StatRemovedHelper
            },
        ),
    }
}

/// How a move goes on that was found in a phase when it was to be prepared.
pub open spec fn recover_from(phase: Option<MigrationPhase>) -> NextView {
    match phase {
        Some(MigrationPhase::Prepared) | Some(MigrationPhase::Bootstrapping) => NextView::Go(
            PurposeView::Prepare,
            MigrationStep::ValidatePreparedState,
        ),
        Some(MigrationPhase::Committed) => NextView::Go(
            PurposeView::Prepare,
            MigrationStep::WriteCommitted,
        ),
        Some(MigrationPhase::InstallingHelper) => NextView::Go(
            PurposeView::UndoPreparation { remove_helper: true },
            MigrationStep::StatBackup,
        ),
        Some(MigrationPhase::Preparing) | None => NextView::Go(
            PurposeView::UndoPreparation { remove_helper: false },
            MigrationStep::StatBackup,
        ),
        Some(_) => NextView::Refused(
            "Helper migration recovery requires the migration finalizer"@,
        ),
    }
}

/// How a move goes on that was found in a phase when it was to be completed. Every
/// phase but the one after a return to the old daemon needs an acceptable helper,
/// which is checked first.
pub open spec fn complete_from(phase: MigrationPhase) -> NextView {
    match phase {
        MigrationPhase::Preparing | MigrationPhase::InstallingHelper => NextView::Refused(
            "Privileged helper migration is not ready for launchd reload"@,
        ),
        MigrationPhase::Prepared => NextView::Go(
            PurposeView::Complete,
            MigrationStep::WriteBootstrapping,
        ),
        MigrationPhase::Bootstrapping => NextView::Go(
            PurposeView::Complete,
            MigrationStep::ReloadDaemon,
        ),
        MigrationPhase::RollingBack | MigrationPhase::RollbackFailed => NextView::Go(
            PurposeView::RepeatRollBack,
            MigrationStep::WriteRollingBack,
        ),
        MigrationPhase::RolledBack => NextView::Go(
            PurposeView::FinishRollBack,
            MigrationStep::ValidateRolledBackState,
        ),
        MigrationPhase::Committed => NextView::Go(
            PurposeView::Complete,
            MigrationStep::WriteCommitted,
        ),
    }
}

/// How a phase that was read goes on.
pub open spec fn after_phase(
    purpose: PurposeView,
    step: MigrationStep,
    phase: MigrationPhase,
) -> NextView {
    match step {
        MigrationStep::ReadOptionalPhase => recover_from(Some(phase)),
        MigrationStep::ReadPhase => if phase == MigrationPhase::RolledBack {
            complete_from(phase)
        } else {
            NextView::Go(purpose, MigrationStep::ValidatePendingHelper(phase))
        },
        _ => if phase == MigrationPhase::RolledBack {
            NextView::Go(purpose, MigrationStep::ReadRolledBackProgram)
        } else {
            rollback_failed(
                purpose,
                "Privileged helper rollback has not reached a verified state"@,
            )
        },
    }
}

/// How work that was done goes on.
pub open spec fn after_work(purpose: PurposeView, step: MigrationStep) -> NextView {
    match step {
        MigrationStep::CreateTools => NextView::Go(purpose, MigrationStep::ValidateToolsAncestors),
        MigrationStep::ValidateToolsAncestors => NextView::Go(purpose, MigrationStep::ValidateTools),
        MigrationStep::ValidateTools => NextView::Go(purpose, MigrationStep::StatState),
        MigrationStep::CreateState => NextView::Go(purpose, MigrationStep::ValidateDaemonPlist),
        MigrationStep::ValidateDaemonPlist => NextView::Go(purpose, MigrationStep::BackUpPlist),
        MigrationStep::BackUpPlist => NextView::Go(purpose, MigrationStep::WriteExpectedPlist),
        MigrationStep::WriteExpectedPlist => NextView::Go(purpose, MigrationStep::WritePreparing),
        MigrationStep::WritePreparing => NextView::Go(purpose, MigrationStep::CreateStagedHelper),
        MigrationStep::CreateStagedHelper => NextView::Go(purpose, MigrationStep::StatHelper),
        MigrationStep::ValidateExistingHelper => NextView::Go(purpose, MigrationStep::CompareHelper),
        MigrationStep::RemoveStagedHelper => NextView::Go(
            purpose,
            MigrationStep::ValidateHelperBeforePlist,
        ),
        MigrationStep::WriteInstalling => NextView::Go(purpose, MigrationStep::InstallHelper),
        MigrationStep::InstallHelper => NextView::Go(
            purpose,
            MigrationStep::ValidateInstalledHelper,
        ),
        MigrationStep::ValidateInstalledHelper => NextView::Go(
            purpose,
            MigrationStep::WritePreparingAgain,
        ),
        MigrationStep::WritePreparingAgain => NextView::Go(
            purpose,
            MigrationStep::ValidateHelperBeforePlist,
        ),
        MigrationStep::ValidateHelperBeforePlist => NextView::Go(
            purpose,
            MigrationStep::WriteDaemonPlist,
        ),
        MigrationStep::WriteDaemonPlist => NextView::Go(purpose, MigrationStep::WritePrepared),
        MigrationStep::CleanUpMismatch => NextView::Refused(
            "Existing protected helper does not match migration source"@,
        ),
        MigrationStep::ValidateStateDirectory => NextView::Go(
            purpose,
            MigrationStep::ReadOptionalPhase,
        ),
        MigrationStep::ValidatePreparedState => NextView::Go(
            purpose,
            MigrationStep::ValidatePreparedHelper,
        ),
        MigrationStep::RestorePlistAfterPreparation => if purpose == (PurposeView::UndoPreparation {
            remove_helper: true,
        }) {
            NextView::Go(purpose, MigrationStep::StatRemovedHelper)
        } else {
            NextView::Go(purpose, MigrationStep::CleanUpPreparation)
        },
        MigrationStep::CleanUpPreparation => NextView::Refused(
            "Interrupted helper preparation was rolled back; retry migration"@,
        ),
        MigrationStep::ValidateState => NextView::Go(purpose, MigrationStep::ReadPhase),
        MigrationStep::ValidatePendingHelper(phase) => complete_from(phase),
        MigrationStep::WriteBootstrapping => NextView::Go(purpose, MigrationStep::ReloadDaemon),
        MigrationStep::ReloadDaemon => NextView::Go(purpose, MigrationStep::CheckReady),
        MigrationStep::WriteRollingBack => NextView::Go(purpose, MigrationStep::RestorePlist),
        MigrationStep::RestorePlist => match purpose {
            PurposeView::AbandonPlistWrite { error } => NextView::Go(
                purpose,
                MigrationStep::WriteRolledBack,
            ),
            _ => NextView::Go(purpose, MigrationStep::ReloadOldDaemon),
        },
        MigrationStep::ReloadOldDaemon => NextView::Go(purpose, MigrationStep::ReadOldProgram),
        MigrationStep::WriteRolledBack => NextView::Go(
            purpose,
            MigrationStep::ValidateRolledBackState,
        ),
        MigrationStep::WriteRollbackFailed => NextView::Refused(
            "CRITICAL: protected helper activation failed ("@ + reason_of(purpose)
                + "); state persistence: Ok(())"@,
        ),
        MigrationStep::ValidateRolledBackState => NextView::Go(
            purpose,
            MigrationStep::ReadRolledBackPhase,
        ),
        MigrationStep::ValidateKeptHelper => NextView::Go(purpose, MigrationStep::CleanUpRollback),
        MigrationStep::ValidateRemovedHelper => NextView::Go(purpose, MigrationStep::DeleteHelper),
        MigrationStep::DeleteHelper => helper_gone(purpose),
        MigrationStep::ValidateQuarantineState => NextView::Go(
            purpose,
            MigrationStep::StatQuarantine,
        ),
        MigrationStep::QuarantineHelper => helper_gone(purpose),
        MigrationStep::CleanUpRollback => rollback_finished(purpose),
        MigrationStep::WriteCommitted => NextView::Go(purpose, MigrationStep::CleanUpCommit),
        _ => NextView::Finished,
    }
}

/// The steps that look for something.
pub open spec fn looks(step: MigrationStep) -> bool {
    step is StatTools || step is StatState || step is StatHelper || step is StatBackup
        || step is StatHelperWithoutBackup || step is StatRemovedHelper || step is StatQuarantine
}

/// The steps that ask a question.
pub open spec fn asks(step: MigrationStep) -> bool {
    step is CompareHelper || step is CheckReady || step is ReadOldProgram || step is CheckOldReady
        || step is ReadRolledBackProgram
}

/// The steps after which a phase is known.
pub open spec fn tells_phase(step: MigrationStep) -> bool {
    step is ReadOptionalPhase || step is ReadPhase || step is ReadRolledBackPhase
}

/// A step can have that outcome.
pub open spec fn can_have(step: MigrationStep, outcome: Outcome) -> bool {
    match outcome {
        Outcome::Failed { error } => true,
        Outcome::Present => looks(step),
        Outcome::Absent => looks(step) || step is ReadOptionalPhase,
        Outcome::Answer(_) => asks(step),
        Outcome::Phase(_) => tells_phase(step),
        Outcome::Done => !looks(step) && !asks(step) && !tells_phase(step),
    }
}

/// What an outcome leads to.
pub open spec fn leads_to(
    purpose: PurposeView,
    step: MigrationStep,
    outcome: Outcome,
    quarantine: Seq<char>,
) -> NextView {
    match outcome {
        Outcome::Done => after_work(purpose, step),
        Outcome::Present => after_look(purpose, step, true, quarantine),
        Outcome::Absent => if step is ReadOptionalPhase {
            recover_from(None)
        } else {
            after_look(purpose, step, false, quarantine)
        },
        Outcome::Answer(yes) => after_answer(purpose, step, yes),
        Outcome::Phase(phase) => after_phase(purpose, step, phase),
        Outcome::Failed { error } => after_failure(purpose, step, error@),
    }
}

/// The state after an outcome, and what the driver is told, agree with a value.
pub open spec fn agrees(
    after: HelperMigration,
    told: MigrationNext,
    expected: NextView,
) -> bool {
    match expected {
        NextView::Go(purpose, step) => after.purpose@ == purpose && after.step == step && told
            == MigrationNext::Step(step),
        NextView::Finished => told is Finished,
        NextView::Refused(error) => told matches MigrationNext::Refused { error: e } && e@ == error,
    }
}

fn clone_purpose(purpose: &Purpose) -> (r: Purpose)
    ensures
        r@ == purpose@,
{
    match purpose {
        Purpose::Prepare => Purpose::Prepare,
        Purpose::UndoPreparation { remove_helper } => Purpose::UndoPreparation {
            remove_helper: *remove_helper,
        },
        Purpose::Complete => Purpose::Complete,
        Purpose::RollBack { reason } => Purpose::RollBack { reason: reason.clone() },
        Purpose::RepeatRollBack => Purpose::RepeatRollBack,
        Purpose::FinishRollBack => Purpose::FinishRollBack,
        Purpose::AbandonPlistWrite { error } => Purpose::AbandonPlistWrite { error: error.clone() },
    }
}

fn refuse(text: &str) -> (r: MigrationNext)
    ensures
        r matches MigrationNext::Refused { error } && error@ == text@,
{
    MigrationNext::Refused { error: text.to_owned() }
}

impl HelperMigration {
    /// Puts the helper in place, so that the daemon can be switched to it.
    pub fn prepare(quarantine: String) -> (r: HelperMigration)
        ensures
            r.purpose@ == PurposeView::Prepare,
            r.step == MigrationStep::StatTools,
            r.quarantine == quarantine,
    {
        HelperMigration { purpose: Purpose::Prepare, step: MigrationStep::StatTools, quarantine }
    }

    /// Switches the daemon to the helper, or back where that fails.
    pub fn complete(quarantine: String) -> (r: HelperMigration)
        ensures
            r.purpose@ == PurposeView::Complete,
            r.step == MigrationStep::ValidateState,
            r.quarantine == quarantine,
    {
        HelperMigration {
            purpose: Purpose::Complete,
            step: MigrationStep::ValidateState,
            quarantine,
        }
    }

    /// Finishes a return to the old daemon.
    pub fn finish_rolled_back(quarantine: String) -> (r: HelperMigration)
        ensures
            r.purpose@ == PurposeView::FinishRollBack,
            r.step == MigrationStep::ValidateRolledBackState,
            r.quarantine == quarantine,
    {
        HelperMigration {
            purpose: Purpose::FinishRollBack,
            step: MigrationStep::ValidateRolledBackState,
            quarantine,
        }
    }

    /// Undoes a preparation after the settings could not be written.
    pub fn abandon_plist_write(error: String, quarantine: String) -> (r: HelperMigration)
        ensures
            r.purpose@ == (PurposeView::AbandonPlistWrite { error: error@ }),
            r.step == MigrationStep::StatState,
            r.quarantine == quarantine,
    {
        HelperMigration {
            purpose: Purpose::AbandonPlistWrite { error },
            step: MigrationStep::StatState,
            quarantine,
        }
    }

    fn go(&mut self, step: MigrationStep) -> (r: MigrationNext)
        ensures
            final(self).purpose == old(self).purpose,
            final(self).step == step,
            final(self).quarantine == old(self).quarantine,
            r == MigrationNext::Step(step),
    {
        self.step = step;
        MigrationNext::Step(step)
    }

    fn reason(&self) -> (r: String)
        ensures
            r@ == reason_of(self.purpose@),
    {
        match clone_purpose(&self.purpose) {
            Purpose::RollBack { reason } => reason,
            _ => "".to_owned(),
        }
    }

    fn roll_back(&mut self, reason: String) -> (r: MigrationNext)
        ensures
            agrees(*final(self), r, roll_back(reason@)),
            final(self).quarantine == old(self).quarantine,
    {
        self.purpose = Purpose::RollBack { reason };
        self.go(MigrationStep::WriteRollingBack)
    }

    fn rollback_failed(&mut self, error: &str) -> (r: MigrationNext)
        ensures
            agrees(*final(self), r, rollback_failed(old(self).purpose@, error@)),
            final(self).quarantine == old(self).quarantine,
    {
        match clone_purpose(&self.purpose) {
            Purpose::RollBack { reason } => {
                let mut text = reason;
                text.append("); rollback failed (");
                text.append(error);
                self.purpose = Purpose::RollBack { reason: text };
                self.go(MigrationStep::WriteRollbackFailed)
            },
            Purpose::AbandonPlistWrite { error: operation } => {
                let mut text: String = "plist write failed (".to_owned();
                text.append(operation.as_str());
                text.append("); migration rollback failed (");
                text.append(error);
                text.append(")");
                MigrationNext::Refused { error: text }
            },
            _ => refuse(error),
        }
    }

    fn helper_gone(&mut self) -> (r: MigrationNext)
        ensures
            agrees(*final(self), r, helper_gone(old(self).purpose@)),
            final(self).quarantine == old(self).quarantine,
    {
        let undoing = matches!(&self.purpose, Purpose::UndoPreparation { .. });
        if undoing {
            self.go(MigrationStep::CleanUpPreparation)
        } else {
            self.go(MigrationStep::CleanUpRollback)
        }
    }

    fn after_failure(&mut self, error: String) -> (r: MigrationNext)
        ensures
            agrees(*final(self), r, after_failure(old(self).purpose@, old(self).step, error@)),
            final(self).quarantine == old(self).quarantine,
    {
        match self.step {
            MigrationStep::CleanUpMismatch => {
                let mut text: String =
                    "Existing protected helper does not match migration source; state cleanup failed: ".to_owned();
                text.append(error.as_str());
                MigrationNext::Refused { error: text }
            },
            MigrationStep::ReloadDaemon => self.roll_back(error),
            MigrationStep::CheckReady => self.roll_back(error),
            MigrationStep::ValidateRemovedHelper => self.go(MigrationStep::ValidateQuarantineState),
            MigrationStep::CleanUpCommit => MigrationNext::Finished,
            MigrationStep::WriteRollbackFailed => {
                let mut text: String = "CRITICAL: protected helper activation failed (".to_owned();
                let reason = self.reason();
                text.append(reason.as_str());
                text.append("); state persistence: Err(");
                text.append(error.as_str());
                text.append(")");
                MigrationNext::Refused { error: text }
            },
            MigrationStep::WriteRollingBack
            | MigrationStep::RestorePlist
            | MigrationStep::ReloadOldDaemon
            | MigrationStep::ReadOldProgram
            | MigrationStep::CheckOldReady(_)
            | MigrationStep::WriteRolledBack
            | MigrationStep::ValidateRolledBackState
            | MigrationStep::ReadRolledBackPhase
            | MigrationStep::ReadRolledBackProgram
            | MigrationStep::ValidateKeptHelper
            | MigrationStep::StatRemovedHelper
            | MigrationStep::DeleteHelper
            | MigrationStep::ValidateQuarantineState
            | MigrationStep::StatQuarantine
            | MigrationStep::QuarantineHelper
            | MigrationStep::CleanUpRollback => self.rollback_failed(error.as_str()),
            _ => MigrationNext::Refused { error },
        }
    }

    fn after_look(&mut self, present: bool) -> (r: MigrationNext)
        ensures
            agrees(
                *final(self),
                r,
                after_look(old(self).purpose@, old(self).step, present, old(self).quarantine@),
            ),
            final(self).quarantine == old(self).quarantine,
    {
        let removing = matches!(&self.purpose, Purpose::UndoPreparation { remove_helper: true });
        match self.step {
            MigrationStep::StatTools => {
                if present {
                    self.go(MigrationStep::ValidateToolsAncestors)
                } else {
                    self.go(MigrationStep::CreateTools)
                }
            },
            MigrationStep::StatState => {
                if let Purpose::AbandonPlistWrite { error } = clone_purpose(&self.purpose) {
                    if present {
                        return self.go(MigrationStep::WriteRollingBack);
                    }
                    return MigrationNext::Refused { error };
                }
                if present {
                    self.go(MigrationStep::ValidateStateDirectory)
                } else {
                    self.go(MigrationStep::CreateState)
                }
            },
            MigrationStep::StatHelper => {
                if present {
                    self.go(MigrationStep::ValidateExistingHelper)
                } else {
                    self.go(MigrationStep::WriteInstalling)
                }
            },
            MigrationStep::StatBackup => {
                if present {
                    self.go(MigrationStep::RestorePlistAfterPreparation)
                } else if removing {
                    self.go(MigrationStep::StatHelperWithoutBackup)
                } else {
                    self.go(MigrationStep::CleanUpPreparation)
                }
            },
            MigrationStep::StatHelperWithoutBackup => {
                if present {
                    refuse("CRITICAL: helper exists without a migration plist backup")
                } else {
                    self.go(MigrationStep::StatRemovedHelper)
                }
            },
            MigrationStep::StatRemovedHelper => {
                if present {
                    self.go(MigrationStep::ValidateRemovedHelper)
                } else {
                    self.helper_gone()
                }
            },
            _ => {
                if present {
                    let mut text: String = "Protected path already exists: ".to_owned();
                    text.append(self.quarantine.as_str());
                    self.rollback_failed(text.as_str())
                } else {
                    self.go(MigrationStep::QuarantineHelper)
                }
            },
        }
    }

    fn after_answer(&mut self, yes: bool) -> (r: MigrationNext)
        ensures
            agrees(*final(self), r, after_answer(old(self).purpose@, old(self).step, yes)),
            final(self).quarantine == old(self).quarantine,
    {
        match self.step {
            MigrationStep::CompareHelper => {
                if yes {
                    self.go(MigrationStep::RemoveStagedHelper)
                } else {
                    self.go(MigrationStep::CleanUpMismatch)
                }
            },
            MigrationStep::CheckReady => {
                if yes {
                    self.go(MigrationStep::WriteCommitted)
                } else {
                    self.roll_back("protected helper did not become ready".to_owned())
                }
            },
            MigrationStep::ReadOldProgram => self.go(MigrationStep::CheckOldReady(yes)),
            MigrationStep::CheckOldReady(_) => {
                if yes {
                    self.go(MigrationStep::WriteRolledBack)
                } else {
                    self.rollback_failed("Restored daemon did not become ready")
                }
            },
            _ => {
                if yes {
                    self.go(MigrationStep::ValidateKeptHelper)
                } else {
                    self.go(MigrationStep::StatRemovedHelper)
                }
            },
        }
    }

    fn recover_from(&mut self, phase: Option<MigrationPhase>) -> (r: MigrationNext)
        ensures
            agrees(*final(self), r, recover_from(phase)),
            final(self).quarantine == old(self).quarantine,
    {
        match phase {
            Some(MigrationPhase::Prepared) | Some(MigrationPhase::Bootstrapping) => {
                self.purpose = Purpose::Prepare;
                self.go(MigrationStep::ValidatePreparedState)
            },
            Some(MigrationPhase::Committed) => {
                self.purpose = Purpose::Prepare;
                self.go(MigrationStep::WriteCommitted)
            },
            Some(MigrationPhase::InstallingHelper) => {
                self.purpose = Purpose::UndoPreparation { remove_helper: true };
                self.go(MigrationStep::StatBackup)
            },
            Some(MigrationPhase::Preparing) | None => {
                self.purpose = Purpose::UndoPreparation { remove_helper: false };
                self.go(MigrationStep::StatBackup)
            },
            Some(_) => refuse("Helper migration recovery requires the migration finalizer"),
        }
    }

    fn complete_from(&mut self, phase: MigrationPhase) -> (r: MigrationNext)
        ensures
            agrees(*final(self), r, complete_from(phase)),
            final(self).quarantine == old(self).quarantine,
    {
        match phase {
            MigrationPhase::Preparing | MigrationPhase::InstallingHelper => refuse(
                "Privileged helper migration is not ready for launchd reload",
            ),
            MigrationPhase::Prepared => {
                self.purpose = Purpose::Complete;
                self.go(MigrationStep::WriteBootstrapping)
            },
            MigrationPhase::Bootstrapping => {
                self.purpose = Purpose::Complete;
                self.go(MigrationStep::ReloadDaemon)
            },
            MigrationPhase::RollingBack | MigrationPhase::RollbackFailed => {
                self.purpose = Purpose::RepeatRollBack;
                self.go(MigrationStep::WriteRollingBack)
            },
            MigrationPhase::RolledBack => {
                self.purpose = Purpose::FinishRollBack;
                self.go(MigrationStep::ValidateRolledBackState)
            },
            MigrationPhase::Committed => {
                self.purpose = Purpose::Complete;
                self.go(MigrationStep::WriteCommitted)
            },
        }
    }

    fn after_phase(&mut self, phase: MigrationPhase) -> (r: MigrationNext)
        ensures
            agrees(*final(self), r, after_phase(old(self).purpose@, old(self).step, phase)),
            final(self).quarantine == old(self).quarantine,
    {
        match self.step {
            MigrationStep::ReadOptionalPhase => self.recover_from(Some(phase)),
            MigrationStep::ReadPhase => {
                if phase == MigrationPhase::RolledBack {
                    self.complete_from(phase)
                } else {
                    self.go(MigrationStep::ValidatePendingHelper(phase))
                }
            },
            _ => {
                if phase == MigrationPhase::RolledBack {
                    self.go(MigrationStep::ReadRolledBackProgram)
                } else {
                    self.rollback_failed(
                        "Privileged helper rollback has not reached a verified state",
                    )
                }
            },
        }
    }

    fn after_work(&mut self) -> (r: MigrationNext)
        ensures
            agrees(*final(self), r, after_work(old(self).purpose@, old(self).step)),
            final(self).quarantine == old(self).quarantine,
    {
        let removing = matches!(&self.purpose, Purpose::UndoPreparation { remove_helper: true });
        match self.step {
            MigrationStep::CreateTools => self.go(MigrationStep::ValidateToolsAncestors),
            MigrationStep::ValidateToolsAncestors => self.go(MigrationStep::ValidateTools),
            MigrationStep::ValidateTools => self.go(MigrationStep::StatState),
            MigrationStep::CreateState => self.go(MigrationStep::ValidateDaemonPlist),
            MigrationStep::ValidateDaemonPlist => self.go(MigrationStep::BackUpPlist),
            MigrationStep::BackUpPlist => self.go(MigrationStep::WriteExpectedPlist),
            MigrationStep::WriteExpectedPlist => self.go(MigrationStep::WritePreparing),
            MigrationStep::WritePreparing => self.go(MigrationStep::CreateStagedHelper),
            MigrationStep::CreateStagedHelper => self.go(MigrationStep::StatHelper),
            MigrationStep::ValidateExistingHelper => self.go(MigrationStep::CompareHelper),
            MigrationStep::RemoveStagedHelper => self.go(MigrationStep::ValidateHelperBeforePlist),
            MigrationStep::WriteInstalling => self.go(MigrationStep::InstallHelper),
            MigrationStep::InstallHelper => self.go(MigrationStep::ValidateInstalledHelper),
            MigrationStep::ValidateInstalledHelper => self.go(MigrationStep::WritePreparingAgain),
            MigrationStep::WritePreparingAgain => self.go(MigrationStep::ValidateHelperBeforePlist),
            MigrationStep::ValidateHelperBeforePlist => self.go(MigrationStep::WriteDaemonPlist),
            MigrationStep::WriteDaemonPlist => self.go(MigrationStep::WritePrepared),
            MigrationStep::CleanUpMismatch => refuse(
                "Existing protected helper does not match migration source",
            ),
            MigrationStep::ValidateStateDirectory => self.go(MigrationStep::ReadOptionalPhase),
            MigrationStep::ValidatePreparedState => self.go(MigrationStep::ValidatePreparedHelper),
            MigrationStep::RestorePlistAfterPreparation => {
                if removing {
                    self.go(MigrationStep::StatRemovedHelper)
                } else {
                    self.go(MigrationStep::CleanUpPreparation)
                }
            },
            MigrationStep::CleanUpPreparation => refuse(
                "Interrupted helper preparation was rolled back; retry migration",
            ),
            MigrationStep::ValidateState => self.go(MigrationStep::ReadPhase),
            MigrationStep::ValidatePendingHelper(phase) => self.complete_from(phase),
            MigrationStep::WriteBootstrapping => self.go(MigrationStep::ReloadDaemon),
            MigrationStep::ReloadDaemon => self.go(MigrationStep::CheckReady),
            MigrationStep::WriteRollingBack => self.go(MigrationStep::RestorePlist),
            MigrationStep::RestorePlist => {
                let abandoning = matches!(&self.purpose, Purpose::AbandonPlistWrite { .. });
                if abandoning {
                    self.go(MigrationStep::WriteRolledBack)
                } else {
                    self.go(MigrationStep::ReloadOldDaemon)
                }
            },
            MigrationStep::ReloadOldDaemon => self.go(MigrationStep::ReadOldProgram),
            MigrationStep::WriteRolledBack => self.go(MigrationStep::ValidateRolledBackState),
            MigrationStep::WriteRollbackFailed => {
                let mut text: String = "CRITICAL: protected helper activation failed (".to_owned();
                let reason = self.reason();
                text.append(reason.as_str());
                text.append("); state persistence: Ok(())");
                MigrationNext::Refused { error: text }
            },
            MigrationStep::ValidateRolledBackState => self.go(MigrationStep::ReadRolledBackPhase),
            MigrationStep::ValidateKeptHelper => self.go(MigrationStep::CleanUpRollback),
            MigrationStep::ValidateRemovedHelper => self.go(MigrationStep::DeleteHelper),
            MigrationStep::DeleteHelper => self.helper_gone(),
            MigrationStep::ValidateQuarantineState => self.go(MigrationStep::StatQuarantine),
            MigrationStep::QuarantineHelper => self.helper_gone(),
            MigrationStep::CleanUpRollback => {
                match clone_purpose(&self.purpose) {
                    Purpose::RollBack { reason } => {
                        let mut text: String =
                            "Protected helper activation failed; old daemon restored: ".to_owned();
                        text.append(reason.as_str());
                        MigrationNext::Refused { error: text }
                    },
                    Purpose::RepeatRollBack => refuse(
                        "Recovered a previously failed privileged helper rollback",
                    ),
                    Purpose::AbandonPlistWrite { error } => MigrationNext::Refused { error },
                    _ => MigrationNext::Finished,
                }
            },
            MigrationStep::WriteCommitted => self.go(MigrationStep::CleanUpCommit),
            _ => MigrationNext::Finished,
        }
    }

    /// Takes what came of the last step and says what comes next.
    pub fn resume(&mut self, outcome: Outcome) -> (r: MigrationNext)
        requires
            can_have(old(self).step, outcome),
        ensures
            agrees(
                *final(self),
                r,
                leads_to(old(self).purpose@, old(self).step, outcome, old(self).quarantine@),
            ),
            final(self).quarantine == old(self).quarantine,
    {
        match outcome {
            Outcome::Done => self.after_work(),
            Outcome::Present => self.after_look(true),
            Outcome::Absent => {
                let optional_phase = matches!(self.step, MigrationStep::ReadOptionalPhase);
                if optional_phase {
                    self.recover_from(None)
                } else {
                    self.after_look(false)
                }
            },
            Outcome::Answer(yes) => self.after_answer(yes),
            Outcome::Phase(phase) => self.after_phase(phase),
            Outcome::Failed { error } => self.after_failure(error),
        }
    }
}

/// How far a step is from the end of a move.
pub open spec fn distance(step: MigrationStep) -> nat {
    match step {
        MigrationStep::StatTools => 100,
        MigrationStep::CreateTools => 99,
        MigrationStep::ValidateToolsAncestors => 98,
        MigrationStep::ValidateTools => 97,
        MigrationStep::StatState => 96,
        MigrationStep::CreateState => 95,
        MigrationStep::ValidateDaemonPlist => 94,
        MigrationStep::BackUpPlist => 93,
        MigrationStep::WriteExpectedPlist => 92,
        MigrationStep::WritePreparing => 91,
        MigrationStep::CreateStagedHelper => 90,
        MigrationStep::StatHelper => 89,
        MigrationStep::ValidateExistingHelper => 88,
        MigrationStep::CompareHelper => 87,
        MigrationStep::RemoveStagedHelper => 86,
        MigrationStep::CleanUpMismatch => 86,
        MigrationStep::WriteInstalling => 88,
        MigrationStep::InstallHelper => 87,
        MigrationStep::ValidateInstalledHelper => 86,
        MigrationStep::WritePreparingAgain => 85,
        MigrationStep::ValidateHelperBeforePlist => 84,
        MigrationStep::WriteDaemonPlist => 83,
        MigrationStep::WritePrepared => 82,
        MigrationStep::ValidateStateDirectory => 95,
        MigrationStep::ReadOptionalPhase => 94,
        MigrationStep::ValidatePreparedState => 60,
        MigrationStep::ValidatePreparedHelper => 59,
        MigrationStep::StatBackup => 60,
        MigrationStep::StatHelperWithoutBackup => 59,
        MigrationStep::RestorePlistAfterPreparation => 59,
        MigrationStep::ValidateState => 80,
        MigrationStep::ReadPhase => 79,
        MigrationStep::ValidatePendingHelper(_) => 78,
        MigrationStep::WriteBootstrapping => 77,
        MigrationStep::ReloadDaemon => 76,
        MigrationStep::CheckReady => 75,
        MigrationStep::WriteRollingBack => 50,
        MigrationStep::RestorePlist => 49,
        MigrationStep::ReloadOldDaemon => 48,
        MigrationStep::ReadOldProgram => 47,
        MigrationStep::CheckOldReady(_) => 46,
        MigrationStep::WriteRolledBack => 45,
        MigrationStep::ValidateRolledBackState => 30,
        MigrationStep::ReadRolledBackPhase => 29,
        MigrationStep::ReadRolledBackProgram => 28,
        MigrationStep::ValidateKeptHelper => 27,
        MigrationStep::StatRemovedHelper => 20,
        MigrationStep::ValidateRemovedHelper => 19,
        MigrationStep::DeleteHelper => 18,
        MigrationStep::ValidateQuarantineState => 18,
        MigrationStep::StatQuarantine => 17,
        MigrationStep::QuarantineHelper => 16,
        MigrationStep::CleanUpPreparation => 10,
        MigrationStep::CleanUpRollback => 10,
        MigrationStep::WriteCommitted => 5,
        MigrationStep::CleanUpCommit => 4,
        MigrationStep::WriteRollbackFailed => 1,
    }
}

/// Every move ends, whatever comes of its steps: each one is nearer to the end
/// than the one before.
pub proof fn law_moves_end(
    purpose: PurposeView,
    step: MigrationStep,
    outcome: Outcome,
    quarantine: Seq<char>,
)
    requires
        can_have(step, outcome),
    ensures
        leads_to(purpose, step, outcome, quarantine) matches NextView::Go(_, next) ==> distance(
            next,
        ) < distance(step),
{
}

/// That the old daemon is to come back is on the disk before its settings are put
/// back.
pub proof fn law_rollback_is_recorded_before_settings_return(
    purpose: PurposeView,
    step: MigrationStep,
    outcome: Outcome,
    quarantine: Seq<char>,
)
    requires
        can_have(step, outcome),
        leads_to(purpose, step, outcome, quarantine) matches NextView::Go(
            _,
            MigrationStep::RestorePlist,
        ),
    ensures
        step == MigrationStep::WriteRollingBack,
        outcome is Done,
{
}

/// A move is called complete only after the helper has shown that it is ready, or
/// because it was called complete before.
pub proof fn law_commit_needs_a_ready_helper(
    purpose: PurposeView,
    step: MigrationStep,
    outcome: Outcome,
    quarantine: Seq<char>,
)
    requires
        can_have(step, outcome),
        leads_to(purpose, step, outcome, quarantine) matches NextView::Go(
            _,
            MigrationStep::WriteCommitted,
        ),
    ensures
        ({
            ||| step == MigrationStep::CheckReady && outcome == Outcome::Answer(true)
            ||| step == MigrationStep::ReadOptionalPhase && outcome == Outcome::Phase(
                MigrationPhase::Committed,
            )
            ||| step == MigrationStep::ValidatePendingHelper(MigrationPhase::Committed)
        }),
{
}

/// The daemon gets its new settings only after the old ones are backed up, the
/// new ones are on the disk, and the helper in place has been found acceptable;
/// and the preparation is called done only after that.
pub proof fn law_new_settings_come_last(
    purpose: PurposeView,
    step: MigrationStep,
    outcome: Outcome,
    quarantine: Seq<char>,
    next: MigrationStep,
)
    requires
        can_have(step, outcome),
        leads_to(purpose, step, outcome, quarantine) matches NextView::Go(_, n) && n == next,
    ensures
        next == MigrationStep::WriteExpectedPlist ==> step == MigrationStep::BackUpPlist
            && outcome is Done,
        next == MigrationStep::WritePreparing ==> step == MigrationStep::WriteExpectedPlist
            && outcome is Done,
        next == MigrationStep::CreateStagedHelper ==> step == MigrationStep::WritePreparing
            && outcome is Done,
        next == MigrationStep::WriteDaemonPlist ==> step
            == MigrationStep::ValidateHelperBeforePlist && outcome is Done,
        next == MigrationStep::WritePrepared ==> step == MigrationStep::WriteDaemonPlist
            && outcome is Done,
{
}

/// A helper is taken away only when the old settings are back and do not start it,
/// or when it was not in use yet.
pub proof fn law_helper_in_use_is_kept(
    purpose: PurposeView,
    step: MigrationStep,
    outcome: Outcome,
    quarantine: Seq<char>,
)
    requires
        can_have(step, outcome),
        leads_to(purpose, step, outcome, quarantine) matches NextView::Go(
            _,
            MigrationStep::StatRemovedHelper,
        ),
    ensures
        ({
            ||| step == MigrationStep::ReadRolledBackProgram && outcome == Outcome::Answer(false)
            ||| step == MigrationStep::RestorePlistAfterPreparation && outcome is Done
            ||| step == MigrationStep::StatHelperWithoutBackup && outcome is Absent
        }),
{
}

/// A move ends well only with a prepared, a completed or a fully undone
/// installation.
pub proof fn law_good_ends(
    purpose: PurposeView,
    step: MigrationStep,
    outcome: Outcome,
    quarantine: Seq<char>,
)
    requires
        can_have(step, outcome),
        leads_to(purpose, step, outcome, quarantine) is Finished,
    ensures
        ({
            ||| step == MigrationStep::WritePrepared && outcome is Done
            ||| step == MigrationStep::ValidatePreparedHelper && outcome is Done
            ||| step == MigrationStep::CleanUpCommit
            ||| step == MigrationStep::CleanUpRollback && outcome is Done
        }),
{
}

/// What must have come of which step before each step is taken. Nothing is created
/// that is there, nothing is installed unchecked, and each record on the disk stands
/// before the work that it announces.
pub proof fn law_what_comes_before_each_step(
    purpose: PurposeView,
    step: MigrationStep,
    outcome: Outcome,
    quarantine: Seq<char>,
    next: MigrationStep,
)
    requires
        can_have(step, outcome),
        leads_to(purpose, step, outcome, quarantine) matches NextView::Go(_, n) && n == next,
    ensures
        ({
            let done = outcome is Done;
            let removing = purpose == (PurposeView::UndoPreparation { remove_helper: true });
            let gone = (step is StatRemovedHelper && outcome is Absent) || ((step is DeleteHelper
                || step is QuarantineHelper) && done);
            match next {
                MigrationStep::StatTools => false,
                MigrationStep::CreateTools => step is StatTools && outcome is Absent,
                MigrationStep::ValidateToolsAncestors => (step is StatTools && outcome is Present)
                    || (step is CreateTools && done),
                MigrationStep::ValidateTools => step is ValidateToolsAncestors && done,
                MigrationStep::StatState => step is ValidateTools && done,
                MigrationStep::CreateState => step is StatState && outcome is Absent,
                MigrationStep::ValidateStateDirectory => step is StatState && outcome is Present,
                MigrationStep::ReadOptionalPhase => step is ValidateStateDirectory && done,
                MigrationStep::ValidateDaemonPlist => step is CreateState && done,
                MigrationStep::BackUpPlist => step is ValidateDaemonPlist && done,
                MigrationStep::WriteExpectedPlist => step is BackUpPlist && done,
                MigrationStep::WritePreparing => step is WriteExpectedPlist && done,
                MigrationStep::CreateStagedHelper => step is WritePreparing && done,
                MigrationStep::StatHelper => step is CreateStagedHelper && done,
                MigrationStep::ValidateExistingHelper => step is StatHelper && outcome is Present,
                MigrationStep::CompareHelper => step is ValidateExistingHelper && done,
                MigrationStep::RemoveStagedHelper => step is CompareHelper && outcome
                    == Outcome::Answer(true),
                MigrationStep::CleanUpMismatch => step is CompareHelper && outcome
                    == Outcome::Answer(false),
                MigrationStep::WriteInstalling => step is StatHelper && outcome is Absent,
                MigrationStep::InstallHelper => step is WriteInstalling && done,
                MigrationStep::ValidateInstalledHelper => step is InstallHelper && done,
                MigrationStep::WritePreparingAgain => step is ValidateInstalledHelper && done,
                MigrationStep::ValidateHelperBeforePlist => (step is RemoveStagedHelper || step
                    is WritePreparingAgain) && done,
                MigrationStep::WriteDaemonPlist => step is ValidateHelperBeforePlist && done,
                MigrationStep::WritePrepared => step is WriteDaemonPlist && done,
                MigrationStep::ValidatePreparedState => step is ReadOptionalPhase && (outcome
                    == Outcome::Phase(MigrationPhase::Prepared) || outcome == Outcome::Phase(
                    MigrationPhase::Bootstrapping,
                )),
                MigrationStep::ValidatePreparedHelper => step is ValidatePreparedState && done,
                MigrationStep::StatBackup => step is ReadOptionalPhase && (outcome is Absent
                    || outcome == Outcome::Phase(MigrationPhase::Preparing) || outcome
                    == Outcome::Phase(MigrationPhase::InstallingHelper)),
                MigrationStep::RestorePlistAfterPreparation => step is StatBackup && outcome
                    is Present,
                MigrationStep::StatHelperWithoutBackup => step is StatBackup && outcome is Absent
                    && removing,
                MigrationStep::CleanUpPreparation => (step is StatBackup && outcome is Absent
                    && !removing) || (step is RestorePlistAfterPreparation && done && !removing) || (
                gone && purpose is UndoPreparation),
                MigrationStep::ValidateState => false,
                MigrationStep::ReadPhase => step is ValidateState && done,
                MigrationStep::ValidatePendingHelper(phase) => step is ReadPhase && outcome
                    == Outcome::Phase(phase) && phase != MigrationPhase::RolledBack,
                MigrationStep::WriteBootstrapping => step == MigrationStep::ValidatePendingHelper(
                    MigrationPhase::Prepared,
                ) && done,
                MigrationStep::ReloadDaemon => (step is WriteBootstrapping || step
                    == MigrationStep::ValidatePendingHelper(MigrationPhase::Bootstrapping)) && done,
                MigrationStep::CheckReady => step is ReloadDaemon && done,
                MigrationStep::WriteRollingBack => {
                    ||| step is StatState && outcome is Present && purpose is AbandonPlistWrite
                    ||| step is ReloadDaemon && outcome is Failed
                    ||| step is CheckReady && (outcome is Failed || outcome == Outcome::Answer(
                        false,
                    ))
                    ||| (step == MigrationStep::ValidatePendingHelper(MigrationPhase::RollingBack)
                        || step == MigrationStep::ValidatePendingHelper(
                        MigrationPhase::RollbackFailed,
                    )) && done
                },
                MigrationStep::RestorePlist => step is WriteRollingBack && done,
                MigrationStep::ReloadOldDaemon => step is RestorePlist && done && !(purpose
                    is AbandonPlistWrite),
                MigrationStep::ReadOldProgram => step is ReloadOldDaemon && done,
                MigrationStep::CheckOldReady(protected) => step is ReadOldProgram && outcome
                    == Outcome::Answer(protected),
                MigrationStep::WriteRolledBack => (step is CheckOldReady && outcome
                    == Outcome::Answer(true)) || (step is RestorePlist && done && purpose
                    is AbandonPlistWrite),
                MigrationStep::ValidateRolledBackState => {
                    ||| step is WriteRolledBack && done
                    ||| step is ReadPhase && outcome == Outcome::Phase(MigrationPhase::RolledBack)
                    ||| step == MigrationStep::ValidatePendingHelper(MigrationPhase::RolledBack)
                        && done
                },
                MigrationStep::ReadRolledBackPhase => step is ValidateRolledBackState && done,
                MigrationStep::ReadRolledBackProgram => step is ReadRolledBackPhase && outcome
                    == Outcome::Phase(MigrationPhase::RolledBack),
                MigrationStep::ValidateKeptHelper => step is ReadRolledBackProgram && outcome
                    == Outcome::Answer(true),
                MigrationStep::StatRemovedHelper => {
                    ||| step is ReadRolledBackProgram && outcome == Outcome::Answer(false)
                    ||| step is RestorePlistAfterPreparation && done && removing
                    ||| step is StatHelperWithoutBackup && outcome is Absent
                },
                MigrationStep::ValidateRemovedHelper => step is StatRemovedHelper && outcome
                    is Present,
                MigrationStep::DeleteHelper => step is ValidateRemovedHelper && done,
                MigrationStep::ValidateQuarantineState => step is ValidateRemovedHelper && outcome
                    is Failed,
                MigrationStep::StatQuarantine => step is ValidateQuarantineState && done,
                MigrationStep::QuarantineHelper => step is StatQuarantine && outcome is Absent,
                MigrationStep::CleanUpRollback => (step is ValidateKeptHelper && done) || (gone
                    && !(purpose is UndoPreparation)),
                MigrationStep::WriteCommitted => {
                    ||| step is CheckReady && outcome == Outcome::Answer(true)
                    ||| step is ReadOptionalPhase && outcome == Outcome::Phase(
                        MigrationPhase::Committed,
                    )
                    ||| step == MigrationStep::ValidatePendingHelper(MigrationPhase::Committed)
                        && done
                },
                MigrationStep::CleanUpCommit => step is WriteCommitted && done,
                MigrationStep::WriteRollbackFailed => purpose is RollBack && distance(step) <= 50
                    && !(step is WriteRollbackFailed) && !(outcome is Done),
            }
        }),
{
}

/// A move goes on for the reason for which it was begun. Only what is found on the disk
/// and a daemon that does not come up change it, and a return that fails keeps the
/// reason of the return.
pub proof fn law_purposes_change_for_a_reason(
    purpose: PurposeView,
    step: MigrationStep,
    outcome: Outcome,
    quarantine: Seq<char>,
    after: PurposeView,
)
    requires
        can_have(step, outcome),
        leads_to(purpose, step, outcome, quarantine) matches NextView::Go(p, _) && p == after,
    ensures
        match step {
            MigrationStep::ReloadDaemon => if outcome is Failed {
                after == (PurposeView::RollBack { reason: outcome->error@ })
            } else {
                after == purpose
            },
            MigrationStep::CheckReady => match outcome {
                Outcome::Failed { error } => after == (PurposeView::RollBack { reason: error@ }),
                Outcome::Answer(false) => after == (PurposeView::RollBack {
                    reason: "protected helper did not become ready"@,
                }),
                _ => after == purpose,
            },
            MigrationStep::ReadOptionalPhase => match outcome {
                Outcome::Phase(MigrationPhase::InstallingHelper) => after == (
                PurposeView::UndoPreparation { remove_helper: true }),
                Outcome::Phase(MigrationPhase::Preparing) | Outcome::Absent => after == (
                PurposeView::UndoPreparation { remove_helper: false }),
                _ => after is Prepare,
            },
            MigrationStep::ValidatePendingHelper(phase) => match phase {
                MigrationPhase::RollingBack | MigrationPhase::RollbackFailed => after
                    is RepeatRollBack,
                MigrationPhase::RolledBack => after is FinishRollBack,
                _ => after is Complete,
            },
            MigrationStep::ReadPhase => if outcome == Outcome::Phase(MigrationPhase::RolledBack) {
                after is FinishRollBack
            } else {
                after == purpose
            },
            _ => after == purpose || (purpose matches PurposeView::RollBack { reason } && (after
                matches PurposeView::RollBack { reason: longer } && reason.is_prefix_of(longer))),
        },
{
    if let PurposeView::RollBack { reason } = purpose {
        if let PurposeView::RollBack { reason: longer } = after {
            if after != purpose && !(step is ReloadDaemon) && !(step is CheckReady) {
                assert(longer.subrange(0, reason.len() as int) =~= reason);
            }
        }
    }
}

/// A step that fails ends a preparation or a completion with its own error, unless a
/// return to the old daemon is due, another way is left, or all is done already.
pub proof fn law_failures_are_told(
    purpose: PurposeView,
    step: MigrationStep,
    error: String,
    quarantine: Seq<char>,
)
    requires
        purpose is Prepare || purpose is UndoPreparation || purpose is Complete,
        !(step is ReloadDaemon) && !(step is CheckReady) && !(step is ValidateRemovedHelper) && !(
        step is CleanUpCommit) && !(step is CleanUpMismatch) && !(step is WriteRollbackFailed),
    ensures
        leads_to(purpose, step, Outcome::Failed { error }, quarantine) == NextView::Refused(error@),
{
}

/// A return to the old daemon that fails is recorded with both reasons, and told with
/// them; one that succeeds tells why it was made.
pub proof fn law_returns_tell_their_reasons(
    reason: Seq<char>,
    step: MigrationStep,
    error: String,
    quarantine: Seq<char>,
)
    requires
        step is WriteRollingBack || step is RestorePlist || step is ReloadOldDaemon || step
            is ReadOldProgram || step is CheckOldReady || step is WriteRolledBack || step
            is ValidateRolledBackState || step is ReadRolledBackPhase || step
            is ReadRolledBackProgram || step is ValidateKeptHelper || step is StatRemovedHelper
            || step is DeleteHelper || step is ValidateQuarantineState || step is StatQuarantine
            || step is QuarantineHelper || step is CleanUpRollback,
    ensures
        ({
            let failed = leads_to(
                PurposeView::RollBack { reason },
                step,
                Outcome::Failed { error },
                quarantine,
            );
            let both = PurposeView::RollBack { reason: reason + "); rollback failed ("@ + error@ };
            &&& failed == NextView::Go(both, MigrationStep::WriteRollbackFailed)
            &&& leads_to(both, MigrationStep::WriteRollbackFailed, Outcome::Done, quarantine)
                == NextView::Refused(
                "CRITICAL: protected helper activation failed ("@ + (reason
                    + "); rollback failed ("@ + error@) + "); state persistence: Ok(())"@,
            )
        }),
        leads_to(
            PurposeView::RollBack { reason },
            MigrationStep::CleanUpRollback,
            Outcome::Done,
            quarantine,
        ) == NextView::Refused(
            "Protected helper activation failed; old daemon restored: "@ + reason,
        ),
        leads_to(PurposeView::FinishRollBack, step, Outcome::Failed { error }, quarantine)
            == NextView::Refused(error@),
        leads_to(
            PurposeView::FinishRollBack,
            MigrationStep::CleanUpRollback,
            Outcome::Done,
            quarantine,
        ) is Finished,
{
}

/// When a move is refused without a step that failed: where another has to finish it,
/// where an old helper differs or has no backup, and where a preparation or a daemon
/// was taken back.
pub proof fn law_refusals_without_a_failure(
    purpose: PurposeView,
    step: MigrationStep,
    outcome: Outcome,
    quarantine: Seq<char>,
)
    requires
        can_have(step, outcome),
        leads_to(purpose, step, outcome, quarantine) is Refused,
        !(outcome is Failed),
    ensures
        ({
            ||| step is StatState && outcome is Absent && purpose is AbandonPlistWrite
            ||| step is StatHelperWithoutBackup && outcome is Present
            ||| step is StatQuarantine && outcome is Present && !(purpose is RollBack)
            ||| step is CheckOldReady && outcome == Outcome::Answer(false) && !(purpose is RollBack)
            ||| step is CleanUpMismatch
            ||| step is CleanUpPreparation
            ||| step is WriteRollbackFailed
            ||| step is CleanUpRollback && (purpose is RollBack || purpose is RepeatRollBack
                || purpose is AbandonPlistWrite)
            ||| step is ReadOptionalPhase && (outcome == Outcome::Phase(MigrationPhase::RollingBack)
                || outcome == Outcome::Phase(MigrationPhase::RolledBack) || outcome
                == Outcome::Phase(MigrationPhase::RollbackFailed))
            ||| step == MigrationStep::ValidatePendingHelper(MigrationPhase::Preparing)
            ||| step == MigrationStep::ValidatePendingHelper(MigrationPhase::InstallingHelper)
            ||| step is ReadRolledBackPhase && outcome != Outcome::Phase(MigrationPhase::RolledBack)
                && !(purpose is RollBack)
        }),
{
}

/// A preparation that was abandoned because the settings could not be written ends in
/// the error of that writing, and in both errors where undoing it fails too.
pub proof fn law_abandoned_preparations_keep_the_error(
    operation: Seq<char>,
    step: MigrationStep,
    error: String,
    quarantine: Seq<char>,
)
    requires
        step is WriteRollingBack || step is RestorePlist || step is WriteRolledBack || step
            is DeleteHelper || step is CleanUpRollback,
    ensures
        ({
            let purpose = PurposeView::AbandonPlistWrite { error: operation };
            &&& leads_to(purpose, MigrationStep::StatState, Outcome::Absent, quarantine)
                == NextView::Refused(operation)
            &&& leads_to(purpose, MigrationStep::CleanUpRollback, Outcome::Done, quarantine)
                == NextView::Refused(operation)
            &&& leads_to(purpose, step, Outcome::Failed { error }, quarantine) == NextView::Refused(
                "plist write failed ("@ + operation + "); migration rollback failed ("@ + error@
                    + ")"@,
            )
        }),
{
}

/// What agrees with a step has that step and its purpose and tells it; an end and a refusal
/// are told as what they are, a refusal with its error.
pub proof fn law_what_is_told_is_done(
    after: HelperMigration,
    told: MigrationNext,
    expected: NextView,
)
    requires
        agrees(after, told, expected),
    ensures
        told matches MigrationNext::Step(step) ==> after.step == step && expected == NextView::Go(
            after.purpose@,
            step,
        ),
        told is Finished <==> expected is Finished,
        told is Refused <==> expected is Refused,
        told matches MigrationNext::Refused { error } ==> expected == NextView::Refused(error@),
{
}

} // verus!
