//! Whole moves of an installation to the helper: what the steps leave on the disk
//! when they are done, and what stands there when a move is over.
use crate::helper::migration::{MigrationPhase, MigrationStep, NextView, Outcome, PurposeView};
use vstd::prelude::*;

verus! {

/// What is kept in the state of a move.
pub struct MoveState {
    /// The settings that the daemon had before.
    pub backup: Option<Seq<u8>>,
    /// The settings that the daemon will have.
    pub expected: Option<Seq<u8>>,
    pub phase: Option<MigrationPhase>,
    /// A helper that is not in its place yet.
    pub staged: bool,
}

/// What a move finds and changes.
pub struct Installation {
    /// The settings of the daemon.
    pub daemon_plist: Seq<u8>,
    /// The state directory, while there is one.
    pub state: Option<MoveState>,
    /// The helper is in its place.
    pub helper: bool,
    /// The job and the settings file of each reload, whether it succeeded or not.
    pub reloads: Seq<(Seq<char>, Seq<char>)>,
}

/// What a move is made with.
pub struct Plan {
    /// The settings that the daemon gets.
    pub new_plist: Seq<u8>,
    /// The job and the settings file that the daemon is reloaded by, as
    /// `MigrationPaths::reload_target` gives them.
    pub reload: (Seq<char>, Seq<char>),
    /// The path that an unusable helper is moved to.
    pub quarantine: Seq<char>,
    /// Whether settings start the helper.
    pub starts_helper: spec_fn(Seq<u8>) -> bool,
}

impl Installation {
    pub open spec fn in_phase(self, phase: MigrationPhase) -> Installation {
        match self.state {
            Some(state) => Installation {
                state: Some(MoveState { phase: Some(phase), ..state }),
                ..self
            },
            None => self,
        }
    }

    pub open spec fn restored(self) -> Installation {
        match self.state {
            Some(MoveState { backup: Some(old), .. }) => Installation { daemon_plist: old, ..self },
            _ => self,
        }
    }

    pub open spec fn without_state(self) -> Installation {
        Installation { state: None, ..self }
    }

    pub open spec fn phase(self) -> Option<MigrationPhase> {
        match self.state {
            Some(state) => state.phase,
            None => None,
        }
    }

    pub open spec fn backup(self) -> Option<Seq<u8>> {
        match self.state {
            Some(state) => state.backup,
            None => None,
        }
    }
}

/// The installation after a step that is done. Steps that check or look change
/// nothing.
pub open spec fn done(plan: Plan, before: Installation, step: MigrationStep) -> Installation {
    match step {
        MigrationStep::CreateState => Installation {
            state: Some(MoveState { backup: None, expected: None, phase: None, staged: false }),
            ..before
        },
        MigrationStep::BackUpPlist => match before.state {
            Some(state) => Installation {
                state: Some(MoveState { backup: Some(before.daemon_plist), ..state }),
                ..before
            },
            None => before,
        },
        MigrationStep::WriteExpectedPlist => match before.state {
            Some(state) => Installation {
                state: Some(MoveState { expected: Some(plan.new_plist), ..state }),
                ..before
            },
            None => before,
        },
        MigrationStep::CreateStagedHelper => match before.state {
            Some(state) => Installation {
                state: Some(MoveState { staged: true, ..state }),
                ..before
            },
            None => before,
        },
        MigrationStep::RemoveStagedHelper => match before.state {
            Some(state) => Installation {
                state: Some(MoveState { staged: false, ..state }),
                ..before
            },
            None => before,
        },
        MigrationStep::InstallHelper => match before.state {
            Some(state) => Installation {
                state: Some(MoveState { staged: false, ..state }),
                helper: true,
                ..before
            },
            None => before,
        },
        MigrationStep::WriteDaemonPlist => Installation { daemon_plist: plan.new_plist, ..before },
        MigrationStep::WritePreparing | MigrationStep::WritePreparingAgain => before.in_phase(
            MigrationPhase::Preparing,
        ),
        MigrationStep::WriteInstalling => before.in_phase(MigrationPhase::InstallingHelper),
        MigrationStep::WritePrepared => before.in_phase(MigrationPhase::Prepared),
        MigrationStep::WriteBootstrapping => before.in_phase(MigrationPhase::Bootstrapping),
        MigrationStep::WriteRollingBack => before.in_phase(MigrationPhase::RollingBack),
        MigrationStep::WriteRolledBack => before.in_phase(MigrationPhase::RolledBack),
        MigrationStep::WriteRollbackFailed => before.in_phase(MigrationPhase::RollbackFailed),
        MigrationStep::WriteCommitted => before.in_phase(MigrationPhase::Committed),
        MigrationStep::RestorePlist | MigrationStep::RestorePlistAfterPreparation => {
            before.restored()
        },
        MigrationStep::DeleteHelper | MigrationStep::QuarantineHelper => Installation {
            helper: false,
            ..before
        },
        MigrationStep::CleanUpMismatch | MigrationStep::CleanUpPreparation
        | MigrationStep::CleanUpRollback | MigrationStep::CleanUpCommit => before.without_state(),
        _ => before,
    }
}

/// Whether a step reloads the daemon.
pub open spec fn reloads(step: MigrationStep) -> bool {
    step is ReloadDaemon || step is ReloadOldDaemon
}

/// The installation after what came of a step. A reload is counted however it went;
/// any other step that failed has changed nothing.
pub open spec fn worked(
    plan: Plan,
    before: Installation,
    step: MigrationStep,
    outcome: Outcome,
) -> Installation {
    if reloads(step) {
        Installation { reloads: before.reloads.push(plan.reload), ..before }
    } else if outcome is Done {
        done(plan, before, step)
    } else {
        before
    }
}

/// What a step reports is how the installation is, as far as it reports at all.
pub open spec fn truthful(
    plan: Plan,
    found: Installation,
    step: MigrationStep,
    outcome: Outcome,
) -> bool {
    match step {
        MigrationStep::StatState => match outcome {
            Outcome::Present => found.state is Some,
            Outcome::Absent => found.state is None,
            _ => true,
        },
        MigrationStep::StatHelper | MigrationStep::StatHelperWithoutBackup
        | MigrationStep::StatRemovedHelper => match outcome {
            Outcome::Present => found.helper,
            Outcome::Absent => !found.helper,
            _ => true,
        },
        MigrationStep::StatBackup => match outcome {
            Outcome::Present => found.backup() is Some,
            Outcome::Absent => found.backup() is None,
            _ => true,
        },
        MigrationStep::ReadOptionalPhase | MigrationStep::ReadPhase
        | MigrationStep::ReadRolledBackPhase => match outcome {
            Outcome::Phase(phase) => found.phase() == Some(phase),
            Outcome::Absent => found.phase() is None,
            _ => true,
        },
        MigrationStep::ReadOldProgram | MigrationStep::ReadRolledBackProgram => match outcome {
            Outcome::Answer(yes) => found.backup() matches Some(old) && yes == (plan.starts_helper)(
                old,
            ),
            _ => true,
        },
        _ => true,
    }
}

/// What may come of the steps of a move.
pub enum Luck {
    /// Anything.
    Any,
    /// The first reload fails. Everything else succeeds, and the daemon is ready
    /// when it is waited for.
    FirstReloadFails,
    /// Everything succeeds, and the daemon is ready when it is waited for.
    AllWell,
}

/// Whether something can come of a step.
pub open spec fn can_come(
    plan: Plan,
    luck: Luck,
    found: Installation,
    step: MigrationStep,
    outcome: Outcome,
) -> bool {
    &&& crate::helper::migration::can_have(step, outcome)
    &&& truthful(plan, found, step, outcome)
    &&& luck is Any || if luck is FirstReloadFails && reloads(step) && found.reloads.len() == 0 {
        outcome is Failed
    } else {
        &&& !(outcome is Failed)
        &&& step is CheckReady || step is CheckOldReady ==> outcome == Outcome::Answer(true)
    }
}

/// Where a move is: what it does next or how it ended, and the installation.
pub struct Place {
    pub next: NextView,
    pub installation: Installation,
}

impl Place {
    pub open spec fn is_end(self) -> bool {
        !(self.next is Go)
    }
}

/// Where a move comes by what came of its steps, one behind the other. A move that
/// is over stays where it is.
pub open spec fn run(plan: Plan, start: Place, outcomes: Seq<Outcome>) -> Place
    decreases outcomes.len(),
{
    if outcomes.len() == 0 {
        start
    } else {
        let place = run(plan, start, outcomes.drop_last());
        match place.next {
            NextView::Go(purpose, step) => Place {
                next: crate::helper::migration::leads_to(
                    purpose,
                    step,
                    outcomes.last(),
                    plan.quarantine,
                ),
                installation: worked(plan, place.installation, step, outcomes.last()),
            },
            _ => place,
        }
    }
}

/// Whether all of it can come, one behind the other.
pub open spec fn can_all_come(plan: Plan, luck: Luck, start: Place, outcomes: Seq<Outcome>) -> bool
    decreases outcomes.len(),
{
    outcomes.len() == 0 || {
        let place = run(plan, start, outcomes.drop_last());
        &&& can_all_come(plan, luck, start, outcomes.drop_last())
        &&& place.next matches NextView::Go(_, step) ==> can_come(
            plan,
            luck,
            place.installation,
            step,
            outcomes.last(),
        )
    }
}

/// An installation with old settings, and with a helper or without one, on which no
/// move is under way.
pub open spec fn untouched(old: Seq<u8>, helper: bool) -> Installation {
    Installation { daemon_plist: old, state: None, helper, reloads: Seq::empty() }
}

/// An installation whose helper is in place and whose daemon was not switched yet.
pub open spec fn prepared(plan: Plan, old: Seq<u8>, phase: MigrationPhase) -> Installation {
    Installation {
        daemon_plist: plan.new_plist,
        state: Some(
            MoveState {
                backup: Some(old),
                expected: Some(plan.new_plist),
                phase: Some(phase),
                staged: false,
            },
        ),
        helper: true,
        reloads: Seq::empty(),
    }
}

/// Where a preparation begins.
pub open spec fn preparation(installation: Installation) -> Place {
    Place { next: NextView::Go(PurposeView::Prepare, MigrationStep::StatTools), installation }
}

/// Where a completion begins.
pub open spec fn completion(installation: Installation) -> Place {
    Place { next: NextView::Go(PurposeView::Complete, MigrationStep::ValidateState), installation }
}

/// What a preparation has done when it comes to a step.
spec fn preparing_at(plan: Plan, old: Seq<u8>, helper: bool, step: MigrationStep) -> Option<
    Installation,
> {
    let start = untouched(old, helper);
    let empty = done(plan, start, MigrationStep::CreateState);
    let backed_up = done(plan, empty, MigrationStep::BackUpPlist);
    let expecting = done(plan, backed_up, MigrationStep::WriteExpectedPlist);
    let preparing = done(plan, expecting, MigrationStep::WritePreparing);
    let staged = done(plan, preparing, MigrationStep::CreateStagedHelper);
    let installing = done(plan, staged, MigrationStep::WriteInstalling);
    let installed = done(plan, installing, MigrationStep::InstallHelper);
    let checked = if helper {
        done(plan, staged, MigrationStep::RemoveStagedHelper)
    } else {
        done(plan, installed, MigrationStep::WritePreparingAgain)
    };
    match step {
        MigrationStep::StatTools | MigrationStep::CreateTools
        | MigrationStep::ValidateToolsAncestors | MigrationStep::ValidateTools
        | MigrationStep::StatState | MigrationStep::CreateState => Some(start),
        MigrationStep::ValidateDaemonPlist | MigrationStep::BackUpPlist => Some(empty),
        MigrationStep::WriteExpectedPlist => Some(backed_up),
        MigrationStep::WritePreparing => Some(expecting),
        MigrationStep::CreateStagedHelper => Some(preparing),
        MigrationStep::StatHelper => Some(staged),
        MigrationStep::ValidateExistingHelper | MigrationStep::CompareHelper
        | MigrationStep::RemoveStagedHelper | MigrationStep::CleanUpMismatch => if helper {
            Some(staged)
        } else {
            None
        },
        MigrationStep::WriteInstalling => if helper {
            None
        } else {
            Some(staged)
        },
        MigrationStep::InstallHelper => if helper {
            None
        } else {
            Some(installing)
        },
        MigrationStep::ValidateInstalledHelper | MigrationStep::WritePreparingAgain => if helper {
            None
        } else {
            Some(installed)
        },
        MigrationStep::ValidateHelperBeforePlist | MigrationStep::WriteDaemonPlist => Some(checked),
        MigrationStep::WritePrepared => Some(done(plan, checked, MigrationStep::WriteDaemonPlist)),
        _ => None,
    }
}

/// Whatever comes of its steps, a preparation of an untouched installation that ends
/// well has put the helper in place and the new settings down, and has kept the old
/// ones. It has not reloaded the daemon.
pub proof fn law_prepared_installation(
    plan: Plan,
    old: Seq<u8>,
    helper: bool,
    outcomes: Seq<Outcome>,
)
    requires
        can_all_come(plan, Luck::Any, preparation(untouched(old, helper)), outcomes),
        run(plan, preparation(untouched(old, helper)), outcomes).next is Finished,
    ensures
        run(plan, preparation(untouched(old, helper)), outcomes).installation == prepared(
            plan,
            old,
            MigrationPhase::Prepared,
        ),
{
    lemma_preparation(plan, old, helper, outcomes);
}

proof fn lemma_preparation(plan: Plan, old: Seq<u8>, helper: bool, outcomes: Seq<Outcome>)
    requires
        can_all_come(plan, Luck::Any, preparation(untouched(old, helper)), outcomes),
    ensures
        ({
            let place = run(plan, preparation(untouched(old, helper)), outcomes);
            match place.next {
                NextView::Go(purpose, step) => purpose is Prepare && Some(place.installation)
                    == preparing_at(plan, old, helper, step),
                NextView::Finished => place.installation == prepared(
                    plan,
                    old,
                    MigrationPhase::Prepared,
                ),
                NextView::Refused(_) => true,
            }
        }),
    decreases outcomes.len(),
{
    if outcomes.len() > 0 {
        lemma_preparation(plan, old, helper, outcomes.drop_last());
    }
}

/// How many steps of a completion that was found prepared have been made when it comes
/// to one. The last step comes earlier where the helper is kept.
spec fn steps_before(step: MigrationStep) -> int {
    match step {
        MigrationStep::ValidateState => 0,
        MigrationStep::ReadPhase => 1,
        MigrationStep::ValidatePendingHelper(_) => 2,
        MigrationStep::WriteBootstrapping => 3,
        MigrationStep::ReloadDaemon => 4,
        MigrationStep::CheckReady => 5,
        MigrationStep::WriteCommitted => 6,
        MigrationStep::CleanUpCommit => 7,
        MigrationStep::WriteRollingBack => 5,
        MigrationStep::RestorePlist => 6,
        MigrationStep::ReloadOldDaemon => 7,
        MigrationStep::ReadOldProgram => 8,
        MigrationStep::CheckOldReady(_) => 9,
        MigrationStep::WriteRolledBack => 10,
        MigrationStep::ValidateRolledBackState => 11,
        MigrationStep::ReadRolledBackPhase => 12,
        MigrationStep::ReadRolledBackProgram => 13,
        MigrationStep::ValidateKeptHelper => 14,
        MigrationStep::StatRemovedHelper => 14,
        MigrationStep::ValidateRemovedHelper => 15,
        MigrationStep::DeleteHelper => 16,
        MigrationStep::CleanUpRollback => 17,
        _ => -1,
    }
}

/// A move that was found switching the daemon already is not told so again.
pub open spec fn skipped(phase: MigrationPhase) -> int {
    if phase == MigrationPhase::Bootstrapping {
        1
    } else {
        0
    }
}

/// What a completion whose first reload fails has done when it comes to a step.
spec fn failing_at(plan: Plan, old: Seq<u8>, phase: MigrationPhase, step: MigrationStep) -> Option<
    Installation,
> {
    let start = prepared(plan, old, phase);
    let switching = prepared(plan, old, MigrationPhase::Bootstrapping);
    let failed = Installation { reloads: seq![plan.reload], ..switching };
    let returning = failed.in_phase(MigrationPhase::RollingBack);
    let restored = returning.restored();
    let reloaded = Installation { reloads: seq![plan.reload, plan.reload], ..restored };
    let returned = reloaded.in_phase(MigrationPhase::RolledBack);
    match step {
        MigrationStep::ValidateState | MigrationStep::ReadPhase => Some(start),
        MigrationStep::ValidatePendingHelper(pending) => if pending == phase {
            Some(start)
        } else {
            None
        },
        MigrationStep::WriteBootstrapping => if phase == MigrationPhase::Prepared {
            Some(start)
        } else {
            None
        },
        MigrationStep::ReloadDaemon => Some(switching),
        MigrationStep::WriteRollingBack => Some(failed),
        MigrationStep::RestorePlist => Some(returning),
        MigrationStep::ReloadOldDaemon => Some(restored),
        MigrationStep::ReadOldProgram | MigrationStep::CheckOldReady(_)
        | MigrationStep::WriteRolledBack => Some(reloaded),
        MigrationStep::ValidateRolledBackState | MigrationStep::ReadRolledBackPhase
        | MigrationStep::ReadRolledBackProgram => Some(returned),
        MigrationStep::ValidateKeptHelper => if (plan.starts_helper)(old) {
            Some(returned)
        } else {
            None
        },
        MigrationStep::StatRemovedHelper | MigrationStep::ValidateRemovedHelper
        | MigrationStep::DeleteHelper => if (plan.starts_helper)(old) {
            None
        } else {
            Some(returned)
        },
        MigrationStep::CleanUpRollback => Some(
            Installation { helper: (plan.starts_helper)(old), ..returned },
        ),
        _ => None,
    }
}

/// How many steps a completion makes whose first reload fails. A helper that the old
/// settings start is kept, which takes fewer.
pub open spec fn steps_of_failure(plan: Plan, old: Seq<u8>, phase: MigrationPhase) -> int {
    (if (plan.starts_helper)(old) {
        16int
    } else {
        18
    }) - skipped(phase)
}

/// Where a reload fails once, a completion of a prepared installation ends in the
/// error of that reload. The old settings are back, the state is gone, the helper is
/// gone unless the old settings start it, and the daemon was reloaded twice, both
/// times as the same job with the same settings file.
pub proof fn law_failed_reload_restores_the_old_daemon(
    plan: Plan,
    old: Seq<u8>,
    phase: MigrationPhase,
    outcomes: Seq<Outcome>,
)
    requires
        phase == MigrationPhase::Prepared || phase == MigrationPhase::Bootstrapping,
        can_all_come(
            plan,
            Luck::FirstReloadFails,
            completion(prepared(plan, old, phase)),
            outcomes,
        ),
    ensures
        ({
            let place = run(plan, completion(prepared(plan, old, phase)), outcomes);
            &&& place.is_end() <==> outcomes.len() >= steps_of_failure(plan, old, phase)
            &&& place.is_end() ==> {
                &&& outcomes[4 - skipped(phase)] matches Outcome::Failed { error }
                &&& place.next == NextView::Refused(
                    "Protected helper activation failed; old daemon restored: "@ + error@,
                )
                &&& place.installation.daemon_plist == old
                &&& place.installation.helper == (plan.starts_helper)(old)
                &&& place.installation.state is None
                &&& place.installation.reloads == seq![plan.reload, plan.reload]
            }
        }),
{
    lemma_failing(plan, old, phase, outcomes);
}

proof fn lemma_failing(plan: Plan, old: Seq<u8>, phase: MigrationPhase, outcomes: Seq<Outcome>)
    requires
        phase == MigrationPhase::Prepared || phase == MigrationPhase::Bootstrapping,
        can_all_come(
            plan,
            Luck::FirstReloadFails,
            completion(prepared(plan, old, phase)),
            outcomes,
        ),
    ensures
        ({
            let place = run(plan, completion(prepared(plan, old, phase)), outcomes);
            let at = 4 - skipped(phase);
            match place.next {
                NextView::Go(purpose, step) => {
                    &&& Some(place.installation) == failing_at(plan, old, phase, step)
                    &&& outcomes.len() == (if step is CleanUpRollback {
                        steps_of_failure(plan, old, phase) - 1
                    } else if steps_before(step) >= 4 {
                        steps_before(step) - skipped(phase)
                    } else {
                        steps_before(step)
                    })
                    &&& if steps_before(step) <= 4 {
                        purpose is Complete
                    } else {
                        outcomes[at] matches Outcome::Failed { error } && purpose == (
                        PurposeView::RollBack { reason: error@ })
                    }
                },
                NextView::Finished => false,
                NextView::Refused(text) => {
                    &&& outcomes.len() >= steps_of_failure(plan, old, phase)
                    &&& outcomes[at] matches Outcome::Failed { error }
                    &&& text == "Protected helper activation failed; old daemon restored: "@
                        + error@
                    &&& place.installation == (Installation {
                        reloads: seq![plan.reload, plan.reload],
                        ..untouched(old, (plan.starts_helper)(old))
                    })
                },
            }
        }),
    decreases outcomes.len(),
{
    let start = completion(prepared(plan, old, phase));
    if outcomes.len() > 0 {
        let before = outcomes.drop_last();
        lemma_failing(plan, old, phase, before);
        let place = run(plan, start, before);
        if before.len() > 4 - skipped(phase) {
            assert(before[4 - skipped(phase)] == outcomes[4 - skipped(phase)]);
        }
        assert(Seq::<(Seq<char>, Seq<char>)>::empty().push(plan.reload) =~= seq![plan.reload]);
        assert(seq![plan.reload].push(plan.reload) =~= seq![plan.reload, plan.reload]);
    }
}

/// A move of an untouched installation whose preparation ended well and whose first
/// reload fails ends in an error and leaves the old settings and no state. A helper is
/// left only where the old settings start it. The daemon was reloaded twice.
pub proof fn law_failed_move_is_undone(
    plan: Plan,
    old: Seq<u8>,
    helper: bool,
    preparing: Seq<Outcome>,
    completing: Seq<Outcome>,
)
    requires
        can_all_come(plan, Luck::Any, preparation(untouched(old, helper)), preparing),
        run(plan, preparation(untouched(old, helper)), preparing).next is Finished,
        can_all_come(
            plan,
            Luck::FirstReloadFails,
            completion(run(plan, preparation(untouched(old, helper)), preparing).installation),
            completing,
        ),
        run(
            plan,
            completion(run(plan, preparation(untouched(old, helper)), preparing).installation),
            completing,
        ).is_end(),
    ensures
        ({
            let place = run(
                plan,
                completion(run(plan, preparation(untouched(old, helper)), preparing).installation),
                completing,
            );
            &&& place.next is Refused
            &&& place.installation == (Installation {
                reloads: seq![plan.reload, plan.reload],
                ..untouched(old, (plan.starts_helper)(old))
            })
        }),
{
    law_prepared_installation(plan, old, helper, preparing);
    lemma_failing(plan, old, MigrationPhase::Prepared, completing);
}

/// Where all goes well, a completion of a prepared installation ends well after eight
/// steps, or seven. The new settings and the helper are in place, the state is gone,
/// and the daemon was reloaded once.
pub proof fn law_completed_move(
    plan: Plan,
    old: Seq<u8>,
    phase: MigrationPhase,
    outcomes: Seq<Outcome>,
)
    requires
        phase == MigrationPhase::Prepared || phase == MigrationPhase::Bootstrapping,
        can_all_come(plan, Luck::AllWell, completion(prepared(plan, old, phase)), outcomes),
    ensures
        ({
            let place = run(plan, completion(prepared(plan, old, phase)), outcomes);
            &&& place.is_end() <==> outcomes.len() >= 8 - skipped(phase)
            &&& place.is_end() ==> {
                &&& place.next is Finished
                &&& place.installation.daemon_plist == plan.new_plist
                &&& place.installation.helper
                &&& place.installation.state is None
                &&& place.installation.reloads == seq![plan.reload]
            }
        }),
{
    lemma_completing(plan, old, phase, outcomes);
}

proof fn lemma_completing(plan: Plan, old: Seq<u8>, phase: MigrationPhase, outcomes: Seq<Outcome>)
    requires
        phase == MigrationPhase::Prepared || phase == MigrationPhase::Bootstrapping,
        can_all_come(plan, Luck::AllWell, completion(prepared(plan, old, phase)), outcomes),
    ensures
        ({
            let place = run(plan, completion(prepared(plan, old, phase)), outcomes);
            let reloaded = Installation {
                reloads: seq![plan.reload],
                ..prepared(plan, old, MigrationPhase::Bootstrapping)
            };
            match place.next {
                NextView::Go(purpose, step) => {
                    &&& purpose is Complete
                    &&& outcomes.len() == steps_before(step) - (if steps_before(step) >= 4 {
                        skipped(phase)
                    } else {
                        0
                    })
                    &&& match step {
                        MigrationStep::CheckReady | MigrationStep::WriteCommitted => {
                            place.installation == reloaded
                        },
                        MigrationStep::CleanUpCommit => place.installation == reloaded.in_phase(
                            MigrationPhase::Committed,
                        ),
                        _ => steps_before(step) <= 4 && Some(place.installation) == failing_at(
                            plan,
                            old,
                            phase,
                            step,
                        ),
                    }
                },
                NextView::Finished => {
                    &&& outcomes.len() >= 8 - skipped(phase)
                    &&& place.installation == reloaded.without_state()
                },
                NextView::Refused(_) => false,
            }
        }),
    decreases outcomes.len(),
{
    if outcomes.len() > 0 {
        lemma_completing(plan, old, phase, outcomes.drop_last());
        assert(Seq::<(Seq<char>, Seq<char>)>::empty().push(plan.reload) =~= seq![plan.reload]);
    }
}

} // verus!
