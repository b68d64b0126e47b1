//! Updates from a disk image that the user has asked for.
use vstd::prelude::*;

verus! {

/// What such an update does next.
#[derive(Clone, Copy, Debug, PartialEq, Eq, Structural)]
pub enum DmgStep {
    /// Copy the image into the directory for updates.
    CopyToTemp,
    /// Mount the copy.
    Attach,
    /// Update from the app on the mounted image.
    UpdateMounted,
    Detach,
    /// Update from the app that was unpacked into the directory for updates.
    UpdateExtracted,
    /// Remove the directory for updates.
    RemoveTemp,
    /// Copy the image to a private place and check its size and its digest.
    CopyAndVerify,
    /// Check the private copy once more.
    VerifyAgain,
    /// Update from the private copy.
    UpdateFromCopy,
    /// Remove the private copy.
    RemoveCopy,
    QuitGui,
    Finished,
}

impl DmgStep {
    /// Whether a failure of the step is the failure of the update. Cleaning up and
    /// quitting are only tried.
    pub open spec fn counts(self) -> bool {
        self is CopyToTemp || self is Attach || self is UpdateMounted || self is UpdateExtracted
            || self is CopyAndVerify || self is VerifyAgain || self is UpdateFromCopy
    }

    /// The step behind this one. `failed` tells whether anything has failed that
    /// counts, this step included.
    pub open spec fn follower(self, failed: bool) -> DmgStep {
        match self {
            DmgStep::CopyToTemp => if failed {
                DmgStep::RemoveTemp
            } else {
                DmgStep::Attach
            },
            DmgStep::Attach => if failed {
                DmgStep::RemoveTemp
            } else {
                DmgStep::UpdateMounted
            },
            DmgStep::UpdateMounted => DmgStep::Detach,
            DmgStep::Detach => DmgStep::RemoveTemp,
            DmgStep::UpdateExtracted => DmgStep::RemoveTemp,
            DmgStep::RemoveTemp => DmgStep::Finished,
            DmgStep::CopyAndVerify => if failed {
                DmgStep::Finished
            } else {
                DmgStep::VerifyAgain
            },
            DmgStep::VerifyAgain => if failed {
                DmgStep::RemoveCopy
            } else {
                DmgStep::UpdateFromCopy
            },
            DmgStep::UpdateFromCopy => DmgStep::RemoveCopy,
            DmgStep::RemoveCopy => if failed {
                DmgStep::Finished
            } else {
                DmgStep::QuitGui
            },
            DmgStep::QuitGui => DmgStep::Finished,
            DmgStep::Finished => DmgStep::Finished,
        }
    }

    fn next(self, failed: bool) -> (r: DmgStep)
        ensures
            r == self.follower(failed),
    {
        match self {
            DmgStep::CopyToTemp => if failed {
                DmgStep::RemoveTemp
            } else {
                DmgStep::Attach
            },
            DmgStep::Attach => if failed {
                DmgStep::RemoveTemp
            } else {
                DmgStep::UpdateMounted
            },
            DmgStep::UpdateMounted => DmgStep::Detach,
            DmgStep::Detach => DmgStep::RemoveTemp,
            DmgStep::UpdateExtracted => DmgStep::RemoveTemp,
            DmgStep::RemoveTemp => DmgStep::Finished,
            DmgStep::CopyAndVerify => if failed {
                DmgStep::Finished
            } else {
                DmgStep::VerifyAgain
            },
            DmgStep::VerifyAgain => if failed {
                DmgStep::RemoveCopy
            } else {
                DmgStep::UpdateFromCopy
            },
            DmgStep::UpdateFromCopy => DmgStep::RemoveCopy,
            DmgStep::RemoveCopy => if failed {
                DmgStep::Finished
            } else {
                DmgStep::QuitGui
            },
            DmgStep::QuitGui => DmgStep::Finished,
            DmgStep::Finished => DmgStep::Finished,
        }
    }

    fn decides(self) -> (r: bool)
        ensures
            r == self.counts(),
    {
        match self {
            DmgStep::CopyToTemp
            | DmgStep::Attach
            | DmgStep::UpdateMounted
            | DmgStep::UpdateExtracted
            | DmgStep::CopyAndVerify
            | DmgStep::VerifyAgain
            | DmgStep::UpdateFromCopy => true,
            _ => false,
        }
    }
}

/// An update from a disk image.
#[derive(Debug)]
pub struct DmgUpdate {
    pub step: DmgStep,
    /// What went wrong first.
    pub error: Option<String>,
}

impl DmgUpdate {
    /// An update from an image that is copied and mounted first.
    pub fn update_from_dmg() -> (r: DmgUpdate)
        ensures
            r == (DmgUpdate { step: DmgStep::CopyToTemp, error: None }),
    {
        DmgUpdate { step: DmgStep::CopyToTemp, error: None }
    }

    /// An update from an app that was unpacked before.
    pub fn update_to() -> (r: DmgUpdate)
        ensures
            r == (DmgUpdate { step: DmgStep::UpdateExtracted, error: None }),
    {
        DmgUpdate { step: DmgStep::UpdateExtracted, error: None }
    }

    /// An update from an image with a known digest.
    pub fn update_to_verified_dmg() -> (r: DmgUpdate)
        ensures
            r == (DmgUpdate { step: DmgStep::CopyAndVerify, error: None }),
    {
        DmgUpdate { step: DmgStep::CopyAndVerify, error: None }
    }

    /// The update once its step came to this.
    pub open spec fn resumed(self, outcome: Result<(), String>) -> DmgUpdate {
        let error = if self.error is None && self.step.counts() && outcome is Err {
            Some(outcome->Err_0)
        } else {
            self.error
        };
        DmgUpdate { step: self.step.follower(error is Some), error }
    }

    /// Goes on from what came of the step.
    pub fn resume(&mut self, outcome: Result<(), String>)
        ensures
            *final(self) == old(self).resumed(outcome),
            match outcome {
                Err(e) if old(self).step.counts() && old(self).error is None => final(self).error
                    == Some(e),
                _ => final(self).error == old(self).error,
            },
            final(self).step == old(self).step.follower(final(self).error is Some),
    {
        if let Err(e) = outcome {
            if self.step.decides() && self.error.is_none() {
                self.error = Some(e);
            }
        }
        let failed = self.error.is_some();
        self.step = self.step.next(failed);
    }
}

/// The event that reports how an image was unpacked, as names and values.
pub fn extract_update_dmg(result: Result<(), String>) -> (r: Vec<(&'static str, String)>)
    ensures
        r@.len() == (if result is Ok {
            1int
        } else {
            2
        }),
        r@[0].0@ == "name"@ && r@[0].1@ == "extract-update-dmg"@,
        result matches Err(e) ==> r@[1].0@ == "err"@ && r@[1].1@ == e@,
{
    let mut event: Vec<(&'static str, String)> = Vec::new();
    event.push(("name", "extract-update-dmg".to_owned()));
    if let Err(e) = result {
        event.push(("err", e));
    }
    event
}

/// Where an update from a start is once its steps have gone well or not: the step,
/// and whether one has failed that counts.
pub open spec fn reached(start: DmgStep, outcomes: Seq<bool>) -> (DmgStep, bool)
    decreases outcomes.len(),
{
    if outcomes.len() == 0 {
        (start, false)
    } else {
        let (step, failed) = reached(start, outcomes.drop_last());
        let failed = failed || (step.counts() && !outcomes.last());
        (step.follower(failed), failed)
    }
}

/// Whether an update came by a step.
pub open spec fn passed(start: DmgStep, outcomes: Seq<bool>, step: DmgStep) -> bool {
    exists|k: int| 0 <= k < outcomes.len() && (#[trigger] reached(start, outcomes.take(k))).0 == step
}

proof fn lemma_passed_grows(start: DmgStep, outcomes: Seq<bool>, step: DmgStep)
    requires
        outcomes.len() > 0,
        passed(start, outcomes.drop_last(), step) || reached(start, outcomes.drop_last()).0 == step,
    ensures
        passed(start, outcomes, step),
{
    let before = outcomes.drop_last();
    if passed(start, before, step) {
        let k = choose|k: int|
            0 <= k < before.len() && (#[trigger] reached(start, before.take(k))).0 == step;
        assert(before.take(k) =~= outcomes.take(k));
        assert(reached(start, outcomes.take(k)).0 == step);
    } else {
        assert(outcomes.take(before.len() as int) =~= before);
        assert(reached(start, outcomes.take(before.len() as int)).0 == step);
    }
}

/// However an update from a mounted or an unpacked image goes, it is over only once
/// the directory for updates was removed, and a mounted image was let go before.
pub proof fn law_directory_for_updates_is_removed(start: DmgStep, outcomes: Seq<bool>)
    requires
        start == DmgStep::CopyToTemp || start == DmgStep::UpdateExtracted,
        reached(start, outcomes).0 == DmgStep::Finished,
    ensures
        passed(start, outcomes, DmgStep::RemoveTemp),
        passed(start, outcomes, DmgStep::UpdateMounted) ==> passed(start, outcomes, DmgStep::Detach),
{
    lemma_cleanup(start, outcomes);
}

proof fn lemma_cleanup(start: DmgStep, outcomes: Seq<bool>)
    requires
        start == DmgStep::CopyToTemp || start == DmgStep::UpdateExtracted,
    ensures
        match reached(start, outcomes).0 {
            DmgStep::CopyToTemp | DmgStep::Attach | DmgStep::UpdateMounted | DmgStep::UpdateExtracted
                => !passed(start, outcomes, DmgStep::UpdateMounted),
            DmgStep::Detach => true,
            DmgStep::RemoveTemp => passed(start, outcomes, DmgStep::UpdateMounted) ==> passed(
                start,
                outcomes,
                DmgStep::Detach,
            ),
            DmgStep::Finished => passed(start, outcomes, DmgStep::RemoveTemp) && (passed(
                start,
                outcomes,
                DmgStep::UpdateMounted,
            ) ==> passed(start, outcomes, DmgStep::Detach)),
            _ => false,
        },
    decreases outcomes.len(),
{
    if outcomes.len() > 0 {
        let before = outcomes.drop_last();
        let step = reached(start, before).0;
        lemma_cleanup(start, before);
        lemma_passed_grows(start, outcomes, step);
        if passed(start, outcomes, DmgStep::UpdateMounted) && step != DmgStep::UpdateMounted {
            let k = choose|k: int|
                0 <= k < outcomes.len() && (#[trigger] reached(start, outcomes.take(k))).0
                    == DmgStep::UpdateMounted;
            if k < before.len() {
                assert(before.take(k) =~= outcomes.take(k));
                assert(reached(start, before.take(k)).0 == DmgStep::UpdateMounted);
            } else {
                assert(outcomes.take(k) =~= before);
            }
        }
        if passed(start, before, DmgStep::Detach) {
            lemma_passed_grows(start, outcomes, DmgStep::Detach);
        }
        if passed(start, before, DmgStep::RemoveTemp) {
            lemma_passed_grows(start, outcomes, DmgStep::RemoveTemp);
        }
    }
}

/// The program quits only after an update from a verified image that went well, and
/// only once the private copy of the image was removed. Wherever a copy was made, it
/// was removed when the update is over.
pub proof fn law_private_copy_is_removed(outcomes: Seq<bool>)
    ensures
        reached(DmgStep::CopyAndVerify, outcomes).0 == DmgStep::QuitGui ==> !reached(
            DmgStep::CopyAndVerify,
            outcomes,
        ).1 && passed(DmgStep::CopyAndVerify, outcomes, DmgStep::RemoveCopy),
        reached(DmgStep::CopyAndVerify, outcomes).0 == DmgStep::Finished && outcomes[0] ==> passed(
            DmgStep::CopyAndVerify,
            outcomes,
            DmgStep::RemoveCopy,
        ),
{
    lemma_copy(outcomes);
}

proof fn lemma_copy(outcomes: Seq<bool>)
    ensures
        ({
            let (step, failed) = reached(DmgStep::CopyAndVerify, outcomes);
            let removed = passed(DmgStep::CopyAndVerify, outcomes, DmgStep::RemoveCopy);
            match step {
                DmgStep::CopyAndVerify => outcomes.len() == 0 && !failed,
                DmgStep::VerifyAgain | DmgStep::UpdateFromCopy => outcomes.len() > 0 && !failed,
                DmgStep::RemoveCopy => outcomes.len() > 0,
                DmgStep::QuitGui => outcomes.len() > 0 && removed && !failed,
                DmgStep::Finished => outcomes.len() > 0 && (removed || !outcomes[0]),
                _ => false,
            }
        }),
    decreases outcomes.len(),
{
    let start = DmgStep::CopyAndVerify;
    if outcomes.len() > 0 {
        let before = outcomes.drop_last();
        let step = reached(start, before).0;
        lemma_copy(before);
        if step == DmgStep::RemoveCopy || passed(start, before, DmgStep::RemoveCopy) {
            lemma_passed_grows(start, outcomes, DmgStep::RemoveCopy);
        }
        if step == DmgStep::CopyAndVerify {
            assert(outcomes.last() == outcomes[0]);
        } else {
            assert(before[0] == outcomes[0]);
        }
    }
}

/// What each step follows on: an update is made only from an image that was copied and
/// mounted, or checked twice, without a failure before it.
pub proof fn law_what_comes_before_each_step(step: DmgStep, failed: bool)
    ensures
        ({
            let next = step.follower(failed);
            &&& next != DmgStep::CopyToTemp && next != DmgStep::UpdateExtracted && next
                != DmgStep::CopyAndVerify
            &&& next == DmgStep::Attach <==> step == DmgStep::CopyToTemp && !failed
            &&& next == DmgStep::UpdateMounted <==> step == DmgStep::Attach && !failed
            &&& next == DmgStep::Detach <==> step == DmgStep::UpdateMounted
            &&& next == DmgStep::RemoveTemp <==> step == DmgStep::Detach || step
                == DmgStep::UpdateExtracted || (failed && (step == DmgStep::CopyToTemp || step
                == DmgStep::Attach))
            &&& next == DmgStep::VerifyAgain <==> step == DmgStep::CopyAndVerify && !failed
            &&& next == DmgStep::UpdateFromCopy <==> step == DmgStep::VerifyAgain && !failed
            &&& next == DmgStep::RemoveCopy <==> step == DmgStep::UpdateFromCopy || (failed && step
                == DmgStep::VerifyAgain)
            &&& next == DmgStep::QuitGui <==> step == DmgStep::RemoveCopy && !failed
            &&& next == DmgStep::Finished <==> step == DmgStep::RemoveTemp || step
                == DmgStep::QuitGui || step == DmgStep::Finished || (failed && (step
                == DmgStep::CopyAndVerify || step == DmgStep::RemoveCopy))
        }),
{
}

/// Only cleaning up and quitting may fail without the update failing.
pub proof fn law_which_failures_count(step: DmgStep)
    ensures
        !step.counts() <==> step == DmgStep::Detach || step == DmgStep::RemoveTemp || step
            == DmgStep::RemoveCopy || step == DmgStep::QuitGui || step == DmgStep::Finished,
{
}

/// A failure is never forgotten, and there is none without a step that failed.
pub proof fn law_failures_are_kept(start: DmgStep, outcomes: Seq<bool>, more: bool)
    ensures
        reached(start, outcomes).1 ==> reached(start, outcomes.push(more)).1,
        reached(start, outcomes.push(more)).1 ==> reached(start, outcomes).1 || !more,
        more ==> reached(start, outcomes.push(more)).1 == reached(start, outcomes).1,
        !more && reached(start, outcomes).0.counts() ==> reached(start, outcomes.push(more)).1,
        !reached(start, Seq::empty()).1,
{
    assert(outcomes.push(more).drop_last() =~= outcomes);
}

/// The first failure that counts is the one that is told, whatever comes after it; what
/// goes well and what does not count changes nothing of it.
pub proof fn law_first_failure_is_told(update: DmgUpdate, outcome: Result<(), String>)
    ensures
        update.error is Some ==> update.resumed(outcome).error == update.error,
        outcome is Ok ==> update.resumed(outcome).error == update.error,
        update.error is None && update.resumed(outcome).error is Some ==> update.resumed(
            outcome,
        ).error == Some(outcome->Err_0),
        update.error is None && outcome is Err && update.step != DmgStep::Detach && update.step
            != DmgStep::RemoveTemp && update.step != DmgStep::RemoveCopy && update.step
            != DmgStep::QuitGui && update.step != DmgStep::Finished ==> update.resumed(
            outcome,
        ).error is Some,
        update.step == DmgStep::Detach || update.step == DmgStep::RemoveTemp || update.step
            == DmgStep::RemoveCopy || update.step == DmgStep::QuitGui ==> update.resumed(
            outcome,
        ).error == update.error,
        update.resumed(outcome).step == update.step.follower(
            update.resumed(outcome).error is Some,
        ),
{
}

} // verus!
