//! Writing the definitions of the daemon and the agent as one transaction.
use vstd::prelude::*;

verus! {

/// The permissions of a written definition.
pub const PLIST_MODE: u32 = 0o644;

/// What stands at the path of a definition, links not followed.
#[derive(Clone, Copy, Debug, PartialEq, Eq, Structural)]
pub enum PathKind {
    Absent,
    RegularFile,
    Other,
}

/// What to do about a definition that may be there.
#[derive(Debug)]
pub enum PlistRead {
    /// Its contents are the backup.
    ReadContents,
    /// There is nothing to go back to.
    NoBackup,
    Refused(String),
}

fn complaint(text: &str, path: &str) -> (r: String)
    ensures
        r@ == text@ + path@,
{
    let mut out: String = text.to_owned();
    out.append(path);
    out
}

/// How the backup of a definition is made. `kind` is what stands at the path, or
/// the error of looking.
pub fn read_optional_plist(path: &str, kind: Result<PathKind, String>) -> (r: PlistRead)
    ensures
        match kind {
            Ok(PathKind::RegularFile) => r == PlistRead::ReadContents,
            Ok(PathKind::Absent) => r == PlistRead::NoBackup,
            Ok(PathKind::Other) => r matches PlistRead::Refused(e) && e@
                == "plist is not a regular file: "@ + path@,
            Err(error) => r == PlistRead::Refused(error),
        },
{
    match kind {
        Ok(PathKind::RegularFile) => PlistRead::ReadContents,
        Ok(PathKind::Absent) => PlistRead::NoBackup,
        Ok(PathKind::Other) => PlistRead::Refused(
            complaint("plist is not a regular file: ", path),
        ),
        Err(error) => PlistRead::Refused(error),
    }
}

/// How a definition goes back to what it was.
#[derive(Debug)]
pub enum PlistRestore {
    /// The backup is written in the place of what is there.
    WriteBackup,
    /// The new file is removed and its directory is synced.
    RemoveFile,
    Nothing,
    Refused(String),
}

/// How a definition goes back to what it was, where it can.
pub open spec fn restoring(has_backup: bool, kind: Result<PathKind, String>) -> Option<
    PlistRestore,
> {
    match (has_backup, kind) {
        (true, _) => Some(PlistRestore::WriteBackup),
        (false, Ok(PathKind::RegularFile)) => Some(PlistRestore::RemoveFile),
        (false, Ok(PathKind::Absent)) => Some(PlistRestore::Nothing),
        _ => None,
    }
}

/// How a definition goes back to what it was before a failed write.
pub fn restore_plist(path: &str, has_backup: bool, kind: Result<PathKind, String>) -> (r:
    PlistRestore)
    ensures
        r is Refused <==> restoring(has_backup, kind) is None,
        !(r is Refused) ==> restoring(has_backup, kind) == Some(r),
        has_backup ==> r == PlistRestore::WriteBackup,
        !has_backup ==> match kind {
            Ok(PathKind::RegularFile) => r == PlistRestore::RemoveFile,
            Ok(PathKind::Absent) => r == PlistRestore::Nothing,
            Ok(PathKind::Other) => r matches PlistRestore::Refused(e) && e@
                == "new plist path is not a regular file: "@ + path@,
            Err(error) => r == PlistRestore::Refused(error),
        },
{
    if has_backup {
        return PlistRestore::WriteBackup;
    }
    match kind {
        Ok(PathKind::RegularFile) => PlistRestore::RemoveFile,
        Ok(PathKind::Absent) => PlistRestore::Nothing,
        Ok(PathKind::Other) => PlistRestore::Refused(
            complaint("new plist path is not a regular file: ", path),
        ),
        Err(error) => PlistRestore::Refused(error),
    }
}

/// The name of the file in which new contents wait until they are complete.
pub fn temporary_name(file_name: &str, pid: u32) -> (r: String)
    ensures
        r@ == file_name@ + ".tmp."@ + crate::text::decimal(pid as nat),
{
    let number = crate::text::decimal_text(pid as u64);
    let mut name: String = file_name.to_owned();
    name.append(".tmp.");
    name.append(number.as_str());
    name
}

/// One step of writing a definition.
#[derive(Clone, Copy, Debug, PartialEq, Eq, Structural)]
pub enum WriteStep {
    /// Create the waiting file, which must be new.
    CreateTemporary,
    SetMode,
    WriteBody,
    SyncFile,
    /// Move the waiting file to its place.
    Rename,
    SyncDirectory,
    /// Remove the waiting file after a failure.
    RemoveTemporary,
}

/// What follows a step of writing.
#[derive(Debug)]
pub enum WriteNext {
    Step(WriteStep),
    Done,
}

impl WriteStep {
    /// The step that follows one that succeeded, or that did not.
    pub open spec fn next(self, success: bool) -> WriteNext {
        if success {
            self.next_in_order()
        } else if self == WriteStep::RemoveTemporary {
            WriteNext::Done
        } else {
            WriteNext::Step(WriteStep::RemoveTemporary)
        }
    }

    /// The step that follows a success.
    pub open spec fn next_in_order(self) -> WriteNext {
        match self {
            WriteStep::CreateTemporary => WriteNext::Step(WriteStep::SetMode),
            WriteStep::SetMode => WriteNext::Step(WriteStep::WriteBody),
            WriteStep::WriteBody => WriteNext::Step(WriteStep::SyncFile),
            WriteStep::SyncFile => WriteNext::Step(WriteStep::Rename),
            WriteStep::Rename => WriteNext::Step(WriteStep::SyncDirectory),
            WriteStep::SyncDirectory => WriteNext::Done,
            WriteStep::RemoveTemporary => WriteNext::Done,
        }
    }

    /// How many steps may follow this one, itself counted.
    pub open spec fn steps_left(self) -> nat {
        match self {
            WriteStep::CreateTemporary => 7,
            WriteStep::SetMode => 6,
            WriteStep::WriteBody => 5,
            WriteStep::SyncFile => 4,
            WriteStep::Rename => 3,
            WriteStep::SyncDirectory => 2,
            WriteStep::RemoveTemporary => 1,
        }
    }
}

/// The step of writing that comes first.
pub fn first_write_step() -> (r: WriteStep)
    ensures
        r == WriteStep::CreateTemporary,
{
    WriteStep::CreateTemporary
}

/// What follows a step of writing that succeeded, or that did not. Every failure
/// leads to the removal of the waiting file.
pub fn after_write_step(step: WriteStep, success: bool) -> (r: WriteNext)
    ensures
        r == step.next(success),
{
    if !success {
        return match step {
            WriteStep::RemoveTemporary => WriteNext::Done,
            _ => WriteNext::Step(WriteStep::RemoveTemporary),
        };
    }
    match step {
        WriteStep::CreateTemporary => WriteNext::Step(WriteStep::SetMode),
        WriteStep::SetMode => WriteNext::Step(WriteStep::WriteBody),
        WriteStep::WriteBody => WriteNext::Step(WriteStep::SyncFile),
        WriteStep::SyncFile => WriteNext::Step(WriteStep::Rename),
        WriteStep::Rename => WriteNext::Step(WriteStep::SyncDirectory),
        WriteStep::SyncDirectory => WriteNext::Done,
        WriteStep::RemoveTemporary => WriteNext::Done,
    }
}

/// Each step of writing brings the write nearer to its end, and a definition is
/// moved to its place only when all of it is on the disk.
pub proof fn law_write_ends(step: WriteStep, success: bool)
    ensures
        step.next(success) matches WriteNext::Step(next) ==> next.steps_left()
            < step.steps_left(),
        step.next(success) == WriteNext::Step(WriteStep::Rename) ==> step == WriteStep::SyncFile
            && success,
{
}

/// How the removal of the waiting file went.
#[derive(Debug)]
pub enum Removal {
    Removed,
    NotFound,
    Failed(String),
}

/// The error of a write that failed, and whose waiting file was then removed or
/// was not.
pub fn report_failed_plist_cleanup(operation_error: String, cleanup: Removal) -> (r: String)
    ensures
        r@ == match cleanup {
            Removal::Failed(cleanup_error) => "plist write failed ("@ + operation_error@
                + "); temporary cleanup failed ("@ + cleanup_error@ + ")"@,
            _ => operation_error@,
        },
{
    match cleanup {
        Removal::Removed => operation_error,
        Removal::NotFound => operation_error,
        Removal::Failed(cleanup_error) => {
            let mut text: String = "plist write failed (".to_owned();
            text.append(operation_error.as_str());
            text.append("); temporary cleanup failed (");
            text.append(cleanup_error.as_str());
            text.append(")");
            text
        },
    }
}

/// One of the two definitions.
#[derive(Clone, Copy, Debug, PartialEq, Eq, Structural)]
pub enum Which {
    Daemon,
    Agent,
}

/// What the transaction asks for.
#[derive(Clone, Copy, Debug, PartialEq, Eq, Structural)]
pub enum PairStep {
    /// Keep what is there now.
    BackUp(Which),
    /// Write the new definition.
    Write(Which),
    /// Go back to the backup.
    Restore(Which),
}

/// Where the transaction stands.
#[derive(Debug)]
pub enum PairState {
    BackingUp(Which),
    Writing(Which),
    /// The write failed with this error.
    RestoringDaemon(String),
    /// The write failed with the first error; the second is what restoring the
    /// daemon's definition gave.
    RestoringAgent(String, Result<(), String>),
    Finished,
}

/// What follows a step of the transaction.
#[derive(Debug)]
pub enum PairNext {
    Step(PairStep),
    Done,
    Failed(String),
}

/// A result as its debug text shows it, `shown` being the shown error.
pub open spec fn shown_result(result: Result<(), String>) -> Seq<char> {
    match result {
        Ok(()) => "Ok(())"@,
        Err(shown) => "Err("@ + shown@ + ")"@,
    }
}

fn show_result(result: &Result<(), String>) -> (r: String)
    ensures
        r@ == shown_result(*result),
{
    match result {
        Ok(()) => "Ok(())".to_owned(),
        Err(shown) => {
            let mut text: String = "Err(".to_owned();
            text.append(shown.as_str());
            text.append(")");
            text
        },
    }
}

/// The error of a pair that could not be written, where `write` is the error of
/// the write and the others are what restoring gave.
pub open spec fn pair_error(
    write: Seq<char>,
    daemon: Result<(), String>,
    agent: Result<(), String>,
) -> Seq<char> {
    if daemon is Ok && agent is Ok {
        write
    } else {
        "plist write failed ("@ + write + "); rollback results: daemon="@ + shown_result(daemon)
            + ", agent="@ + shown_result(agent)
    }
}

/// The transaction that writes both definitions or neither.
#[derive(Debug)]
pub struct PlistPair {
    pub state: PairState,
}

impl PlistPair {
    /// The step that the transaction waits for.
    pub open spec fn awaits(self) -> Option<PairStep> {
        match self.state {
            PairState::BackingUp(which) => Some(PairStep::BackUp(which)),
            PairState::Writing(which) => Some(PairStep::Write(which)),
            PairState::RestoringDaemon(_) => Some(PairStep::Restore(Which::Daemon)),
            PairState::RestoringAgent(_, _) => Some(PairStep::Restore(Which::Agent)),
            PairState::Finished => None,
        }
    }

    /// The state after the awaited step gave a result.
    pub open spec fn state_after(self, result: Result<(), String>) -> PairState {
        match self.state {
            PairState::BackingUp(which) => if result is Err {
                PairState::Finished
            } else if which == Which::Daemon {
                PairState::BackingUp(Which::Agent)
            } else {
                PairState::Writing(Which::Daemon)
            },
            PairState::Writing(which) => match result {
                Err(error) => PairState::RestoringDaemon(error),
                Ok(()) => if which == Which::Daemon {
                    PairState::Writing(Which::Agent)
                } else {
                    PairState::Finished
                },
            },
            PairState::RestoringDaemon(error) => PairState::RestoringAgent(error, result),
            PairState::RestoringAgent(_, _) => PairState::Finished,
            PairState::Finished => PairState::Finished,
        }
    }

    /// What the transaction ends with when the awaited step gives a result.
    pub open spec fn failure_after(self, result: Result<(), String>) -> Option<Seq<char>> {
        match self.state {
            PairState::BackingUp(_) => match result {
                Err(error) => Some(error@),
                Ok(()) => None,
            },
            PairState::RestoringAgent(write, daemon) => Some(pair_error(write@, daemon, result)),
            _ => None,
        }
    }

    /// How many steps may still follow.
    pub open spec fn steps_left(self) -> nat {
        match self.state {
            PairState::BackingUp(Which::Daemon) => 6,
            PairState::BackingUp(Which::Agent) => 5,
            PairState::Writing(Which::Daemon) => 4,
            PairState::Writing(Which::Agent) => 3,
            PairState::RestoringDaemon(_) => 2,
            PairState::RestoringAgent(_, _) => 1,
            PairState::Finished => 0,
        }
    }

    /// Starts a transaction.
    pub fn new() -> (r: PlistPair)
        ensures
            r.state == PairState::BackingUp(Which::Daemon),
            r.awaits() == Some(PairStep::BackUp(Which::Daemon)),
    {
        PlistPair { state: PairState::BackingUp(Which::Daemon) }
    }

    /// The step that the transaction waits for.
    pub fn awaited(&self) -> (r: Option<PairStep>)
        ensures
            r == self.awaits(),
    {
        match &self.state {
            PairState::BackingUp(which) => Some(PairStep::BackUp(*which)),
            PairState::Writing(which) => Some(PairStep::Write(*which)),
            PairState::RestoringDaemon(_) => Some(PairStep::Restore(Which::Daemon)),
            PairState::RestoringAgent(_, _) => Some(PairStep::Restore(Which::Agent)),
            PairState::Finished => None,
        }
    }

    /// Takes the result of the awaited step and says what follows. A failed
    /// write puts both definitions back.
    pub fn write_plist_pair_with(&mut self, result: Result<(), String>) -> (r: PairNext)
        requires
            old(self).awaits() is Some,
        ensures
            final(self).state == old(self).state_after(result),
            match old(self).failure_after(result) {
                Some(error) => r matches PairNext::Failed(e) && e@ == error,
                None => match final(self).awaits() {
                    Some(step) => r == PairNext::Step(step),
                    None => r == PairNext::Done,
                },
            },
    {
        let mut state = PairState::Finished;
        std::mem::swap(&mut state, &mut self.state);
        match state {
            PairState::BackingUp(which) => {
                if let Err(error) = result {
                    return PairNext::Failed(error);
                }
                match which {
                    Which::Daemon => {
                        self.state = PairState::BackingUp(Which::Agent);
                        PairNext::Step(PairStep::BackUp(Which::Agent))
                    },
                    Which::Agent => {
                        self.state = PairState::Writing(Which::Daemon);
                        PairNext::Step(PairStep::Write(Which::Daemon))
                    },
                }
            },
            PairState::Writing(which) => {
                if let Err(error) = result {
                    self.state = PairState::RestoringDaemon(error);
                    return PairNext::Step(PairStep::Restore(Which::Daemon));
                }
                match which {
                    Which::Daemon => {
                        self.state = PairState::Writing(Which::Agent);
                        PairNext::Step(PairStep::Write(Which::Agent))
                    },
                    Which::Agent => PairNext::Done,
                }
            },
            PairState::RestoringDaemon(error) => {
                self.state = PairState::RestoringAgent(error, result);
                PairNext::Step(PairStep::Restore(Which::Agent))
            },
            PairState::RestoringAgent(write, daemon) => {
                if daemon.is_ok() && result.is_ok() {
                    return PairNext::Failed(write);
                }
                let mut text: String = "plist write failed (".to_owned();
                text.append(write.as_str());
                text.append("); rollback results: daemon=");
                let shown = show_result(&daemon);
                text.append(shown.as_str());
                text.append(", agent=");
                let shown = show_result(&result);
                text.append(shown.as_str());
                PairNext::Failed(text)
            },
            PairState::Finished => PairNext::Done,
        }
    }
}

/// What stands at the two paths: the contents, or nothing.
pub struct Disk {
    pub daemon: Option<Seq<u8>>,
    pub agent: Option<Seq<u8>>,
}

/// The transaction together with what it works on.
pub struct PairRun {
    pub pair: PlistPair,
    pub disk: Disk,
    /// What stood there when the transaction began.
    pub before: Disk,
    /// The definitions to write.
    pub wanted: Disk,
}

impl Disk {
    pub open spec fn at(self, which: Which) -> Option<Seq<u8>> {
        match which {
            Which::Daemon => self.daemon,
            Which::Agent => self.agent,
        }
    }

    pub open spec fn with(self, which: Which, contents: Option<Seq<u8>>) -> Disk {
        match which {
            Which::Daemon => Disk { daemon: contents, agent: self.agent },
            Which::Agent => Disk { daemon: self.daemon, agent: contents },
        }
    }
}

impl PairRun {
    /// What a step may leave at the paths. A write that succeeds leaves the new
    /// contents, a restoring that succeeds the old ones; a step that fails may
    /// leave anything at the path it works on. Taking a backup changes nothing.
    pub open spec fn step_leaves(self, result: Result<(), String>, disk: Disk) -> bool {
        match self.pair.awaits() {
            None => disk == self.disk,
            Some(PairStep::BackUp(_)) => disk == self.disk,
            Some(PairStep::Write(which)) => exists|contents: Option<Seq<u8>>|
                disk == #[trigger] self.disk.with(which, contents) && (result is Ok ==> contents
                    == self.wanted.at(which)),
            Some(PairStep::Restore(which)) => exists|contents: Option<Seq<u8>>|
                disk == #[trigger] self.disk.with(which, contents) && (result is Ok ==> contents
                    == self.before.at(which)),
        }
    }

    /// The run after a step.
    pub open spec fn after(self, result: Result<(), String>, disk: Disk) -> PairRun {
        PairRun {
            pair: PlistPair { state: self.pair.state_after(result) },
            disk,
            before: self.before,
            wanted: self.wanted,
        }
    }

    /// What holds of the paths at each state of the transaction.
    pub open spec fn consistent(self) -> bool {
        match self.pair.state {
            PairState::BackingUp(_) => self.disk == self.before,
            PairState::Writing(Which::Daemon) => self.disk == self.before,
            PairState::Writing(Which::Agent) => self.disk.daemon == self.wanted.daemon
                && self.disk.agent == self.before.agent,
            PairState::RestoringAgent(_, daemon) => daemon is Ok ==> self.disk.daemon
                == self.before.daemon,
            _ => true,
        }
    }
}

/// Nothing is written before both backups are taken, and each step keeps what is
/// known of the two paths.
pub proof fn law_steps_stay_consistent(run: PairRun, result: Result<(), String>, disk: Disk)
    requires
        run.consistent(),
        run.step_leaves(result, disk),
    ensures
        run.after(result, disk).consistent(),
{
}

/// A transaction that ends well has written both definitions; one that could not
/// be written, and says so without a word of restoring, has put both back.
pub proof fn law_both_or_neither(run: PairRun, result: Result<(), String>, disk: Disk)
    requires
        run.consistent(),
        run.step_leaves(result, disk),
        run.pair.awaits() is Some,
        run.pair.state_after(result) is Finished,
    ensures
        run.pair.failure_after(result) is None ==> disk == run.wanted,
        run.pair.state is BackingUp ==> disk == run.before,
        run.pair.state matches PairState::RestoringAgent(write, daemon) ==> (daemon is Ok
            && result is Ok ==> disk == run.before && run.pair.failure_after(result) == Some(
            write@,
        )),
{
}

/// Each step brings the transaction nearer to its end.
pub proof fn law_pair_ends(pair: PlistPair, result: Result<(), String>)
    requires
        pair.awaits() is Some,
    ensures
        (PlistPair { state: pair.state_after(result) }).steps_left() < pair.steps_left(),
{
}

/// A definition is written step by step: into a new waiting file, with its mode before
/// its contents, on the disk before it is moved, and the directory last. Any failure
/// leads to the removal of the waiting file.
pub proof fn law_order_of_writing(step: WriteStep, success: bool)
    ensures
        ({
            let next = step.next(success);
            &&& next == WriteNext::Step(WriteStep::SetMode) <==> step == WriteStep::CreateTemporary
                && success
            &&& next == WriteNext::Step(WriteStep::WriteBody) <==> step == WriteStep::SetMode
                && success
            &&& next == WriteNext::Step(WriteStep::SyncFile) <==> step == WriteStep::WriteBody
                && success
            &&& next == WriteNext::Step(WriteStep::Rename) <==> step == WriteStep::SyncFile
                && success
            &&& next == WriteNext::Step(WriteStep::SyncDirectory) <==> step == WriteStep::Rename
                && success
            &&& next == WriteNext::Step(WriteStep::RemoveTemporary) <==> step
                != WriteStep::RemoveTemporary && !success
            &&& next is Done <==> step == WriteStep::RemoveTemporary || (step
                == WriteStep::SyncDirectory && success)
            &&& next != WriteNext::Step(WriteStep::CreateTemporary)
        }),
{
}

/// Both backups are taken before anything is written, the daemon's definition comes
/// before the agent's, and a failed write puts back both, whichever it was.
pub proof fn law_order_of_the_pair(pair: PlistPair, result: Result<(), String>, error: String)
    requires
        pair.awaits() is Some,
    ensures
        ({
            let now = pair.awaits()->0;
            let next = (PlistPair { state: pair.state_after(result) }).awaits();
            &&& now == PairStep::BackUp(Which::Daemon) && result is Ok ==> next == Some(
                PairStep::BackUp(Which::Agent),
            )
            &&& now == PairStep::BackUp(Which::Agent) && result is Ok ==> next == Some(
                PairStep::Write(Which::Daemon),
            )
            &&& now == PairStep::Write(Which::Daemon) && result is Ok ==> next == Some(
                PairStep::Write(Which::Agent),
            )
            &&& now == PairStep::Write(Which::Agent) && result is Ok ==> next is None
            &&& now is Write && result is Err ==> next == Some(PairStep::Restore(Which::Daemon))
            &&& now == PairStep::Restore(Which::Daemon) ==> next == Some(
                PairStep::Restore(Which::Agent),
            )
            &&& now == PairStep::Restore(Which::Agent) ==> next is None
            &&& now is BackUp && result is Err ==> next is None && pair.failure_after(result)
                == Some(result->Err_0@)
            &&& now is Write ==> pair.failure_after(result) is None
        }),
        pair_error(error@, Ok(()), Ok(())) == error@,
{
}

/// A definition that was there before is written back, whatever stands in its place; one
/// that was not there is removed, and nothing but a regular file ever is.
pub proof fn law_definitions_go_back(has_backup: bool, kind: Result<PathKind, String>)
    ensures
        restoring(has_backup, kind) == Some(PlistRestore::WriteBackup) <==> has_backup,
        restoring(has_backup, kind) == Some(PlistRestore::RemoveFile) <==> !has_backup && kind == Ok::<
            PathKind,
            String,
        >(PathKind::RegularFile),
        restoring(has_backup, kind) == Some(PlistRestore::Nothing) <==> !has_backup && kind == Ok::<
            PathKind,
            String,
        >(PathKind::Absent),
        restoring(has_backup, kind) is None <==> !has_backup && (kind is Err || kind == Ok::<
            PathKind,
            String,
        >(PathKind::Other)),
{
}

} // verus!
