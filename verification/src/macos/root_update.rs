//! The unattended update: what it checks, in which order, before its script runs.
use crate::macos::install::{agent_plist_file, app_bundle, daemon_plist_file};
use crate::macos::plists::PathKind;
use crate::macos::sessions::uid_list;
use crate::macos::update_script::{update_script, ScriptValues};
use crate::macos::update_tree::ensure_same_filesystem;
use crate::text::{same_text, trim};
use vstd::prelude::*;

verus! {

/// The directory that installed apps stand in.
pub const APPLICATIONS: &'static str = "/Applications";

/// How long the script's start is waited for, in seconds.
pub const SETTLE_SECS: u64 = 3;

/// How a text is shown with its quotes and escapes.
pub uninterp spec fn debug_shown(s: Seq<char>) -> Seq<char>;

/// `format!` with `{:?}` on a text: the text in quotes, with its special
/// characters escaped. What is escaped and how is only named.
#[verifier::external_body]
fn show_debug(s: &str) -> (r: String)
    ensures
        r@ == debug_shown(s@),
{
    format!("{:?}", s)
}

/// What a command left behind. Its output is a text, or the error of reading it as
/// one.
#[derive(Debug)]
pub struct CommandRun {
    pub success: bool,
    /// The exit status in words.
    pub status: String,
    pub stdout: Result<String, String>,
    pub stderr: String,
}

/// A step of the update, named by what it waits for.
#[derive(Clone, Copy, Debug, PartialEq, Eq, Structural)]
pub enum RootStep {
    MakeDirectory,
    CheckDirectory,
    HardenDirectory,
    CompareFilesystems,
    FirstSessions,
    Extract,
    ValidateTree,
    ReadVersion,
    ProbeBackup,
    ProbeFailed,
    ProbeTransaction,
    BackUpDaemon,
    BackUpAgent,
    ProbeService,
    SecondSessions,
    Wait,
    ThirdSessions,
    ListUsers,
    WriteScript,
    MakeExecutable,
    ListUsersAgain,
    LastSessions,
    Launch,
    /// The update failed, and its directory is removed.
    RemoveDirectory,
    Launched,
    Failed,
}

/// What a step came to.
#[derive(Debug)]
pub enum RootOutcome {
    Done,
    Error(String),
    Command(CommandRun),
    /// Whether what was looked for is there.
    Present(bool),
    /// The devices of the two directories.
    Devices(u64, u64),
    /// Whether nobody is connected.
    Idle(bool),
    Users(Vec<u32>),
}

impl RootStep {
    /// The step that follows when all is well.
    pub open spec fn follower(self) -> RootStep {
        match self {
            RootStep::MakeDirectory => RootStep::CheckDirectory,
            RootStep::CheckDirectory => RootStep::HardenDirectory,
            RootStep::HardenDirectory => RootStep::CompareFilesystems,
            RootStep::CompareFilesystems => RootStep::FirstSessions,
            RootStep::FirstSessions => RootStep::Extract,
            RootStep::Extract => RootStep::ValidateTree,
            RootStep::ValidateTree => RootStep::ReadVersion,
            RootStep::ReadVersion => RootStep::ProbeBackup,
            RootStep::ProbeBackup => RootStep::ProbeFailed,
            RootStep::ProbeFailed => RootStep::ProbeTransaction,
            RootStep::ProbeTransaction => RootStep::BackUpDaemon,
            RootStep::BackUpDaemon => RootStep::BackUpAgent,
            RootStep::BackUpAgent => RootStep::ProbeService,
            RootStep::ProbeService => RootStep::SecondSessions,
            RootStep::SecondSessions => RootStep::Wait,
            RootStep::Wait => RootStep::ThirdSessions,
            RootStep::ThirdSessions => RootStep::ListUsers,
            RootStep::ListUsers => RootStep::WriteScript,
            RootStep::WriteScript => RootStep::MakeExecutable,
            RootStep::MakeExecutable => RootStep::ListUsersAgain,
            RootStep::ListUsersAgain => RootStep::LastSessions,
            RootStep::LastSessions => RootStep::Launch,
            RootStep::Launch => RootStep::Launched,
            RootStep::RemoveDirectory => RootStep::Failed,
            RootStep::Launched => RootStep::Launched,
            RootStep::Failed => RootStep::Failed,
        }
    }

    fn next(self) -> (r: RootStep)
        ensures
            r == self.follower(),
    {
        match self {
            RootStep::MakeDirectory => RootStep::CheckDirectory,
            RootStep::CheckDirectory => RootStep::HardenDirectory,
            RootStep::HardenDirectory => RootStep::CompareFilesystems,
            RootStep::CompareFilesystems => RootStep::FirstSessions,
            RootStep::FirstSessions => RootStep::Extract,
            RootStep::Extract => RootStep::ValidateTree,
            RootStep::ValidateTree => RootStep::ReadVersion,
            RootStep::ReadVersion => RootStep::ProbeBackup,
            RootStep::ProbeBackup => RootStep::ProbeFailed,
            RootStep::ProbeFailed => RootStep::ProbeTransaction,
            RootStep::ProbeTransaction => RootStep::BackUpDaemon,
            RootStep::BackUpDaemon => RootStep::BackUpAgent,
            RootStep::BackUpAgent => RootStep::ProbeService,
            RootStep::ProbeService => RootStep::SecondSessions,
            RootStep::SecondSessions => RootStep::Wait,
            RootStep::Wait => RootStep::ThirdSessions,
            RootStep::ThirdSessions => RootStep::ListUsers,
            RootStep::ListUsers => RootStep::WriteScript,
            RootStep::WriteScript => RootStep::MakeExecutable,
            RootStep::MakeExecutable => RootStep::ListUsersAgain,
            RootStep::ListUsersAgain => RootStep::LastSessions,
            RootStep::LastSessions => RootStep::Launch,
            RootStep::Launch => RootStep::Launched,
            RootStep::RemoveDirectory => RootStep::Failed,
            RootStep::Launched => RootStep::Launched,
            RootStep::Failed => RootStep::Failed,
        }
    }

    /// The update waits for something at this step.
    pub open spec fn waits(self) -> bool {
        self != RootStep::Launched && self != RootStep::Failed
    }

    /// The update's directory is there, and is removed if the update fails.
    pub open spec fn owns_directory(self) -> bool {
        self.waits() && self != RootStep::MakeDirectory && self != RootStep::CheckDirectory && self
            != RootStep::RemoveDirectory
    }

    /// The step can come to this.
    pub open spec fn can_give(self, outcome: RootOutcome) -> bool {
        match self {
            RootStep::MakeDirectory | RootStep::ReadVersion | RootStep::MakeExecutable =>
                outcome is Command || outcome is Error,
            RootStep::CheckDirectory
            | RootStep::ProbeBackup
            | RootStep::ProbeFailed
            | RootStep::ProbeTransaction => outcome is Present || outcome is Error,
            RootStep::ProbeService => outcome is Present,
            RootStep::CompareFilesystems => outcome is Devices || outcome is Error,
            RootStep::FirstSessions
            | RootStep::SecondSessions
            | RootStep::ThirdSessions
            | RootStep::LastSessions => outcome is Idle,
            RootStep::ListUsers | RootStep::ListUsersAgain => outcome is Users,
            RootStep::HardenDirectory
            | RootStep::Extract
            | RootStep::ValidateTree
            | RootStep::BackUpDaemon
            | RootStep::BackUpAgent
            | RootStep::WriteScript
            | RootStep::Launch => outcome is Done || outcome is Error,
            RootStep::Wait => outcome is Done,
            RootStep::RemoveDirectory => outcome is Done || outcome is Error,
            RootStep::Launched | RootStep::Failed => false,
        }
    }

    /// How many steps may still follow, this one counted.
    pub open spec fn steps_left(self) -> nat {
        match self {
            RootStep::MakeDirectory => 25,
            RootStep::CheckDirectory => 24,
            RootStep::HardenDirectory => 23,
            RootStep::CompareFilesystems => 22,
            RootStep::FirstSessions => 21,
            RootStep::Extract => 20,
            RootStep::ValidateTree => 19,
            RootStep::ReadVersion => 18,
            RootStep::ProbeBackup => 17,
            RootStep::ProbeFailed => 16,
            RootStep::ProbeTransaction => 15,
            RootStep::BackUpDaemon => 14,
            RootStep::BackUpAgent => 13,
            RootStep::ProbeService => 12,
            RootStep::SecondSessions => 11,
            RootStep::Wait => 10,
            RootStep::ThirdSessions => 9,
            RootStep::ListUsers => 8,
            RootStep::WriteScript => 7,
            RootStep::MakeExecutable => 6,
            RootStep::ListUsersAgain => 5,
            RootStep::LastSessions => 4,
            RootStep::Launch => 3,
            RootStep::RemoveDirectory => 1,
            RootStep::Launched => 0,
            RootStep::Failed => 0,
        }
    }
}

/// The new bundle in the update's directory.
pub open spec fn source_app(tmp_dir: Seq<char>, app_name: Seq<char>) -> Seq<char> {
    tmp_dir + "/"@ + app_name + ".app"@
}

/// The directory in which the helper is exchanged.
pub open spec fn transaction_path(app_name: Seq<char>) -> Seq<char> {
    "/Library/PrivilegedHelperTools/.com.carriez."@ + app_name + "_service.root-update"@
}

/// The bundle of the installed helper.
pub open spec fn installed_helper(app_name: Seq<char>) -> Seq<char> {
    "/Library/PrivilegedHelperTools/com.carriez."@ + app_name + "_service.bundle"@
}

/// The organisation's name with the app's.
pub open spec fn carriez_name(app_name: Seq<char>) -> Seq<char> {
    "com.carriez."@ + app_name
}

fn join2(a: &str, b: &str) -> (r: String)
    ensures
        r@ == a@ + b@,
{
    let mut text: String = a.to_owned();
    text.append(b);
    text
}

fn join3(a: &str, b: &str, c: &str) -> (r: String)
    ensures
        r@ == a@ + b@ + c@,
{
    let mut text: String = a.to_owned();
    text.append(b);
    text.append(c);
    text
}

fn source_app_path(tmp_dir: &str, app_name: &str) -> (r: String)
    ensures
        r@ == source_app(tmp_dir@, app_name@),
{
    let mut path = join3(tmp_dir, "/", app_name);
    path.append(".app");
    path
}

/// The values say what an update is about.
pub open spec fn values_for(
    values: ScriptValues,
    app_name: Seq<char>,
    tmp_dir: Seq<char>,
    uids: Seq<u32>,
) -> bool {
    &&& values.app_name@ == app_name
    &&& values.app_bundle@ == crate::macos::install::app_bundle_path(app_name)
    &&& values.app_backup@ == tmp_dir + "/previous.app"@
    &&& values.failed_bundle@ == tmp_dir + "/failed.app"@
    &&& values.src_app@ == source_app(tmp_dir, app_name)
    &&& values.uid_list@ == crate::macos::sessions::spaced(uids)
    &&& values.daemon_plist@ == crate::macos::install::daemon_plist_path(carriez_name(app_name))
    &&& values.agent_plist@ == crate::macos::install::agent_plist_path(carriez_name(app_name))
    &&& values.tmp_dir@ == tmp_dir
    &&& values.daemon_label@ == carriez_name(app_name) + "_service"@
    &&& values.agent_label@ == carriez_name(app_name) + "_server"@
    &&& values.daemon_plist_bak@ == tmp_dir + "/daemon_plist.bak"@
    &&& values.agent_plist_bak@ == tmp_dir + "/agent_plist.bak"@
    &&& values.helper_bundle@ == installed_helper(app_name)
    &&& values.helper_service@ == installed_helper(app_name) + "/Contents/MacOS/service"@
    &&& values.helper_transaction@ == transaction_path(app_name)
    &&& values.helper_backup@ == transaction_path(app_name) + "/previous.bundle"@
    &&& values.helper_staging@ == transaction_path(app_name) + "/staged.bundle"@
    &&& values.helper_failed@ == transaction_path(app_name) + "/failed.bundle"@
}

/// What an update of an app is about, for the users that are logged in.
pub fn script_values(app_name: &str, tmp_dir: &str, uids: &Vec<u32>) -> (r: ScriptValues)
    ensures
        values_for(r, app_name@, tmp_dir@, uids@),
{
    let full_name = join2("com.carriez.", app_name);
    let helper_bundle = join3(
        "/Library/PrivilegedHelperTools/com.carriez.",
        app_name,
        "_service.bundle",
    );
    let transaction = join3(
        "/Library/PrivilegedHelperTools/.com.carriez.",
        app_name,
        "_service.root-update",
    );
    ScriptValues {
        app_name: app_name.to_owned(),
        app_bundle: app_bundle(app_name),
        app_backup: join2(tmp_dir, "/previous.app"),
        failed_bundle: join2(tmp_dir, "/failed.app"),
        src_app: source_app_path(tmp_dir, app_name),
        uid_list: uid_list(uids),
        daemon_plist: daemon_plist_file(full_name.as_str()),
        agent_plist: agent_plist_file(full_name.as_str()),
        tmp_dir: tmp_dir.to_owned(),
        daemon_label: join2(full_name.as_str(), "_service"),
        agent_label: join2(full_name.as_str(), "_server"),
        daemon_plist_bak: join2(tmp_dir, "/daemon_plist.bak"),
        agent_plist_bak: join2(tmp_dir, "/agent_plist.bak"),
        helper_service: join2(helper_bundle.as_str(), "/Contents/MacOS/service"),
        helper_bundle,
        helper_backup: join2(transaction.as_str(), "/previous.bundle"),
        helper_staging: join2(transaction.as_str(), "/staged.bundle"),
        helper_failed: join2(transaction.as_str(), "/failed.bundle"),
        helper_transaction: transaction,
    }
}

/// The directory that a command made, or why there is none.
pub open spec fn made_directory(run: CommandRun) -> Result<Seq<char>, Seq<char>> {
    if !run.success {
        Err(
            "[root-update] failed to create preparation directory: "@ + crate::text::trimmed(
                run.stderr@,
            ),
        )
    } else {
        match run.stdout {
            Err(e) => Err("[root-update] mktemp output error: "@ + e@),
            Ok(text) => if crate::text::trimmed(text@).len() == 0 {
                Err("[root-update] Failed to create temp directory"@)
            } else {
                Ok(crate::text::trimmed(text@))
            },
        }
    }
}

/// The directory that a command made, or why there is none.
pub fn preparation_directory(run: &CommandRun) -> (r: Result<String, String>)
    ensures
        match made_directory(*run) {
            Ok(dir) => r matches Ok(d) && d@ == dir,
            Err(error) => r matches Err(e) && e@ == error,
        },
{
    if !run.success {
        let stderr = trim(run.stderr.as_str());
        return Err(
            join2("[root-update] failed to create preparation directory: ", stderr.as_str()),
        );
    }
    match &run.stdout {
        Err(e) => Err(join2("[root-update] mktemp output error: ", e.as_str())),
        Ok(text) => {
            let dir = trim(text.as_str());
            if dir.as_str().is_empty() {
                Err("[root-update] Failed to create temp directory".to_owned())
            } else {
                Ok(dir)
            }
        },
    }
}

/// The version that a command read from the new bundle, or why there is none.
pub open spec fn staged_version(run: CommandRun) -> Result<Seq<char>, Seq<char>> {
    if !run.success {
        Err(
            "[root-update] failed to read staged bundle version: "@ + crate::text::trimmed(
                run.stderr@,
            ),
        )
    } else {
        match run.stdout {
            Err(e) => Err("[root-update] staged bundle version is not UTF-8: "@ + e@),
            Ok(text) => if crate::text::trimmed(text@).len() == 0 {
                Err("[root-update] staged bundle version is empty"@)
            } else {
                Ok(crate::text::trimmed(text@))
            },
        }
    }
}

/// Accepts the new bundle only if its version is the expected one.
pub fn check_staged_version(run: &CommandRun, expected: &str) -> (r: Result<(), String>)
    ensures
        match staged_version(*run) {
            Err(error) => r matches Err(e) && e@ == error,
            Ok(version) => if version == expected@ {
                r is Ok
            } else {
                r matches Err(e) && e@ == version_mismatch(expected@, version)
            },
        },
{
    if !run.success {
        let stderr = trim(run.stderr.as_str());
        return Err(join2("[root-update] failed to read staged bundle version: ", stderr.as_str()));
    }
    match &run.stdout {
        Err(e) => Err(join2("[root-update] staged bundle version is not UTF-8: ", e.as_str())),
        Ok(text) => {
            let version = trim(text.as_str());
            if version.as_str().is_empty() {
                return Err("[root-update] staged bundle version is empty".to_owned());
            }
            if same_text(version.as_str(), expected) {
                return Ok(());
            }
            let shown_expected = show_debug(expected);
            let shown_version = show_debug(version.as_str());
            let mut text = join3(
                "[root-update] staged bundle version mismatch: expected ",
                shown_expected.as_str(),
                ", found ",
            );
            text.append(shown_version.as_str());
            Err(text)
        },
    }
}

/// How a wrong version is reported.
pub open spec fn version_mismatch(expected: Seq<char>, found: Seq<char>) -> Seq<char> {
    "[root-update] staged bundle version mismatch: expected "@ + debug_shown(expected)
        + ", found "@ + debug_shown(found)
}

/// Whether an installed definition can be backed up: it must be a regular file.
pub fn backup_update_plist(source: &str, kind: Result<PathKind, String>) -> (r: Result<(), String>)
    ensures
        match kind {
            Ok(PathKind::RegularFile) => r is Ok,
            Ok(PathKind::Other) => r matches Err(e) && e@
                == "[root-update] plist is not a regular file: "@ + source@,
            Ok(PathKind::Absent) => r matches Err(e) && e@
                == "[root-update] required installed plist is missing: "@ + source@,
            Err(error) => r == Err::<(), String>(error),
        },
{
    match kind {
        Ok(PathKind::RegularFile) => Ok(()),
        Ok(PathKind::Other) => Err(join2("[root-update] plist is not a regular file: ", source)),
        Ok(PathKind::Absent) => Err(
            join2("[root-update] required installed plist is missing: ", source),
        ),
        Err(error) => Err(error),
    }
}

/// An image is unpacked only into a directory that is there.
pub fn extract_dmg_into_existing_dir(target_dir: &str, exists: bool) -> (r: Result<(), String>)
    ensures
        match r {
            Ok(()) => exists,
            Err(e) => !exists && e@ == "[root-update] Temp directory does not exist: "@
                + debug_shown(target_dir@),
        },
{
    if exists {
        Ok(())
    } else {
        let shown = show_debug(target_dir);
        Err(join2("[root-update] Temp directory does not exist: ", shown.as_str()))
    }
}

fn same_users(a: &Vec<u32>, b: &Vec<u32>) -> (r: bool)
    ensures
        r == (a@ == b@),
{
    if a.len() != b.len() {
        return false;
    }
    let mut i: usize = 0;
    while i < a.len()
        invariant
            a.len() == b.len(),
            i <= a.len(),
            forall|k: int| 0 <= k < i ==> a@[k] == b@[k],
        decreases a.len() - i,
    {
        if a[i] != b[i] {
            assert(a@[i as int] != b@[i as int]);
            return false;
        }
        i = i + 1;
    }
    assert(a@ =~= b@);
    true
}

/// What the update asks for.
#[derive(Debug)]
pub enum RootRequest {
    /// Make a fresh directory that only root can use.
    MakeDirectory,
    /// Tell whether the path is a directory, links not followed.
    CheckDirectory(String),
    HardenDirectory(String),
    /// Tell the devices of this directory and of the one of installed apps.
    CompareFilesystems(String),
    /// Tell whether nobody is connected.
    AskSessions,
    Extract { dmg: String, into: String },
    ValidateTree(String),
    /// Read the version from the property list of the new bundle.
    ReadVersion(String),
    /// Tell whether something stands at the path.
    Probe(String),
    BackUp { source: String, backup: String },
    /// Tell whether a file stands at the path.
    ProbeFile(String),
    Wait,
    ListUsers,
    WriteScript { path: String, text: String },
    MakeExecutable(String),
    /// Start the script by itself.
    Launch(String),
    RemoveDirectory(String),
}

/// The view of what the update asks for.
pub enum RootRequestView {
    MakeDirectory,
    CheckDirectory(Seq<char>),
    HardenDirectory(Seq<char>),
    CompareFilesystems(Seq<char>),
    AskSessions,
    Extract { dmg: Seq<char>, into: Seq<char> },
    ValidateTree(Seq<char>),
    ReadVersion(Seq<char>),
    Probe(Seq<char>),
    BackUp { source: Seq<char>, backup: Seq<char> },
    ProbeFile(Seq<char>),
    Wait,
    ListUsers,
    WriteScript { path: Seq<char> },
    MakeExecutable(Seq<char>),
    Launch(Seq<char>),
    RemoveDirectory(Seq<char>),
}

impl RootRequest {
    /// The request without the text of the script.
    pub open spec fn view(self) -> RootRequestView {
        match self {
            RootRequest::MakeDirectory => RootRequestView::MakeDirectory,
            RootRequest::CheckDirectory(p) => RootRequestView::CheckDirectory(p@),
            RootRequest::HardenDirectory(p) => RootRequestView::HardenDirectory(p@),
            RootRequest::CompareFilesystems(p) => RootRequestView::CompareFilesystems(p@),
            RootRequest::AskSessions => RootRequestView::AskSessions,
            RootRequest::Extract { dmg, into } => RootRequestView::Extract {
                dmg: dmg@,
                into: into@,
            },
            RootRequest::ValidateTree(p) => RootRequestView::ValidateTree(p@),
            RootRequest::ReadVersion(p) => RootRequestView::ReadVersion(p@),
            RootRequest::Probe(p) => RootRequestView::Probe(p@),
            RootRequest::BackUp { source, backup } => RootRequestView::BackUp {
                source: source@,
                backup: backup@,
            },
            RootRequest::ProbeFile(p) => RootRequestView::ProbeFile(p@),
            RootRequest::Wait => RootRequestView::Wait,
            RootRequest::ListUsers => RootRequestView::ListUsers,
            RootRequest::WriteScript { path, text } => RootRequestView::WriteScript {
                path: path@,
            },
            RootRequest::MakeExecutable(p) => RootRequestView::MakeExecutable(p@),
            RootRequest::Launch(p) => RootRequestView::Launch(p@),
            RootRequest::RemoveDirectory(p) => RootRequestView::RemoveDirectory(p@),
        }
    }
}

/// The unattended update.
#[derive(Debug)]
pub struct RootUpdate {
    pub app_name: String,
    pub dmg_path: String,
    pub expected_version: String,
    /// The update's directory, once it is made.
    pub tmp_dir: String,
    /// The users that the script stops and starts, once they are listed.
    pub uids: Vec<u32>,
    pub step: RootStep,
    /// Why the update failed.
    pub error: Option<String>,
}

impl RootUpdate {
    /// What the update asks for at its step.
    pub open spec fn request_view(self) -> Option<RootRequestView> {
        let tmp = self.tmp_dir@;
        let app = self.app_name@;
        let full_name = carriez_name(app);
        let script = tmp + "/rustdesk_update.sh"@;
        match self.step {
            RootStep::MakeDirectory => Some(RootRequestView::MakeDirectory),
            RootStep::CheckDirectory => Some(RootRequestView::CheckDirectory(tmp)),
            RootStep::HardenDirectory => Some(RootRequestView::HardenDirectory(tmp)),
            RootStep::CompareFilesystems => Some(RootRequestView::CompareFilesystems(tmp)),
            RootStep::FirstSessions
            | RootStep::SecondSessions
            | RootStep::ThirdSessions
            | RootStep::LastSessions => Some(RootRequestView::AskSessions),
            RootStep::Extract => Some(RootRequestView::Extract { dmg: self.dmg_path@, into: tmp }),
            RootStep::ValidateTree => Some(RootRequestView::ValidateTree(source_app(tmp, app))),
            RootStep::ReadVersion => Some(
                RootRequestView::ReadVersion(source_app(tmp, app) + "/Contents/Info.plist"@),
            ),
            RootStep::ProbeBackup => Some(RootRequestView::Probe(tmp + "/previous.app"@)),
            RootStep::ProbeFailed => Some(RootRequestView::Probe(tmp + "/failed.app"@)),
            RootStep::ProbeTransaction => Some(RootRequestView::Probe(transaction_path(app))),
            RootStep::BackUpDaemon => Some(
                RootRequestView::BackUp {
                    source: crate::macos::install::daemon_plist_path(full_name),
                    backup: tmp + "/daemon_plist.bak"@,
                },
            ),
            RootStep::BackUpAgent => Some(
                RootRequestView::BackUp {
                    source: crate::macos::install::agent_plist_path(full_name),
                    backup: tmp + "/agent_plist.bak"@,
                },
            ),
            RootStep::ProbeService => Some(
                RootRequestView::ProbeFile(source_app(tmp, app) + "/Contents/MacOS/service"@),
            ),
            RootStep::Wait => Some(RootRequestView::Wait),
            RootStep::ListUsers | RootStep::ListUsersAgain => Some(RootRequestView::ListUsers),
            RootStep::WriteScript => Some(RootRequestView::WriteScript { path: script }),
            RootStep::MakeExecutable => Some(RootRequestView::MakeExecutable(script)),
            RootStep::Launch => Some(RootRequestView::Launch(script)),
            RootStep::RemoveDirectory => Some(RootRequestView::RemoveDirectory(tmp)),
            RootStep::Launched | RootStep::Failed => None,
        }
    }

    /// What is wrong with what the step came to.
    pub open spec fn trouble(self, outcome: RootOutcome) -> Option<Seq<char>> {
        if self.step == RootStep::RemoveDirectory {
            None
        } else {
            match outcome {
                RootOutcome::Error(e) => Some(e@),
                RootOutcome::Done => None,
                RootOutcome::Command(run) => self.command_trouble(run),
                RootOutcome::Present(there) => self.presence_trouble(there),
                RootOutcome::Devices(left, right) => if left == right {
                    None
                } else {
                    Some(
                        "[root-update] atomic bundle swap requires one filesystem: "@
                            + self.tmp_dir@ + " and "@ + APPLICATIONS@,
                    )
                },
                RootOutcome::Idle(idle) => if idle {
                    None
                } else {
                    Some(self.session_complaint())
                },
                RootOutcome::Users(uids) => if self.step == RootStep::ListUsersAgain && uids@
                    != self.uids@ {
                    Some("[root-update] GUI session set changed before update launch"@)
                } else {
                    None
                },
            }
        }
    }

    /// What is wrong with a command that ran.
    pub open spec fn command_trouble(self, run: CommandRun) -> Option<Seq<char>> {
        match self.step {
            RootStep::MakeDirectory => match made_directory(run) {
                Ok(_) => None,
                Err(e) => Some(e),
            },
            RootStep::ReadVersion => match staged_version(run) {
                Err(e) => Some(e),
                Ok(version) => if version == self.expected_version@ {
                    None
                } else {
                    Some(version_mismatch(self.expected_version@, version))
                },
            },
            _ => if run.success {
                None
            } else {
                Some("[root-update] failed to make update script executable: "@ + run.status@)
            },
        }
    }

    /// What is wrong with what is there, or is not.
    pub open spec fn presence_trouble(self, there: bool) -> Option<Seq<char>> {
        let stale = "[root-update] stale update recovery path requires inspection: "@;
        match self.step {
            RootStep::CheckDirectory => if there {
                None
            } else {
                Some("[root-update] preparation path is not a real directory"@)
            },
            RootStep::ProbeService => if there {
                None
            } else {
                Some(
                    "[root-update] staged service binary is missing: "@ + source_app(
                        self.tmp_dir@,
                        self.app_name@,
                    ) + "/Contents/MacOS/service"@,
                )
            },
            _ => if !there {
                None
            } else {
                match self.step {
                    RootStep::ProbeBackup => Some(stale + (self.tmp_dir@ + "/previous.app"@)),
                    RootStep::ProbeFailed => Some(stale + (self.tmp_dir@ + "/failed.app"@)),
                    _ => Some(stale + transaction_path(self.app_name@)),
                }
            },
        }
    }

    /// How a connection is reported that stands in the way.
    pub open spec fn session_complaint(self) -> Seq<char> {
        match self.step {
            RootStep::FirstSessions =>
                "[root-update] Active session detected, deferring update."@,
            RootStep::SecondSessions =>
                "[root-update] Active session detected after extraction, deferring update."@,
            _ => "[root-update] active session started before update launch"@,
        }
    }

    /// The step after what this one came to.
    pub open spec fn step_after(self, outcome: RootOutcome) -> RootStep {
        if self.trouble(outcome) is None {
            self.step.follower()
        } else if self.step.owns_directory() {
            RootStep::RemoveDirectory
        } else {
            RootStep::Failed
        }
    }

    /// The update's directory after what the step came to.
    pub open spec fn directory_after(self, outcome: RootOutcome) -> Seq<char> {
        match outcome {
            RootOutcome::Command(run) => if self.step == RootStep::MakeDirectory {
                match made_directory(run) {
                    Ok(dir) => dir,
                    Err(_) => self.tmp_dir@,
                }
            } else {
                self.tmp_dir@
            },
            _ => self.tmp_dir@,
        }
    }

    /// The listed users after what the step came to.
    pub open spec fn users_after(self, outcome: RootOutcome) -> Seq<u32> {
        match outcome {
            RootOutcome::Users(uids) => if self.step == RootStep::ListUsers {
                uids@
            } else {
                self.uids@
            },
            _ => self.uids@,
        }
    }

    /// Begins the update of an app from an image whose version is expected.
    /// `name_check` is what the rules for names of installed apps say of the name.
    pub fn update_from_dmg_as_root(
        app_name: &str,
        name_check: Result<(), String>,
        dmg_path: &str,
        expected_version: &str,
    ) -> (r: Result<RootUpdate, String>)
        ensures
            match name_check {
                Err(e) => r == Err::<RootUpdate, String>(e),
                Ok(()) => r matches Ok(update) && update.app_name@ == app_name@
                    && update.dmg_path@ == dmg_path@ && update.expected_version@
                    == expected_version@ && update.step == RootStep::MakeDirectory && update.error
                    is None && update.uids@.len() == 0 && update.tmp_dir@.len() == 0,
            },
    {
        if let Err(e) = name_check {
            return Err(e);
        }
        Ok(
            RootUpdate {
                app_name: app_name.to_owned(),
                dmg_path: dmg_path.to_owned(),
                expected_version: expected_version.to_owned(),
                tmp_dir: String::new(),
                uids: Vec::new(),
                step: RootStep::MakeDirectory,
                error: None,
            },
        )
    }

    fn script_path(&self) -> (r: String)
        ensures
            r@ == self.tmp_dir@ + "/rustdesk_update.sh"@,
    {
        join2(self.tmp_dir.as_str(), "/rustdesk_update.sh")
    }

    fn source(&self) -> (r: String)
        ensures
            r@ == source_app(self.tmp_dir@, self.app_name@),
    {
        source_app_path(self.tmp_dir.as_str(), self.app_name.as_str())
    }

    fn transaction(&self) -> (r: String)
        ensures
            r@ == transaction_path(self.app_name@),
    {
        join3(
            "/Library/PrivilegedHelperTools/.com.carriez.",
            self.app_name.as_str(),
            "_service.root-update",
        )
    }

    /// What the update asks for. The script that it asks to write swaps in the new
    /// bundle for the listed users.
    pub fn request(&self) -> (r: Option<RootRequest>)
        ensures
            match r {
                Some(request) => self.request_view() == Some(request.view()),
                None => self.request_view() is None,
            },
            r matches Some(RootRequest::WriteScript { path, text }) ==> exists|
                values: ScriptValues,
            | #[trigger]
                values_for(values, self.app_name@, self.tmp_dir@, self.uids@) && text@
                    == crate::macos::update_script::script_view(values),
    {
        let tmp = self.tmp_dir.as_str();
        match self.step {
            RootStep::MakeDirectory => Some(RootRequest::MakeDirectory),
            RootStep::CheckDirectory => Some(RootRequest::CheckDirectory(tmp.to_owned())),
            RootStep::HardenDirectory => Some(RootRequest::HardenDirectory(tmp.to_owned())),
            RootStep::CompareFilesystems => Some(RootRequest::CompareFilesystems(tmp.to_owned())),
            RootStep::FirstSessions
            | RootStep::SecondSessions
            | RootStep::ThirdSessions
            | RootStep::LastSessions => Some(RootRequest::AskSessions),
            RootStep::Extract => Some(
                RootRequest::Extract {
                    dmg: self.dmg_path.as_str().to_owned(),
                    into: tmp.to_owned(),
                },
            ),
            RootStep::ValidateTree => Some(RootRequest::ValidateTree(self.source())),
            RootStep::ReadVersion => {
                let source = self.source();
                Some(RootRequest::ReadVersion(join2(source.as_str(), "/Contents/Info.plist")))
            },
            RootStep::ProbeBackup => Some(RootRequest::Probe(join2(tmp, "/previous.app"))),
            RootStep::ProbeFailed => Some(RootRequest::Probe(join2(tmp, "/failed.app"))),
            RootStep::ProbeTransaction => Some(RootRequest::Probe(self.transaction())),
            RootStep::BackUpDaemon => {
                let full_name = join2("com.carriez.", self.app_name.as_str());
                Some(
                    RootRequest::BackUp {
                        source: daemon_plist_file(full_name.as_str()),
                        backup: join2(tmp, "/daemon_plist.bak"),
                    },
                )
            },
            RootStep::BackUpAgent => {
                let full_name = join2("com.carriez.", self.app_name.as_str());
                Some(
                    RootRequest::BackUp {
                        source: agent_plist_file(full_name.as_str()),
                        backup: join2(tmp, "/agent_plist.bak"),
                    },
                )
            },
            RootStep::ProbeService => {
                let source = self.source();
                Some(RootRequest::ProbeFile(join2(source.as_str(), "/Contents/MacOS/service")))
            },
            RootStep::Wait => Some(RootRequest::Wait),
            RootStep::ListUsers | RootStep::ListUsersAgain => Some(RootRequest::ListUsers),
            RootStep::WriteScript => {
                let values = script_values(self.app_name.as_str(), tmp, &self.uids);
                let text = update_script(&values);
                Some(RootRequest::WriteScript { path: self.script_path(), text })
            },
            RootStep::MakeExecutable => Some(RootRequest::MakeExecutable(self.script_path())),
            RootStep::Launch => Some(RootRequest::Launch(self.script_path())),
            RootStep::RemoveDirectory => Some(RootRequest::RemoveDirectory(tmp.to_owned())),
            RootStep::Launched | RootStep::Failed => None,
        }
    }

    fn check_command(&self, run: &CommandRun) -> (r: Result<(), String>)
        ensures
            match r {
                Ok(()) => self.command_trouble(*run) is None,
                Err(e) => self.command_trouble(*run) == Some(e@),
            },
    {
        match self.step {
            RootStep::MakeDirectory => match preparation_directory(run) {
                Ok(_) => Ok(()),
                Err(e) => Err(e),
            },
            RootStep::ReadVersion => check_staged_version(run, self.expected_version.as_str()),
            _ => {
                if run.success {
                    Ok(())
                } else {
                    Err(
                        join2(
                            "[root-update] failed to make update script executable: ",
                            run.status.as_str(),
                        ),
                    )
                }
            },
        }
    }

    fn check_presence(&self, there: bool) -> (r: Result<(), String>)
        ensures
            match r {
                Ok(()) => self.presence_trouble(there) is None,
                Err(e) => self.presence_trouble(there) == Some(e@),
            },
    {
        match self.step {
            RootStep::CheckDirectory => {
                if there {
                    Ok(())
                } else {
                    Err("[root-update] preparation path is not a real directory".to_owned())
                }
            },
            RootStep::ProbeService => {
                if there {
                    Ok(())
                } else {
                    let source = self.source();
                    Err(
                        join3(
                            "[root-update] staged service binary is missing: ",
                            source.as_str(),
                            "/Contents/MacOS/service",
                        ),
                    )
                }
            },
            _ => {
                if !there {
                    return Ok(());
                }
                let path = match self.step {
                    RootStep::ProbeBackup => join2(self.tmp_dir.as_str(), "/previous.app"),
                    RootStep::ProbeFailed => join2(self.tmp_dir.as_str(), "/failed.app"),
                    _ => self.transaction(),
                };
                Err(
                    join2(
                        "[root-update] stale update recovery path requires inspection: ",
                        path.as_str(),
                    ),
                )
            },
        }
    }

    fn check(&self, outcome: &RootOutcome) -> (r: Result<(), String>)
        ensures
            match r {
                Ok(()) => self.trouble(*outcome) is None,
                Err(e) => self.trouble(*outcome) == Some(e@),
            },
    {
        if let RootStep::RemoveDirectory = self.step {
            return Ok(());
        }
        match outcome {
            RootOutcome::Error(e) => Err(e.clone()),
            RootOutcome::Done => Ok(()),
            RootOutcome::Command(run) => self.check_command(run),
            RootOutcome::Present(there) => self.check_presence(*there),
            RootOutcome::Devices(left, right) => ensure_same_filesystem(
                self.tmp_dir.as_str(),
                *left,
                APPLICATIONS,
                *right,
            ),
            RootOutcome::Idle(idle) => {
                if *idle {
                    return Ok(());
                }
                match self.step {
                    RootStep::FirstSessions => Err(
                        "[root-update] Active session detected, deferring update.".to_owned(),
                    ),
                    RootStep::SecondSessions => Err(
                        "[root-update] Active session detected after extraction, deferring update.".to_owned(),
                    ),
                    _ => Err(
                        "[root-update] active session started before update launch".to_owned(),
                    ),
                }
            },
            RootOutcome::Users(uids) => {
                if let RootStep::ListUsersAgain = self.step {
                    if !same_users(uids, &self.uids) {
                        return Err(
                            "[root-update] GUI session set changed before update launch".to_owned(),
                        );
                    }
                }
                Ok(())
            },
        }
    }

    /// Takes what the step came to, and goes on: to the next step, or to the
    /// removal of the update's directory where something is wrong.
    pub fn resume(&mut self, outcome: RootOutcome)
        requires
            old(self).step.can_give(outcome),
        ensures
            final(self).step == old(self).step_after(outcome),
            final(self).app_name == old(self).app_name,
            final(self).dmg_path == old(self).dmg_path,
            final(self).expected_version == old(self).expected_version,
            final(self).tmp_dir@ == old(self).directory_after(outcome),
            final(self).uids@ == old(self).users_after(outcome),
            match old(self).trouble(outcome) {
                Some(error) => final(self).error matches Some(e) && e@ == error,
                None => final(self).error == old(self).error,
            },
    {
        let owned = match self.step {
            RootStep::MakeDirectory => false,
            RootStep::CheckDirectory => false,
            RootStep::RemoveDirectory => false,
            RootStep::Launched => false,
            RootStep::Failed => false,
            _ => true,
        };
        if let Err(e) = self.check(&outcome) {
            self.error = Some(e);
            self.step = if owned {
                RootStep::RemoveDirectory
            } else {
                RootStep::Failed
            };
            return ;
        }
        match outcome {
            RootOutcome::Command(run) => {
                if let RootStep::MakeDirectory = self.step {
                    if let Ok(dir) = preparation_directory(&run) {
                        self.tmp_dir = dir;
                    }
                }
            },
            RootOutcome::Users(uids) => {
                if let RootStep::ListUsers = self.step {
                    self.uids = uids;
                }
            },
            _ => {},
        }
        self.step = self.step.next();
    }
}

/// Each step brings the update nearer to its end.
pub proof fn law_update_ends(update: RootUpdate, outcome: RootOutcome)
    requires
        update.step.can_give(outcome),
    ensures
        update.step_after(outcome).steps_left() < update.step.steps_left(),
{
}

/// The script is started only right after nobody was found connected, and only
/// where the users are still those that it was written for.
pub proof fn law_launch_needs_idle_sessions(update: RootUpdate, outcome: RootOutcome)
    requires
        update.step.can_give(outcome),
    ensures
        update.step_after(outcome) == RootStep::Launch ==> outcome == RootOutcome::Idle(true),
        update.step_after(outcome) == RootStep::LastSessions ==> (outcome matches RootOutcome::Users(
            uids,
        ) && uids@ == update.uids@),
{
}

/// Nothing of the installed app is touched before the new bundle has the expected
/// version.
pub proof fn law_version_comes_first(update: RootUpdate, outcome: RootOutcome)
    requires
        update.step.can_give(outcome),
    ensures
        update.step_after(outcome) == RootStep::ProbeBackup ==> (outcome matches RootOutcome::Command(
            run,
        ) && staged_version(run) == Ok::<Seq<char>, Seq<char>>(update.expected_version@)),
{
}

/// An update that fails once it has its directory asks for the removal of that
/// directory; one that is launched leaves it to the script.
pub proof fn law_failed_update_cleans_up(update: RootUpdate, outcome: RootOutcome)
    requires
        update.step.can_give(outcome),
    ensures
        update.step.owns_directory() && update.trouble(outcome) is Some ==> update.step_after(
            outcome,
        ) == RootStep::RemoveDirectory,
        update.step_after(outcome) == RootStep::Failed ==> !update.step.owns_directory(),
        update.step_after(outcome) == RootStep::Launched ==> update.step == RootStep::Launch,
{
}

/// Each step is taken right behind the one before it, and only if that came to nothing
/// bad: no check is left out on the way to the launch.
pub proof fn law_no_step_is_left_out(update: RootUpdate, outcome: RootOutcome)
    requires
        update.step.can_give(outcome),
    ensures
        ({
            let step = update.step;
            let next = update.step_after(outcome);
            &&& next != RootStep::RemoveDirectory && next != RootStep::Failed ==> update.trouble(
                outcome,
            ) is None
            &&& match next {
                RootStep::MakeDirectory => false,
                RootStep::CheckDirectory => step == RootStep::MakeDirectory,
                RootStep::HardenDirectory => step == RootStep::CheckDirectory,
                RootStep::CompareFilesystems => step == RootStep::HardenDirectory,
                RootStep::FirstSessions => step == RootStep::CompareFilesystems,
                RootStep::Extract => step == RootStep::FirstSessions,
                RootStep::ValidateTree => step == RootStep::Extract,
                RootStep::ReadVersion => step == RootStep::ValidateTree,
                RootStep::ProbeBackup => step == RootStep::ReadVersion,
                RootStep::ProbeFailed => step == RootStep::ProbeBackup,
                RootStep::ProbeTransaction => step == RootStep::ProbeFailed,
                RootStep::BackUpDaemon => step == RootStep::ProbeTransaction,
                RootStep::BackUpAgent => step == RootStep::BackUpDaemon,
                RootStep::ProbeService => step == RootStep::BackUpAgent,
                RootStep::SecondSessions => step == RootStep::ProbeService,
                RootStep::Wait => step == RootStep::SecondSessions,
                RootStep::ThirdSessions => step == RootStep::Wait,
                RootStep::ListUsers => step == RootStep::ThirdSessions,
                RootStep::WriteScript => step == RootStep::ListUsers,
                RootStep::MakeExecutable => step == RootStep::WriteScript,
                RootStep::ListUsersAgain => step == RootStep::MakeExecutable,
                RootStep::LastSessions => step == RootStep::ListUsersAgain,
                RootStep::Launch => step == RootStep::LastSessions,
                RootStep::Launched => step == RootStep::Launch,
                RootStep::RemoveDirectory => update.trouble(outcome) is Some && step
                    != RootStep::MakeDirectory && step != RootStep::CheckDirectory,
                RootStep::Failed => step == RootStep::RemoveDirectory || (update.trouble(outcome)
                    is Some && (step == RootStep::MakeDirectory || step
                    == RootStep::CheckDirectory)),
            }
        }),
{
}

/// What counts as trouble: any error, somebody who is connected, two filesystems, what
/// should be there and is not, what is left of an earlier update, and other users than
/// before. The removal of the directory is never in trouble.
pub proof fn law_what_troubles_an_update(update: RootUpdate, outcome: RootOutcome)
    requires
        update.step.can_give(outcome),
    ensures
        update.step == RootStep::RemoveDirectory ==> update.trouble(outcome) is None,
        update.step != RootStep::RemoveDirectory ==> match outcome {
            RootOutcome::Error(e) => update.trouble(outcome) == Some(e@),
            RootOutcome::Done => update.trouble(outcome) is None,
            RootOutcome::Idle(idle) => update.trouble(outcome) is None <==> idle,
            RootOutcome::Devices(a, b) => update.trouble(outcome) is None <==> a == b,
            RootOutcome::Users(uids) => update.trouble(outcome) is Some <==> update.step
                == RootStep::ListUsersAgain && uids@ != update.uids@,
            RootOutcome::Present(there) => update.trouble(outcome) is None <==> there == (
            update.step == RootStep::CheckDirectory || update.step == RootStep::ProbeService),
            RootOutcome::Command(run) => match update.step {
                RootStep::MakeDirectory => update.trouble(outcome) is None <==> run.success
                    && run.stdout is Ok && crate::text::trimmed(run.stdout->Ok_0@).len() > 0,
                RootStep::ReadVersion => update.trouble(outcome) is None <==> run.success
                    && run.stdout is Ok && crate::text::trimmed(run.stdout->Ok_0@).len() > 0
                    && crate::text::trimmed(run.stdout->Ok_0@) == update.expected_version@,
                _ => update.trouble(outcome) is None <==> run.success,
            },
        },
{
}

/// The directory of an update is the one that was made for it, and the users are those
/// that were listed first; no later step changes either.
pub proof fn law_directory_and_users_are_fixed(update: RootUpdate, outcome: RootOutcome)
    requires
        update.step.can_give(outcome),
    ensures
        update.step == RootStep::MakeDirectory && update.trouble(outcome) is None
            ==> update.directory_after(outcome) == crate::text::trimmed(
            outcome->Command_0.stdout->Ok_0@,
        ),
        update.step != RootStep::MakeDirectory ==> update.directory_after(outcome)
            == update.tmp_dir@,
        update.step == RootStep::ListUsers ==> update.users_after(outcome) == outcome->Users_0@,
        update.step != RootStep::ListUsers ==> update.users_after(outcome) == update.uids@,
{
}

/// What a failed command says: its complaints, without the white space around them.
pub proof fn law_failed_commands_tell_why(run: CommandRun)
    requires
        !run.success,
    ensures
        made_directory(run) == Err::<Seq<char>, Seq<char>>(
            "[root-update] failed to create preparation directory: "@ + crate::text::trimmed(
                run.stderr@,
            ),
        ),
        staged_version(run) == Err::<Seq<char>, Seq<char>>(
            "[root-update] failed to read staged bundle version: "@ + crate::text::trimmed(
                run.stderr@,
            ),
        ),
{
}

/// The script works on what was looked at and kept before: the bundle that was checked,
/// the places that were found free, and the backups of the very definitions that it
/// will replace.
pub proof fn law_script_works_on_what_was_checked(
    update: RootUpdate,
    values: ScriptValues,
    step: RootStep,
)
    requires
        values_for(values, update.app_name@, update.tmp_dir@, update.uids@),
        update.step == step,
    ensures
        step == RootStep::ValidateTree ==> update.request_view() == Some(
            RootRequestView::ValidateTree(values.src_app@),
        ),
        step == RootStep::ReadVersion ==> update.request_view() == Some(
            RootRequestView::ReadVersion(values.src_app@ + "/Contents/Info.plist"@),
        ),
        step == RootStep::ProbeService ==> update.request_view() == Some(
            RootRequestView::ProbeFile(values.src_app@ + "/Contents/MacOS/service"@),
        ),
        step == RootStep::ProbeBackup ==> update.request_view() == Some(
            RootRequestView::Probe(values.app_backup@),
        ),
        step == RootStep::ProbeFailed ==> update.request_view() == Some(
            RootRequestView::Probe(values.failed_bundle@),
        ),
        step == RootStep::ProbeTransaction ==> update.request_view() == Some(
            RootRequestView::Probe(values.helper_transaction@),
        ),
        step == RootStep::BackUpDaemon ==> update.request_view() == Some(
            RootRequestView::BackUp {
                source: values.daemon_plist@,
                backup: values.daemon_plist_bak@,
            },
        ),
        step == RootStep::BackUpAgent ==> update.request_view() == Some(
            RootRequestView::BackUp { source: values.agent_plist@, backup: values.agent_plist_bak@ },
        ),
        step == RootStep::Extract ==> update.request_view() == Some(
            RootRequestView::Extract { dmg: update.dmg_path@, into: values.tmp_dir@ },
        ),
        step == RootStep::RemoveDirectory ==> update.request_view() == Some(
            RootRequestView::RemoveDirectory(values.tmp_dir@),
        ),
        values.uid_list@ == crate::macos::sessions::spaced(update.uids@),
        values.daemon_label@ == crate::helper::paths::daemon_label(update.app_name@),
{
}

/// The script that is written is the one that is made executable and started, and it
/// stands in the directory of the update.
pub proof fn law_written_script_is_started(
    writing: RootUpdate,
    preparing: RootUpdate,
    starting: RootUpdate,
    path: Seq<char>,
)
    requires
        writing.step == RootStep::WriteScript,
        preparing.step == RootStep::MakeExecutable,
        starting.step == RootStep::Launch,
        writing.tmp_dir@ == preparing.tmp_dir@ && preparing.tmp_dir@ == starting.tmp_dir@,
        writing.request_view() == Some(RootRequestView::WriteScript { path }),
    ensures
        preparing.request_view() == Some(RootRequestView::MakeExecutable(path)),
        starting.request_view() == Some(RootRequestView::Launch(path)),
        (writing.tmp_dir@ + "/"@).is_prefix_of(path),
{
    reveal_strlit("/");
    reveal_strlit("/rustdesk_update.sh");
    let front = writing.tmp_dir@ + "/"@;
    assert(path == writing.tmp_dir@ + "/rustdesk_update.sh"@);
    assert(path.subrange(0, front.len() as int) =~= front);
}

/// Nothing but the directory of the update is made, examined or removed by name, and
/// users and sessions are asked for without one.
pub proof fn law_requests_concern_the_directory(update: RootUpdate)
    ensures
        update.step == RootStep::MakeDirectory <==> update.request_view() == Some(
            RootRequestView::MakeDirectory,
        ),
        update.step == RootStep::CheckDirectory ==> update.request_view() == Some(
            RootRequestView::CheckDirectory(update.tmp_dir@),
        ),
        update.step == RootStep::HardenDirectory ==> update.request_view() == Some(
            RootRequestView::HardenDirectory(update.tmp_dir@),
        ),
        update.step == RootStep::CompareFilesystems ==> update.request_view() == Some(
            RootRequestView::CompareFilesystems(update.tmp_dir@),
        ),
        update.request_view() == Some(RootRequestView::ListUsers) <==> update.step
            == RootStep::ListUsers || update.step == RootStep::ListUsersAgain,
        update.request_view() == Some(RootRequestView::AskSessions) <==> update.step
            == RootStep::FirstSessions || update.step == RootStep::SecondSessions || update.step
            == RootStep::ThirdSessions || update.step == RootStep::LastSessions,
        update.request_view() == Some(RootRequestView::Wait) <==> update.step == RootStep::Wait,
        update.request_view() is None <==> update.step == RootStep::Launched || update.step
            == RootStep::Failed,
{
}

/// The helper that the script replaces is the installed one.
pub proof fn law_script_replaces_the_installed_helper(app_name: Seq<char>)
    ensures
        installed_helper(app_name) == crate::helper::paths::bundle_path(
            "/Library/PrivilegedHelperTools"@,
            app_name,
        ),
        installed_helper(app_name) + "/Contents/MacOS/service"@
            == crate::helper::paths::helper_service(
            "/Library/PrivilegedHelperTools"@,
            app_name,
        ),
{
    reveal_strlit("/");
    reveal_strlit("/Library/PrivilegedHelperTools");
    reveal_strlit("com.carriez.");
    reveal_strlit("/Library/PrivilegedHelperTools/com.carriez.");
    reveal_strlit("Contents");
    reveal_strlit("MacOS");
    reveal_strlit("service");
    reveal_strlit("/Contents/MacOS/service");
    assert(installed_helper(app_name) =~= crate::helper::paths::bundle_path(
        "/Library/PrivilegedHelperTools"@,
        app_name,
    ));
    assert(installed_helper(app_name) + "/Contents/MacOS/service"@
        =~= crate::helper::paths::helper_service("/Library/PrivilegedHelperTools"@, app_name));
}

/// What is said of something left over, or of something missing, names what was looked
/// at.
pub proof fn law_complaints_name_what_was_looked_at(update: RootUpdate, path: Seq<char>)
    ensures
        update.request_view() == Some(RootRequestView::Probe(path)) ==> update.trouble(
            RootOutcome::Present(true),
        ) is Some && path.is_suffix_of(update.trouble(RootOutcome::Present(true))->0),
        update.request_view() == Some(RootRequestView::ProbeFile(path)) ==> update.trouble(
            RootOutcome::Present(false),
        ) is Some && path.is_suffix_of(update.trouble(RootOutcome::Present(false))->0),
{
    if update.request_view() == Some(RootRequestView::Probe(path)) {
        let text = update.trouble(RootOutcome::Present(true))->0;
        assert(text.subrange(text.len() - path.len(), text.len() as int) =~= path);
    }
    if update.request_view() == Some(RootRequestView::ProbeFile(path)) {
        let text = update.trouble(RootOutcome::Present(false))->0;
        assert(text.subrange(text.len() - path.len(), text.len() as int) =~= path);
    }
}

/// The places of an update stand in its own directories: those of the app in the
/// directory of the update, those of the helper where the helper is exchanged, and no
/// two of the latter are the same.
pub proof fn law_places_of_an_update(
    values: ScriptValues,
    app_name: Seq<char>,
    tmp_dir: Seq<char>,
    uids: Seq<u32>,
)
    requires
        values_for(values, app_name, tmp_dir, uids),
    ensures
        tmp_dir.is_prefix_of(values.app_backup@) && tmp_dir.is_prefix_of(values.failed_bundle@)
            && tmp_dir.is_prefix_of(values.src_app@) && tmp_dir.is_prefix_of(
            values.daemon_plist_bak@,
        ) && tmp_dir.is_prefix_of(values.agent_plist_bak@),
        values.helper_transaction@.is_prefix_of(values.helper_backup@)
            && values.helper_transaction@.is_prefix_of(values.helper_staging@)
            && values.helper_transaction@.is_prefix_of(values.helper_failed@),
        values.helper_backup@ != values.helper_staging@ && values.helper_staging@
            != values.helper_failed@ && values.helper_backup@ != values.helper_failed@,
        values.helper_bundle@.is_prefix_of(values.helper_service@),
        values.tmp_dir@ == tmp_dir && values.app_name@ == app_name,
{
    reveal_strlit("/previous.bundle");
    reveal_strlit("/staged.bundle");
    reveal_strlit("/failed.bundle");
    let at = values.helper_transaction@.len() as int;
    assert(values.helper_backup@[at + 1] == 'p');
    assert(values.helper_staging@[at + 1] == 's');
    assert(values.helper_failed@[at + 1] == 'f');
    let n = tmp_dir.len() as int;
    assert(values.app_backup@.subrange(0, n) =~= tmp_dir);
    assert(values.failed_bundle@.subrange(0, n) =~= tmp_dir);
    assert(values.src_app@.subrange(0, n) =~= tmp_dir);
    assert(values.daemon_plist_bak@.subrange(0, n) =~= tmp_dir);
    assert(values.agent_plist_bak@.subrange(0, n) =~= tmp_dir);
    assert(values.helper_backup@.subrange(0, at) =~= values.helper_transaction@);
    assert(values.helper_staging@.subrange(0, at) =~= values.helper_transaction@);
    assert(values.helper_failed@.subrange(0, at) =~= values.helper_transaction@);
    let m = values.helper_bundle@.len() as int;
    assert(values.helper_service@.subrange(0, m) =~= values.helper_bundle@);
}

/// An update waits for something exactly while it has something to ask for, and owns its
/// directory from the step that closes it to others on.
pub proof fn law_updates_wait_for_answers(update: RootUpdate)
    ensures
        update.step.waits() <==> update.request_view() is Some,
        update.step.owns_directory() ==> update.step.waits(),
        update.step == RootStep::HardenDirectory || update.step == RootStep::Launch
            ==> update.step.owns_directory(),
        !update.step.owns_directory() && update.step.waits() <==> update.step
            == RootStep::MakeDirectory || update.step == RootStep::CheckDirectory || update.step
            == RootStep::RemoveDirectory,
{
}

} // verus!
