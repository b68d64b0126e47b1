//! Installing, updating and removing the service.
use crate::helper::start::ServiceStartAction;
use crate::macos::identity::{render_plist_body, render_privileged_template};
use crate::macos::update_body::privileged_update_body;
use crate::text::{same_text, starts_with, trim};
use vstd::prelude::*;

verus! {

/// What a script left behind, its output read as text.
#[derive(Debug)]
pub struct ScriptRun {
    pub success: bool,
    /// The exit status in words.
    pub status: String,
    pub stdout: String,
    pub stderr: String,
}

/// How a failed run is reported, `before` being the words before the status.
pub open spec fn run_failure(before: Seq<char>, run: ScriptRun) -> Seq<char> {
    before + run.status@ + ", stderr: "@ + crate::text::trimmed(run.stderr@)
}

fn tell_run_failure(before: &str, run: &ScriptRun) -> (r: String)
    ensures
        r@ == run_failure(before@, *run),
{
    let mut text: String = before.to_owned();
    text.append(run.status.as_str());
    text.append(", stderr: ");
    let stderr = trim(run.stderr.as_str());
    text.append(stderr.as_str());
    text
}

fn join2(a: &str, b: &str) -> (r: String)
    ensures
        r@ == a@ + b@,
{
    let mut text: String = a.to_owned();
    text.append(b);
    text
}

fn join3(a: &str, b: &str, c: &str) -> (r: String)
    ensures
        r@ == a@ + b@ + c@,
{
    let mut text: String = a.to_owned();
    text.append(b);
    text.append(c);
    text
}

/// Takes a script that could not be started, or that ended badly, for an error.
pub fn require_successful_osascript(run: Result<ScriptRun, String>) -> (r: Result<
    ScriptRun,
    String,
>)
    ensures
        match run {
            Err(error) => r matches Err(e) && e@ == "run osascript failed: "@ + error@,
            Ok(run) => if run.success {
                r == Ok::<ScriptRun, String>(run)
            } else {
                r matches Err(e) && e@ == run_failure("run osascript failed with status: "@, run)
            },
        },
{
    match run {
        Err(error) => Err(join2("run osascript failed: ", error.as_str())),
        Ok(run) => {
            if run.success {
                Ok(run)
            } else {
                Err(tell_run_failure("run osascript failed with status: ", &run))
            }
        },
    }
}

/// The file of the daemon's definition.
pub open spec fn daemon_plist_path(full_name: Seq<char>) -> Seq<char> {
    "/Library/LaunchDaemons/"@ + full_name + "_service.plist"@
}

/// The file of the agent's definition.
pub open spec fn agent_plist_path(full_name: Seq<char>) -> Seq<char> {
    "/Library/LaunchAgents/"@ + full_name + "_server.plist"@
}

/// The file of the daemon's definition.
pub fn daemon_plist_file(full_name: &str) -> (r: String)
    ensures
        r@ == daemon_plist_path(full_name@),
{
    join3("/Library/LaunchDaemons/", full_name, "_service.plist")
}

/// The file of the agent's definition.
pub fn agent_plist_file(full_name: &str) -> (r: String)
    ensures
        r@ == agent_plist_path(full_name@),
{
    join3("/Library/LaunchAgents/", full_name, "_server.plist")
}

/// A template that comes with the program.
#[derive(Debug)]
pub enum Template {
    Absent,
    /// It is there, but is not text.
    Unreadable,
    Text(String),
}

/// Who the app is. `name_check` is what the rules for names of installed apps say
/// of its name.
#[derive(Debug)]
pub struct AppIdentity {
    pub app_name: String,
    pub name_check: Result<(), String>,
    pub bundle_id: Option<String>,
}

impl AppIdentity {
    /// Templates may be written for the app.
    pub open spec fn acceptable(self) -> bool {
        &&& self.name_check is Ok
        &&& self.bundle_id matches Some(id) ==> crate::macos::identity::valid_bundle_id(id@)
    }

    /// A template with the app's identity in it.
    pub open spec fn rendered(self, template: Seq<char>) -> Seq<char> {
        crate::macos::identity::with_identity(
            template,
            self.app_name@,
            crate::text::text_view(self.bundle_id),
        )
    }

    /// Why templates may not be written for the app.
    pub open spec fn objection(self) -> Seq<char> {
        match self.name_check {
            Err(e) => e@,
            Ok(()) => "Invalid application bundle identifier"@,
        }
    }
}

fn clone_check(check: &Result<(), String>) -> (r: Result<(), String>)
    ensures
        match *check {
            Ok(()) => r == Ok::<(), String>(()),
            Err(e) => r matches Err(c) && c@ == e@,
        },
{
    match check {
        Ok(()) => Ok(()),
        Err(e) => Err(e.clone()),
    }
}

/// Writes the app's identity into a template.
pub fn correct_app_name(template: &str, app: &AppIdentity) -> (r: Result<String, String>)
    ensures
        match r {
            Ok(text) => app.acceptable() && text@ == app.rendered(template@),
            Err(e) => !app.acceptable() && e@ == app.objection(),
        },
{
    let bundle_id: Option<&str> = match &app.bundle_id {
        Some(id) => Some(id.as_str()),
        None => None,
    };
    render_privileged_template(
        template,
        app.app_name.as_str(),
        clone_check(&app.name_check),
        bundle_id,
    )
}

/// A template for the app, or nothing where it is missing or the app's identity
/// may not be written into it.
pub open spec fn for_app(template: Template, app: AppIdentity) -> Option<Seq<char>> {
    match template {
        Template::Text(text) => if app.acceptable() {
            Some(app.rendered(text@))
        } else {
            None
        },
        _ => None,
    }
}

fn template_for_app(template: &Template, app: &AppIdentity) -> (r: Option<String>)
    ensures
        crate::text::text_view(r) == for_app(*template, *app),
{
    match template {
        Template::Text(text) => match correct_app_name(text.as_str(), app) {
            Ok(text) => Some(text),
            Err(_) => None,
        },
        _ => None,
    }
}

/// What installing the service runs with privileges.
#[derive(Debug)]
pub struct InstallRequest {
    pub script: String,
    pub daemon_plist: String,
    pub agent_plist: String,
}

/// Whether the service is installed, or what to do about it.
#[derive(Debug)]
pub enum InstallCheck {
    /// The answer, with nothing to run.
    Answer(bool),
    /// Run this in the background; the answer for now is no.
    Install(InstallRequest),
}

/// Whether the service is installed: both of its definitions are there. With
/// `prompt` it is not looked for but installed, where all three templates are
/// there and the app's identity may be written into them.
pub fn is_installed_daemon(
    prompt: bool,
    daemon_exists: bool,
    agent_exists: bool,
    install: &Template,
    daemon: &Template,
    agent: &Template,
    app: &AppIdentity,
) -> (r: InstallCheck)
    ensures
        !prompt ==> r == InstallCheck::Answer(daemon_exists && agent_exists),
        prompt ==> match (for_app(*install, *app), for_app(*daemon, *app), for_app(*agent, *app)) {
            (Some(script), Some(daemon), Some(agent)) => r matches InstallCheck::Install(request)
                && request.script@ == script && request.daemon_plist@ == daemon
                && request.agent_plist@ == agent,
            _ => r == InstallCheck::Answer(false),
        },
{
    if !prompt {
        return InstallCheck::Answer(daemon_exists && agent_exists);
    }
    let script = match template_for_app(install, app) {
        Some(text) => text,
        None => {
            return InstallCheck::Answer(false);
        },
    };
    let daemon_plist = match template_for_app(daemon, app) {
        Some(text) => text,
        None => {
            return InstallCheck::Answer(false);
        },
    };
    let agent_plist = match template_for_app(agent, app) {
        Some(text) => text,
        None => {
            return InstallCheck::Answer(false);
        },
    };
    InstallCheck::Install(InstallRequest { script, daemon_plist, agent_plist })
}

/// Whether the service is installed, which is only looked at.
pub fn install_service(daemon_exists: bool, agent_exists: bool) -> (r: bool)
    ensures
        r == (daemon_exists && agent_exists),
{
    daemon_exists && agent_exists
}

/// The arguments with which the install script runs.
pub fn install_args(request: InstallRequest, username: String) -> (r: Vec<String>)
    ensures
        crate::text::texts(r@) == seq![
            "-e"@,
            request.script@,
            request.daemon_plist@,
            request.agent_plist@,
            username@,
        ],
{
    let args: Vec<String> = vec![
        "-e".to_owned(),
        request.script,
        request.daemon_plist,
        request.agent_plist,
        username,
    ];
    assert(crate::text::texts(args@) =~= seq![
        "-e"@,
        request.script@,
        request.daemon_plist@,
        request.agent_plist@,
        username@,
    ]);
    args
}

/// Whether the agent is started after the install script ran.
pub fn starts_agent(run: Result<ScriptRun, String>, agent_exists: bool) -> (r: bool)
    ensures
        r == (agent_exists && (run matches Ok(run) && run.success)),
{
    match require_successful_osascript(run) {
        Ok(_) => agent_exists,
        Err(_) => false,
    }
}

/// Where an update comes from.
#[derive(Debug)]
pub enum UpdateSource {
    AppDir(String),
    VerifiedDmg { path: String, expected_sha256: String },
}

impl UpdateSource {
    pub open spec fn path_view(self) -> Seq<char> {
        match self {
            UpdateSource::AppDir(path) => path@,
            UpdateSource::VerifiedDmg { path, .. } => path@,
        }
    }

    pub open spec fn digest_view(self) -> Seq<char> {
        match self {
            UpdateSource::AppDir(_) => Seq::empty(),
            UpdateSource::VerifiedDmg { expected_sha256, .. } => expected_sha256@,
        }
    }

    /// The path and the digest that a script is given. An app directory has no
    /// digest.
    pub fn into_script_args(self) -> (r: (String, String))
        ensures
            r.0@ == self.path_view(),
            r.1@ == self.digest_view(),
    {
        match self {
            UpdateSource::AppDir(path) => (path, String::new()),
            UpdateSource::VerifiedDmg { path, expected_sha256 } => (path, expected_sha256),
        }
    }
}

/// The arguments with which an installed agent is updated.
pub open spec fn agent_update_args(
    script: Seq<char>,
    username: Seq<char>,
    pid: u32,
    source: UpdateSource,
) -> Seq<Seq<char>> {
    seq![
        "-e"@,
        script,
        username,
        crate::text::decimal(pid as nat),
        source.path_view(),
        source.digest_view(),
    ]
}

/// What to run to update an installed service.
pub fn update_daemon_agent(
    update: &Template,
    app: &AppIdentity,
    username: String,
    pid: u32,
    source: UpdateSource,
) -> (r: Result<Vec<String>, String>)
    ensures
        match *update {
            Template::Absent => r matches Err(e) && e@ == "Failed to find update.scpt"@,
            Template::Unreadable => r matches Err(e) && e@ == "Failed to read update.scpt"@,
            Template::Text(text) => if app.acceptable() {
                r matches Ok(args) && crate::text::texts(args@) == agent_update_args(
                    app.rendered(text@),
                    username@,
                    pid,
                    source,
                )
            } else {
                r matches Err(e) && e@ == app.objection()
            },
        },
{
    let text = match update {
        Template::Absent => {
            return Err("Failed to find update.scpt".to_owned());
        },
        Template::Unreadable => {
            return Err("Failed to read update.scpt".to_owned());
        },
        Template::Text(text) => text,
    };
    let script = match correct_app_name(text.as_str(), app) {
        Ok(script) => script,
        Err(e) => {
            return Err(e);
        },
    };
    let number = crate::text::decimal_text(pid as u64);
    let (path, digest) = source.into_script_args();
    let args: Vec<String> = vec!["-e".to_owned(), script, username, number, path, digest];
    assert(crate::text::texts(args@) =~= agent_update_args(script@, username@, pid, source));
    Ok(args)
}

/// How an update goes on.
#[derive(Debug)]
pub enum UpdatePlan {
    /// The installed service is updated with the agent that this file defines.
    Agent { agent_plist: String, source: UpdateSource },
    /// The update script runs by itself with these arguments.
    Direct { args: Vec<String> },
}

/// Whether an update is made together with the agent of the service.
pub open spec fn updates_with_agent(is_installed_daemon: bool, is_service_stopped: bool) -> bool {
    !is_service_stopped && is_installed_daemon
}

/// How the app is updated. Where the service is installed and not stopped, it is
/// updated together with its agent; elsewhere the script is told whether the
/// service is missing.
pub fn update_me_from_source(
    source: UpdateSource,
    app_name: &str,
    name_check: Result<(), String>,
    full_name: &str,
    is_installed_daemon: bool,
    is_service_stopped: bool,
    pid: u32,
    username: String,
) -> (r: Result<UpdatePlan, String>)
    ensures
        r is Ok <==> name_check is Ok,
        r matches Ok(plan) ==> (plan is Agent <==> updates_with_agent(
            is_installed_daemon,
            is_service_stopped,
        )),
        match name_check {
            Err(e) => r == Err::<UpdatePlan, String>(e),
            Ok(()) => if is_installed_daemon && !is_service_stopped {
                r matches Ok(UpdatePlan::Agent { agent_plist, source: s }) && agent_plist@
                    == agent_plist_path(full_name@) && s == source
            } else {
                r matches Ok(UpdatePlan::Direct { args }) && crate::text::texts(args@) == seq![
                    "-e"@,
                    crate::macos::update_body::update_body_view(),
                    app_name@,
                    crate::text::decimal(pid as nat),
                    source.path_view(),
                    username@,
                    (if is_installed_daemon {
                        "0"@
                    } else {
                        "1"@
                    }),
                    source.digest_view(),
                ]
            },
        },
{
    if let Err(e) = name_check {
        return Err(e);
    }
    if is_installed_daemon && !is_service_stopped {
        return Ok(UpdatePlan::Agent { agent_plist: agent_plist_file(full_name), source });
    }
    let number = crate::text::decimal_text(pid as u64);
    let missing: String = if is_installed_daemon {
        "0".to_owned()
    } else {
        "1".to_owned()
    };
    let (path, digest) = source.into_script_args();
    let body = privileged_update_body();
    let args: Vec<String> = vec![
        "-e".to_owned(),
        body,
        app_name.to_owned(),
        number,
        path,
        username,
        missing,
        digest,
    ];
    assert(crate::text::texts(args@) =~= seq![
        "-e"@,
        body@,
        app_name@,
        number@,
        path@,
        username@,
        missing@,
        digest@,
    ]);
    Ok(UpdatePlan::Direct { args })
}

/// How the update script that ran by itself went.
pub fn finish_direct_update(run: Result<ScriptRun, String>) -> (r: Result<(), String>)
    ensures
        match run {
            Err(error) => r matches Err(e) && e@ == "run osascript failed: "@ + error@,
            Ok(run) => if run.success {
                r == Ok::<(), String>(())
            } else {
                r matches Err(e) && e@ == run_failure(
                    "osascript execution failed with status: "@,
                    run,
                )
            },
        },
{
    match run {
        Err(error) => Err(join2("run osascript failed: ", error.as_str())),
        Ok(run) => {
            if run.success {
                Ok(())
            } else {
                Err(tell_run_failure("osascript execution failed with status: ", &run))
            }
        },
    }
}

/// The bundle of an installed app.
pub open spec fn app_bundle_path(app_name: Seq<char>) -> Seq<char> {
    "/Applications/"@ + app_name + ".app"@
}

/// The bundle of an installed app.
pub fn app_bundle(app_name: &str) -> (r: String)
    ensures
        r@ == app_bundle_path(app_name@),
{
    join3("/Applications/", app_name, ".app")
}

/// The app's bundle in a mounted image.
pub fn mounted_bundle(mount_point: &str, app_name: &str) -> (r: String)
    ensures
        r@ == mount_point@ + "/"@ + app_name@ + ".app"@,
{
    let mut path = join3(mount_point, "/", app_name);
    path.append(".app");
    path
}

/// Whether the running program lies in the installed app's bundle.
pub fn is_installed(exe: Option<String>, app_name: &str) -> (r: bool)
    ensures
        r == (exe matches Some(path) && app_bundle_path(app_name@).is_prefix_of(path@)),
{
    match exe {
        Some(path) => {
            let bundle = app_bundle(app_name);
            starts_with(path.as_str(), bundle.as_str())
        },
        None => false,
    }
}

/// A definition and its file.
#[derive(Debug)]
pub struct PlistDefinition {
    pub path: String,
    pub body: String,
}

/// The definitions of the daemon and the agent of an app. `bundle_id` is the
/// identifier of the installed app, or why it is not known.
pub fn write_plists_for_app(
    app_name: &str,
    name_check: Result<(), String>,
    bundle_id: Result<String, String>,
    daemon: &Template,
    agent: &Template,
) -> (r: Result<(PlistDefinition, PlistDefinition), String>)
    ensures
        match bundle_id {
            Err(e) => r == Err::<(PlistDefinition, PlistDefinition), String>(e),
            Ok(id) => match (*daemon, *agent) {
                (Template::Absent, _) => r matches Err(e) && e@
                    == "daemon.plist not found in embedded resources"@,
                (Template::Unreadable, _) => r matches Err(e) && e@
                    == "Failed to read daemon.plist"@,
                (Template::Text(_), Template::Absent) => r matches Err(e) && e@
                    == "agent.plist not found in embedded resources"@,
                (Template::Text(_), Template::Unreadable) => r matches Err(e) && e@
                    == "Failed to read agent.plist"@,
                (Template::Text(d), Template::Text(a)) => match r {
                    Ok((daemon, agent)) => {
                        &&& name_check is Ok
                        &&& crate::macos::identity::valid_bundle_id(id@)
                        &&& daemon.path@ == daemon_plist_path("com.carriez."@ + app_name@)
                        &&& agent.path@ == agent_plist_path("com.carriez."@ + app_name@)
                        &&& daemon.body@ == crate::macos::identity::with_identity(
                            d@,
                            app_name@,
                            Some(id@),
                        )
                        &&& agent.body@ == crate::macos::identity::with_identity(
                            a@,
                            app_name@,
                            Some(id@),
                        )
                    },
                    Err(e) => match name_check {
                        Err(objection) => e@ == objection@,
                        Ok(()) => !crate::macos::identity::valid_bundle_id(id@) && e@
                            == "Invalid application bundle identifier"@,
                    },
                },
            },
        },
{
    let id = match bundle_id {
        Ok(id) => id,
        Err(e) => {
            return Err(e);
        },
    };
    let daemon_text = match daemon {
        Template::Absent => {
            return Err("daemon.plist not found in embedded resources".to_owned());
        },
        Template::Unreadable => {
            return Err("Failed to read daemon.plist".to_owned());
        },
        Template::Text(text) => text,
    };
    let agent_text = match agent {
        Template::Absent => {
            return Err("agent.plist not found in embedded resources".to_owned());
        },
        Template::Unreadable => {
            return Err("Failed to read agent.plist".to_owned());
        },
        Template::Text(text) => text,
    };
    let daemon_body = match render_plist_body(
        daemon_text.as_str(),
        app_name,
        clone_check(&name_check),
        id.as_str(),
    ) {
        Ok(body) => body,
        Err(e) => {
            return Err(e);
        },
    };
    let agent_body = match render_plist_body(
        agent_text.as_str(),
        app_name,
        name_check,
        id.as_str(),
    ) {
        Ok(body) => body,
        Err(e) => {
            return Err(e);
        },
    };
    let full_name = join2("com.carriez.", app_name);
    Ok(
        (
            PlistDefinition { path: daemon_plist_file(full_name.as_str()), body: daemon_body },
            PlistDefinition { path: agent_plist_file(full_name.as_str()), body: agent_body },
        ),
    )
}

/// How removing the service begins.
#[derive(Debug)]
pub enum UninstallCheck {
    /// There is nothing to remove, or no way to remove it.
    No,
    /// Run this script and wait for it.
    RunAndWait(String),
    /// Run this script in the background; the answer for now is yes.
    RunInBackground(String),
}

/// How removing the service begins.
pub fn uninstall_service(
    is_installed_daemon: bool,
    uninstall: &Template,
    app: &AppIdentity,
    sync: bool,
) -> (r: UninstallCheck)
    ensures
        match for_app(*uninstall, *app) {
            Some(script) if is_installed_daemon => if sync {
                r matches UninstallCheck::RunAndWait(s) && s@ == script
            } else {
                r matches UninstallCheck::RunInBackground(s) && s@ == script
            },
            _ => r == UninstallCheck::No,
        },
{
    if !is_installed_daemon {
        return UninstallCheck::No;
    }
    match template_for_app(uninstall, app) {
        None => UninstallCheck::No,
        Some(script) => {
            if sync {
                UninstallCheck::RunAndWait(script)
            } else {
                UninstallCheck::RunInBackground(script)
            }
        },
    }
}

/// What is done once the service is gone.
#[derive(Debug)]
pub enum UninstallAction {
    CloseAllInstances,
    /// Wait for a third of a second or so.
    Pause,
    /// Set the option that keeps the service from starting.
    SetStopService,
    /// Take the agent of this label from the launch daemon.
    RemoveAgent(String),
    /// Open a new window of the app in this bundle.
    OpenApp(String),
    QuitGui,
}

/// The view of what is done once the service is gone.
pub enum UninstallActionView {
    CloseAllInstances,
    Pause,
    SetStopService,
    RemoveAgent(Seq<char>),
    OpenApp(Seq<char>),
    QuitGui,
}

impl UninstallAction {
    pub open spec fn view(self) -> UninstallActionView {
        match self {
            UninstallAction::CloseAllInstances => UninstallActionView::CloseAllInstances,
            UninstallAction::Pause => UninstallActionView::Pause,
            UninstallAction::SetStopService => UninstallActionView::SetStopService,
            UninstallAction::RemoveAgent(label) => UninstallActionView::RemoveAgent(label@),
            UninstallAction::OpenApp(bundle) => UninstallActionView::OpenApp(bundle@),
            UninstallAction::QuitGui => UninstallActionView::QuitGui,
        }
    }
}

/// The views of a list of actions.
pub open spec fn action_views(list: Seq<UninstallAction>) -> Seq<UninstallActionView> {
    list.map_values(|a: UninstallAction| a.view())
}

/// What is done once the service is gone, in order. Where a new window follows,
/// the other instances stay until it is open.
pub open spec fn farewell(
    show_new_window: bool,
    full_name: Seq<char>,
    app_name: Seq<char>,
) -> Seq<UninstallActionView> {
    if show_new_window {
        seq![
            UninstallActionView::SetStopService,
            UninstallActionView::RemoveAgent(full_name + "_server"@),
            UninstallActionView::OpenApp(app_bundle_path(app_name)),
            UninstallActionView::Pause,
            UninstallActionView::QuitGui,
        ]
    } else {
        seq![
            UninstallActionView::CloseAllInstances,
            UninstallActionView::Pause,
            UninstallActionView::SetStopService,
            UninstallActionView::RemoveAgent(full_name + "_server"@),
            UninstallActionView::QuitGui,
        ]
    }
}

/// Whether the service is gone after the uninstall script ran, and what is to be
/// done. It is gone when the agent's definition is.
pub fn finish_uninstall(
    run: Result<ScriptRun, String>,
    agent_exists: bool,
    show_new_window: bool,
    full_name: &str,
    app_name: &str,
) -> (r: (bool, Vec<UninstallAction>))
    ensures
        r.0 == (!agent_exists && (run matches Ok(run) && run.success)),
        r.0 ==> action_views(r.1@) == farewell(show_new_window, full_name@, app_name@),
        !r.0 ==> r.1@.len() == 0,
{
    let uninstalled = match require_successful_osascript(run) {
        Ok(_) => !agent_exists,
        Err(_) => false,
    };
    let mut actions: Vec<UninstallAction> = Vec::new();
    if !uninstalled {
        return (false, actions);
    }
    if !show_new_window {
        actions.push(UninstallAction::CloseAllInstances);
        actions.push(UninstallAction::Pause);
    }
    actions.push(UninstallAction::SetStopService);
    actions.push(UninstallAction::RemoveAgent(join2(full_name, "_server")));
    if show_new_window {
        actions.push(UninstallAction::OpenApp(app_bundle(app_name)));
        actions.push(UninstallAction::Pause);
    }
    actions.push(UninstallAction::QuitGui);
    assert(action_views(actions@) =~= farewell(show_new_window, full_name@, app_name@));
    (true, actions)
}

/// What starting the service does, in order.
#[derive(Clone, Copy, Debug, PartialEq, Eq, Structural)]
pub enum ServiceStep {
    /// Start looking for updates once the migration is complete.
    UpdatesAfterMigration,
    StartUpdates,
    /// Start the channel of the service.
    StartChannel,
}

/// What starting the service does.
pub open spec fn service_steps(action: ServiceStartAction) -> Seq<ServiceStep> {
    match action {
        ServiceStartAction::ExitAfterMigrationLaunch => Seq::empty(),
        ServiceStartAction::StartForMigrationReadiness => seq![
            ServiceStep::UpdatesAfterMigration,
            ServiceStep::StartChannel,
        ],
        ServiceStartAction::StartForRollbackReadiness => seq![ServiceStep::StartChannel],
        ServiceStartAction::Start => seq![ServiceStep::StartUpdates, ServiceStep::StartChannel],
    }
}

/// What starting the service does. `prepared` is how its start was prepared.
pub fn start_os_service(prepared: Result<ServiceStartAction, String>) -> (r: Result<
    Vec<ServiceStep>,
    String,
>)
    ensures
        match prepared {
            Ok(action) => r matches Ok(steps) && steps@ == service_steps(action),
            Err(e) => r == Err::<Vec<ServiceStep>, String>(e),
        },
{
    let action = match prepared {
        Ok(action) => action,
        Err(e) => {
            return Err(e);
        },
    };
    let mut steps: Vec<ServiceStep> = Vec::new();
    match action {
        ServiceStartAction::ExitAfterMigrationLaunch => {
            return Ok(steps);
        },
        ServiceStartAction::StartForMigrationReadiness => {
            steps.push(ServiceStep::UpdatesAfterMigration);
        },
        ServiceStartAction::StartForRollbackReadiness => {},
        ServiceStartAction::Start => {
            steps.push(ServiceStep::StartUpdates);
        },
    }
    steps.push(ServiceStep::StartChannel);
    assert(steps@ =~= service_steps(action));
    Ok(steps)
}

/// Whether updates start after the wait for the migration: it ended well, and the
/// service could be declared ready. `completed` is asked only after a good wait.
pub fn updates_start_after_migration(
    waited: Result<(), String>,
    completed: Result<(), String>,
) -> (r: bool)
    ensures
        r == (waited is Ok && completed is Ok),
{
    waited.is_ok() && completed.is_ok()
}

/// While a rollback is being checked, no updates are looked for; while the
/// migration goes on, they wait for its end.
pub proof fn law_updates_wait_for_the_migration(action: ServiceStartAction)
    ensures
        service_steps(action).contains(ServiceStep::StartUpdates) ==> action
            == ServiceStartAction::Start,
        service_steps(action).contains(ServiceStep::UpdatesAfterMigration) ==> action
            == ServiceStartAction::StartForMigrationReadiness,
{
}

/// Whether a click on the app's icon opens its main window: this process is one
/// of the app's background processes.
pub fn handle_application_should_open_untitled_file(first_argument: &str) -> (r: bool)
    ensures
        r == (first_argument@ == "--server"@ || first_argument@ == "--cm"@ || first_argument@
            == "--tray"@),
{
    same_text(first_argument, "--server") || same_text(first_argument, "--cm") || same_text(
        first_argument,
        "--tray",
    )
}

/// A program and its arguments with a space before each argument.
pub open spec fn command_line(program: Seq<char>, args: Seq<Seq<char>>) -> Seq<char>
    decreases args.len(),
{
    if args.len() == 0 {
        program
    } else {
        command_line(program, args.drop_last()) + " "@ + args.last()
    }
}

/// The script that runs the program with an administrator's rights.
pub fn elevate_script(program: &str, args: &Vec<String>, prompt: &str) -> (r: String)
    ensures
        r@ == "do shell script \""@ + command_line(program@, crate::text::texts(args@))
            + "\" with prompt \""@ + prompt@ + "\" with administrator privileges"@,
{
    let mut line: String = program.to_owned();
    let ghost all = crate::text::texts(args@);
    assert(all.take(0) =~= Seq::<Seq<char>>::empty());
    let mut i: usize = 0;
    while i < args.len()
        invariant
            all == crate::text::texts(args@),
            i <= args.len(),
            line@ == command_line(program@, all.take(i as int)),
        decreases args.len() - i,
    {
        assert(all.take(i + 1).drop_last() =~= all.take(i as int));
        assert(all.take(i + 1).last() == args@[i as int]@);
        line.append(" ");
        line.append(args[i].as_str());
        i = i + 1;
    }
    assert(all.take(all.len() as int) =~= all);
    let mut script = join3("do shell script \"", line.as_str(), "\" with prompt \"");
    script.append(prompt);
    script.append("\" with administrator privileges");
    script
}

/// The arguments that run a program in a user's session.
pub fn run_as_user_args(uid: String, program: String, args: &Vec<String>) -> (r: Vec<String>)
    ensures
        crate::text::texts(r@) == seq!["asuser"@, uid@, program@] + crate::text::texts(args@),
{
    let mut out: Vec<String> = vec!["asuser".to_owned(), uid, program];
    let ghost head = seq!["asuser"@, uid@, program@];
    let ghost all = crate::text::texts(args@);
    assert(crate::text::texts(out@) =~= head + all.take(0));
    let mut i: usize = 0;
    while i < args.len()
        invariant
            all == crate::text::texts(args@),
            i <= args.len(),
            crate::text::texts(out@) == head + all.take(i as int),
        decreases args.len() - i,
    {
        let arg = args[i].clone();
        proof {
            crate::text::lemma_texts_push(out@, arg);
            assert(all.take(i + 1) =~= all.take(i as int).push(args@[i as int]@));
            assert(head + all.take(i + 1) =~= (head + all.take(i as int)).push(arg@));
        }
        out.push(arg);
        i = i + 1;
    }
    assert(all.take(all.len() as int) =~= all);
    out
}

/// The file of the daemon's definition is the one that a move to the helper works on.
pub proof fn law_one_definition_of_the_daemon(
    paths: crate::helper::paths::MigrationPaths,
    tools: Seq<char>,
    app_name: Seq<char>,
)
    requires
        paths.are_for(tools, "/Library/LaunchDaemons"@, app_name),
    ensures
        paths.daemon_plist@ == daemon_plist_path("com.carriez."@ + app_name),
        daemon_plist_path("com.carriez."@ + app_name) != agent_plist_path(
            "com.carriez."@ + app_name,
        ),
{
    reveal_strlit("/");
    reveal_strlit("/Library/LaunchDaemons");
    reveal_strlit("/Library/LaunchDaemons/");
    reveal_strlit("/Library/LaunchAgents/");
    assert(paths.daemon_plist@ =~= daemon_plist_path("com.carriez."@ + app_name));
    assert(daemon_plist_path("com.carriez."@ + app_name)[15] == 'D');
    assert(agent_plist_path("com.carriez."@ + app_name)[15] == 'A');
}

/// A template is used exactly where it is there as text and the app may have its
/// identity written into it.
pub proof fn law_templates_need_an_acceptable_app(template: Template, app: AppIdentity)
    ensures
        for_app(template, app) is Some <==> template is Text && app.name_check is Ok && (
        app.bundle_id is None || crate::macos::identity::valid_bundle_id(app.bundle_id->0@)),
        for_app(template, app) is Some ==> for_app(template, app) == Some(
            crate::macos::identity::with_identity(
                template->Text_0@,
                app.app_name@,
                crate::text::text_view(app.bundle_id),
            ),
        ),
        app.name_check is Err ==> app.objection() == app.name_check->Err_0@,
{
}

/// The arguments of an update hold the path of its source, and its digest behind it,
/// which only an image has.
pub proof fn law_update_arguments(
    script: Seq<char>,
    username: Seq<char>,
    pid: u32,
    path: String,
    digest: String,
)
    ensures
        ({
            let image = agent_update_args(
                script,
                username,
                pid,
                UpdateSource::VerifiedDmg { path, expected_sha256: digest },
            );
            let bundle = agent_update_args(script, username, pid, UpdateSource::AppDir(path));
            &&& image.len() == 6 && bundle.len() == 6
            &&& image[4] == path@ && bundle[4] == path@
            &&& image[5] == digest@ && bundle[5].len() == 0
            &&& image.take(4) == bundle.take(4)
            &&& image[1] == script && image[2] == username && image[3] == crate::text::decimal(
                pid as nat,
            )
        }),
{
    let image = agent_update_args(
        script,
        username,
        pid,
        UpdateSource::VerifiedDmg { path, expected_sha256: digest },
    );
    let bundle = agent_update_args(script, username, pid, UpdateSource::AppDir(path));
    assert(image.take(4) =~= bundle.take(4));
}

/// Once the service is gone it is kept from starting before its agent goes, and the
/// window is closed last. A new window is opened exactly where one is wanted, and the
/// other instances are closed exactly where none is.
pub proof fn law_order_of_farewell(
    show_new_window: bool,
    full_name: Seq<char>,
    app_name: Seq<char>,
    i: int,
    j: int,
)
    requires
        0 <= i < farewell(show_new_window, full_name, app_name).len(),
        0 <= j < farewell(show_new_window, full_name, app_name).len(),
    ensures
        ({
            let list = farewell(show_new_window, full_name, app_name);
            &&& list.last() == UninstallActionView::QuitGui
            &&& list[i] == UninstallActionView::SetStopService && list[j] is RemoveAgent ==> i < j
            &&& list.contains(UninstallActionView::SetStopService)
            &&& list.contains(UninstallActionView::RemoveAgent(full_name + "_server"@))
            &&& list[i] is RemoveAgent ==> list[i] == UninstallActionView::RemoveAgent(
                full_name + "_server"@,
            )
            &&& list.contains(UninstallActionView::CloseAllInstances) <==> !show_new_window
            &&& list.contains(UninstallActionView::OpenApp("/Applications/"@ + app_name + ".app"@))
                <==> show_new_window
            &&& list[i] is CloseAllInstances ==> i == 0
            &&& list[i] is OpenApp || list[i] is CloseAllInstances ==> list[i + 1] is Pause
        }),
{
    let list = farewell(show_new_window, full_name, app_name);
    if show_new_window {
        assert(list[0] == UninstallActionView::SetStopService);
        assert(list[1] == UninstallActionView::RemoveAgent(full_name + "_server"@));
        assert(list[2] == UninstallActionView::OpenApp(app_bundle_path(app_name)));
    } else {
        assert(list[0] == UninstallActionView::CloseAllInstances);
        assert(list[2] == UninstallActionView::SetStopService);
        assert(list[3] == UninstallActionView::RemoveAgent(full_name + "_server"@));
    }
}

/// A service that starts offers its channel as the last thing; it looks for updates at
/// once where it simply starts, and after the move where one goes on.
pub proof fn law_what_a_start_does(action: ServiceStartAction)
    ensures
        action == ServiceStartAction::ExitAfterMigrationLaunch <==> service_steps(action).len() == 0,
        service_steps(action).len() > 0 ==> service_steps(action).last()
            == ServiceStep::StartChannel,
        action == ServiceStartAction::Start ==> service_steps(action)[0]
            == ServiceStep::StartUpdates && service_steps(action).len() == 2,
        action == ServiceStartAction::StartForMigrationReadiness ==> service_steps(action)[0]
            == ServiceStep::UpdatesAfterMigration && service_steps(action).len() == 2,
        action == ServiceStartAction::StartForRollbackReadiness ==> service_steps(action).len()
            == 1,
{
}

/// A command line with more arguments is the one with fewer, a space and the rest.
pub proof fn law_command_lines_grow(
    program: Seq<char>,
    args: Seq<Seq<char>>,
    more: Seq<char>,
)
    ensures
        command_line(program, args.push(more)) == command_line(program, args) + " "@ + more,
        command_line(program, Seq::empty()) == program,
{
    assert(args.push(more).drop_last() =~= args);
}

/// What is said of a failed run ends with what it complained of, without the white
/// space around that, and begins with what it was about and how it ended.
pub proof fn law_failed_runs_tell_why(before: Seq<char>, run: ScriptRun)
    ensures
        (before + run.status@).is_prefix_of(run_failure(before, run)),
        crate::text::trimmed(run.stderr@).is_suffix_of(run_failure(before, run)),
{
    let text = run_failure(before, run);
    let front = before + run.status@;
    let back = crate::text::trimmed(run.stderr@);
    assert(text.subrange(0, front.len() as int) =~= front);
    assert(text.subrange(text.len() - back.len(), text.len() as int) =~= back);
}

/// The agent takes part in an update only of a service that is installed and not stopped.
pub proof fn law_agents_update_running_services(is_installed_daemon: bool, is_service_stopped: bool)
    ensures
        updates_with_agent(true, false),
        updates_with_agent(is_installed_daemon, is_service_stopped) ==> is_installed_daemon
            && !is_service_stopped,
{
}

} // verus!
