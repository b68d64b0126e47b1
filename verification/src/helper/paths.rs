//! Where the helper, its state and the programs around it live.
use crate::file_path::same_path;
use crate::text::{chars_of, ends_with, starts_with, text_of, trim};
use vstd::prelude::*;

verus! {

pub const PRIVILEGED_HELPER_TOOLS_DIR: &'static str = "/Library/PrivilegedHelperTools";

pub const LAUNCH_DAEMONS_DIR: &'static str = "/Library/LaunchDaemons";

pub const FINALIZER_LOCK_NAME: &'static str = "finalizer.lock";

/// The paths of a helper bundle.
#[derive(Debug)]
pub struct HelperPaths {
    pub privileged_tools: String,
    pub bundle: String,
    pub contents: String,
    pub macos: String,
    pub resources: String,
    pub service: String,
    pub custom: String,
}

/// A relative path below a directory.
pub open spec fn below(dir: Seq<char>, name: Seq<char>) -> Seq<char> {
    dir + "/"@ + name
}

/// The directory of an app's helper bundle.
pub open spec fn bundle_path(tools: Seq<char>, app_name: Seq<char>) -> Seq<char> {
    below(tools, "com.carriez."@ + app_name + "_service.bundle"@)
}

/// The program of a helper bundle.
pub open spec fn helper_service(tools: Seq<char>, app_name: Seq<char>) -> Seq<char> {
    below(below(below(bundle_path(tools, app_name), "Contents"@), "MacOS"@), "service"@)
}

/// Joins a directory and a name.
pub fn join(dir: &str, name: &str) -> (r: String)
    ensures
        r@ == below(dir@, name@),
{
    let mut path: String = dir.to_owned();
    path.append("/");
    path.append(name);
    path
}

fn wrap(before: &str, middle: &str, after: &str) -> (r: String)
    ensures
        r@ == before@ + middle@ + after@,
{
    let mut text: String = before.to_owned();
    text.append(middle);
    text.append(after);
    text
}

impl HelperPaths {
    /// These are the paths of the bundle of an app below a directory.
    pub open spec fn are_for(self, tools: Seq<char>, app_name: Seq<char>) -> bool {
        &&& self.privileged_tools@ == tools
        &&& self.bundle@ == bundle_path(tools, app_name)
        &&& self.contents@ == below(self.bundle@, "Contents"@)
        &&& self.macos@ == below(self.contents@, "MacOS"@)
        &&& self.resources@ == below(self.contents@, "Resources"@)
        &&& self.service@ == below(self.macos@, "service"@)
        &&& self.custom@ == below(self.resources@, "custom.txt"@)
    }

    /// The paths of the bundle of an app below a directory. `name_check` is what
    /// the rules for names of installed apps say of the name.
    pub fn for_privileged_tools_dir(
        privileged_tools: &str,
        app_name: &str,
        name_check: Result<(), String>,
    ) -> (r: Result<HelperPaths, String>)
        ensures
            match name_check {
                Ok(()) => r matches Ok(paths) && paths.are_for(privileged_tools@, app_name@),
                Err(e) => r == Err::<HelperPaths, String>(e),
            },
    {
        if let Err(e) = name_check {
            return Err(e);
        }
        let file = wrap("com.carriez.", app_name, "_service.bundle");
        let bundle = join(privileged_tools, file.as_str());
        let contents = join(bundle.as_str(), "Contents");
        let macos = join(contents.as_str(), "MacOS");
        let resources = join(contents.as_str(), "Resources");
        let service = join(macos.as_str(), "service");
        let custom = join(resources.as_str(), "custom.txt");
        Ok(
            HelperPaths {
                privileged_tools: privileged_tools.to_owned(),
                bundle,
                contents,
                macos,
                resources,
                service,
                custom,
            },
        )
    }

    /// The paths of the installed bundle of an app.
    pub fn for_app_name(app_name: &str, name_check: Result<(), String>) -> (r: Result<
        HelperPaths,
        String,
    >)
        ensures
            match name_check {
                Ok(()) => r matches Ok(paths) && paths.are_for(
                    PRIVILEGED_HELPER_TOOLS_DIR@,
                    app_name@,
                ),
                Err(e) => r == Err::<HelperPaths, String>(e),
            },
    {
        HelperPaths::for_privileged_tools_dir(PRIVILEGED_HELPER_TOOLS_DIR, app_name, name_check)
    }
}

/// The directory with the programs of an app.
pub open spec fn app_programs(app_name: Seq<char>) -> Seq<char> {
    "/Applications/"@ + app_name + ".app/Contents/MacOS"@
}

/// The program with the windows of an app.
pub fn expected_gui_executable(app_name: &str, name_check: Result<(), String>) -> (r: Result<
    String,
    String,
>)
    ensures
        match name_check {
            Ok(()) => r matches Ok(path) && path@ == below(app_programs(app_name@), app_name@),
            Err(e) => r == Err::<String, String>(e),
        },
{
    if let Err(e) = name_check {
        return Err(e);
    }
    let programs = wrap("/Applications/", app_name, ".app/Contents/MacOS");
    Ok(join(programs.as_str(), app_name))
}

/// The service program in the app itself, as it was before the helper.
pub fn legacy_service_path(app_name: &str, name_check: Result<(), String>) -> (r: Result<
    String,
    String,
>)
    ensures
        match name_check {
            Ok(()) => r matches Ok(path) && path@ == below(app_programs(app_name@), "service"@),
            Err(e) => r == Err::<String, String>(e),
        },
{
    if let Err(e) = name_check {
        return Err(e);
    }
    let programs = wrap("/Applications/", app_name, ".app/Contents/MacOS");
    Ok(join(programs.as_str(), "service"))
}

/// The paths that the move to the helper uses.
#[derive(Debug)]
pub struct MigrationPaths {
    pub helper: HelperPaths,
    pub staging_helper: HelperPaths,
    pub state_directory: String,
    pub phase_file: String,
    pub plist_backup: String,
    pub plist_expected: String,
    pub daemon_plist: String,
    pub daemon_label: String,
    pub daemon_socket: String,
}

/// The name of the daemon of an app.
pub open spec fn daemon_label(app_name: Seq<char>) -> Seq<char> {
    "com.carriez."@ + app_name + "_service"@
}

impl MigrationPaths {
    /// These are the paths for an app below two directories.
    pub open spec fn are_for(
        self,
        tools: Seq<char>,
        daemons: Seq<char>,
        app_name: Seq<char>,
    ) -> bool {
        let state = below(tools, ".com.carriez."@ + app_name + "_service.migration"@);
        &&& self.helper.are_for(tools, app_name)
        &&& self.staging_helper.are_for(below(state, "staging"@), app_name)
        &&& self.state_directory@ == state
        &&& self.phase_file@ == below(state, "phase"@)
        &&& self.plist_backup@ == below(state, "daemon.plist.backup"@)
        &&& self.plist_expected@ == below(state, "daemon.plist.expected"@)
        &&& self.daemon_plist@ == below(daemons, "com.carriez."@ + app_name + "_service.plist"@)
        &&& self.daemon_label@ == daemon_label(app_name)
        &&& self.daemon_socket@ == "/tmp/"@ + app_name + "-service/ipc_service"@
    }

    /// The job and the settings file that the daemon is reloaded by.
    pub open spec fn reload_view(self) -> (Seq<char>, Seq<char>) {
        (self.daemon_label@, self.daemon_plist@)
    }

    /// The job and the settings file that the daemon is reloaded by.
    pub fn reload_target(&self) -> (r: (&str, &str))
        ensures
            (r.0@, r.1@) == self.reload_view(),
    {
        (self.daemon_label.as_str(), self.daemon_plist.as_str())
    }

    /// The paths for an app below two directories.
    pub fn for_roots(
        privileged_tools: &str,
        launch_daemons: &str,
        app_name: &str,
        name_check: Result<(), String>,
    ) -> (r: Result<MigrationPaths, String>)
        ensures
            match name_check {
                Ok(()) => r matches Ok(paths) && paths.are_for(
                    privileged_tools@,
                    launch_daemons@,
                    app_name@,
                ),
                Err(e) => r == Err::<MigrationPaths, String>(e),
            },
    {
        if let Err(e) = name_check {
            return Err(e);
        }
        let state_name = wrap(".com.carriez.", app_name, "_service.migration");
        let state_directory = join(privileged_tools, state_name.as_str());
        let staging_root = join(state_directory.as_str(), "staging");
        let plist_name = wrap("com.carriez.", app_name, "_service.plist");
        let helper = HelperPaths::for_privileged_tools_dir(privileged_tools, app_name, Ok(()));
        let staging = HelperPaths::for_privileged_tools_dir(
            staging_root.as_str(),
            app_name,
            Ok(()),
        );
        match (helper, staging) {
            (Ok(helper), Ok(staging_helper)) => Ok(
                MigrationPaths {
                    helper,
                    staging_helper,
                    phase_file: join(state_directory.as_str(), "phase"),
                    plist_backup: join(state_directory.as_str(), "daemon.plist.backup"),
                    plist_expected: join(state_directory.as_str(), "daemon.plist.expected"),
                    daemon_plist: join(launch_daemons, plist_name.as_str()),
                    daemon_label: wrap("com.carriez.", app_name, "_service"),
                    daemon_socket: wrap("/tmp/", app_name, "-service/ipc_service"),
                    state_directory,
                },
            ),
            (Err(e), _) => Err(e),
            (_, Err(e)) => Err(e),
        }
    }

    /// The service program in the app whose daemon this is. `name_check` is what the
    /// rules for names of installed apps say of the name in the label.
    pub fn expected_legacy_service(&self, name_check: Result<(), String>) -> (r: Result<
        String,
        String,
    >)
        ensures
            match label_app_name(self.daemon_label@) {
                Some(app_name) => match name_check {
                    Ok(()) => r matches Ok(path) && path@ == below(
                        app_programs(app_name),
                        "service"@,
                    ),
                    Err(e) => r == Err::<String, String>(e),
                },
                None => r matches Err(e) && e@ == "Invalid privileged helper launchd label"@,
            },
    {
        match app_name_of_label(self.daemon_label.as_str()) {
            Some(app_name) => legacy_service_path(app_name.as_str(), name_check),
            None => Err("Invalid privileged helper launchd label".to_owned()),
        }
    }
}

/// The app that a daemon's name belongs to.
pub open spec fn label_app_name(label: Seq<char>) -> Option<Seq<char>> {
    let prefix = "com.carriez."@;
    let suffix = "_service"@;
    if prefix.is_prefix_of(label) && suffix.is_suffix_of(label.skip(prefix.len() as int)) {
        Some(label.subrange(prefix.len() as int, label.len() - suffix.len()))
    } else {
        None
    }
}

/// The app that a daemon's name belongs to.
pub fn app_name_of_label(label: &str) -> (r: Option<String>)
    ensures
        crate::text::text_view(r) == label_app_name(label@),
{
    if !starts_with(label, "com.carriez.") {
        return None;
    }
    let chars = chars_of(label);
    let prefix = chars_of("com.carriez.");
    let suffix = chars_of("_service");
    let rest = text_of(&chars, prefix.len(), chars.len());
    assert(rest@ =~= label@.skip("com.carriez."@.len() as int));
    if !ends_with(rest.as_str(), "_service") {
        return None;
    }
    Some(text_of(&chars, prefix.len(), chars.len() - suffix.len()))
}

/// The app of a daemon's name is the app that the name was made for.
pub proof fn law_label_names_its_app(app_name: Seq<char>)
    ensures
        label_app_name(daemon_label(app_name)) == Some(app_name),
{
    let prefix = "com.carriez."@;
    let suffix = "_service"@;
    let label = daemon_label(app_name);
    let rest = label.skip(prefix.len() as int);
    assert(rest =~= app_name + suffix);
    assert(label.subrange(0, prefix.len() as int) =~= prefix);
    assert(rest.subrange(rest.len() - suffix.len(), rest.len() as int) =~= suffix);
    assert(label.subrange(prefix.len() as int, label.len() - suffix.len()) =~= app_name);
}

/// Whether the program that a tool printed is the service of the helper.
pub fn starts_helper(output: &str, helper: &str) -> (r: bool)
    ensures
        r == crate::file_path::same_path_names(crate::text::trimmed(output@), helper@),
{
    let program = trim(output);
    same_path(program.as_str(), helper)
}

proof fn lemma_slash(a: Seq<char>, b: Seq<char>)
    ensures
        below(a, b) == a.push('/') + b,
{
    reveal_strlit("/");
    assert(below(a, b) =~= a.push('/') + b);
}

/// What is below a directory has the names of the directory and then its own.
pub proof fn law_names_below_a_directory(dir: Seq<char>, name: Seq<char>)
    ensures
        crate::file_path::path_names(below(dir, name)) == crate::file_path::path_names(dir)
            + crate::file_path::path_names(name),
{
    lemma_slash(dir, name);
    crate::file_path::law_path_names_add_up(dir, name);
}

/// Where the parts of a helper's bundle are: all inside the bundle, the program beside
/// other programs and the settings beside other resources.
pub proof fn law_parts_of_a_bundle(paths: HelperPaths, tools: Seq<char>, app_name: Seq<char>)
    requires
        paths.are_for(tools, app_name),
    ensures
        paths.privileged_tools@ == tools,
        paths.bundle@ == tools + "/"@ + ("com.carriez."@ + app_name + "_service.bundle"@),
        paths.contents@ == paths.bundle@ + "/Contents"@,
        paths.macos@ == paths.bundle@ + "/Contents/MacOS"@,
        paths.resources@ == paths.bundle@ + "/Contents/Resources"@,
        paths.service@ == paths.bundle@ + "/Contents/MacOS/service"@,
        paths.custom@ == paths.bundle@ + "/Contents/Resources/custom.txt"@,
        paths.service@ == helper_service(tools, app_name),
{
    reveal_strlit("/");
    reveal_strlit("Contents");
    reveal_strlit("/Contents");
    reveal_strlit("MacOS");
    reveal_strlit("/Contents/MacOS");
    reveal_strlit("Resources");
    reveal_strlit("/Contents/Resources");
    reveal_strlit("service");
    reveal_strlit("/Contents/MacOS/service");
    reveal_strlit("custom.txt");
    reveal_strlit("/Contents/Resources/custom.txt");
    assert(paths.contents@ =~= paths.bundle@ + "/Contents"@);
    assert(paths.macos@ =~= paths.bundle@ + "/Contents/MacOS"@);
    assert(paths.resources@ =~= paths.bundle@ + "/Contents/Resources"@);
    assert(paths.service@ =~= paths.bundle@ + "/Contents/MacOS/service"@);
    assert(paths.custom@ =~= paths.bundle@ + "/Contents/Resources/custom.txt"@);
}

/// Where a move keeps its state: beside the helper, in a directory of its own that
/// holds the phase, both settings and the staged helper.
pub proof fn law_parts_of_a_move(
    paths: MigrationPaths,
    tools: Seq<char>,
    daemons: Seq<char>,
    app_name: Seq<char>,
)
    requires
        paths.are_for(tools, daemons, app_name),
    ensures
        paths.helper.are_for(tools, app_name),
        paths.state_directory@ == tools + "/"@ + (".com.carriez."@ + app_name
            + "_service.migration"@),
        paths.staging_helper.are_for(paths.state_directory@ + "/staging"@, app_name),
        paths.phase_file@ == paths.state_directory@ + "/phase"@,
        paths.plist_backup@ == paths.state_directory@ + "/daemon.plist.backup"@,
        paths.plist_expected@ == paths.state_directory@ + "/daemon.plist.expected"@,
        paths.daemon_plist@ == daemons + "/"@ + ("com.carriez."@ + app_name + "_service.plist"@),
        paths.daemon_label@ == "com.carriez."@ + app_name + "_service"@,
        paths.daemon_socket@ == "/tmp/"@ + app_name + "-service/ipc_service"@,
        paths.reload_view() == (paths.daemon_label@, paths.daemon_plist@),
{
    reveal_strlit("/");
    reveal_strlit("staging");
    reveal_strlit("/staging");
    reveal_strlit("phase");
    reveal_strlit("/phase");
    reveal_strlit("daemon.plist.backup");
    reveal_strlit("/daemon.plist.backup");
    reveal_strlit("daemon.plist.expected");
    reveal_strlit("/daemon.plist.expected");
    assert(below(paths.state_directory@, "staging"@) =~= paths.state_directory@ + "/staging"@);
    assert(paths.phase_file@ =~= paths.state_directory@ + "/phase"@);
    assert(paths.plist_backup@ =~= paths.state_directory@ + "/daemon.plist.backup"@);
    assert(paths.plist_expected@ =~= paths.state_directory@ + "/daemon.plist.expected"@);
}

/// A name without the marks of a daemon's name belongs to no app.
pub proof fn law_other_labels_name_no_app(label: Seq<char>)
    ensures
        label_app_name(label) matches Some(app_name) ==> label == daemon_label(app_name),
{
    let prefix = "com.carriez."@;
    let suffix = "_service"@;
    if prefix.is_prefix_of(label) && suffix.is_suffix_of(label.skip(prefix.len() as int)) {
        let rest = label.skip(prefix.len() as int);
        let app_name = label.subrange(prefix.len() as int, label.len() - suffix.len());
        assert(label.subrange(0, prefix.len() as int) =~= prefix);
        assert(rest.subrange(rest.len() - suffix.len(), rest.len() as int) =~= suffix);
        assert(rest =~= app_name + suffix);
        assert(label =~= prefix + rest);
        assert(label =~= daemon_label(app_name));
    }
}

} // verus!
