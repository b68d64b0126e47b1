//! The script that swaps an update in after the service has gone.
use crate::text::{chars_of, same_text, text_of};
use vstd::prelude::*;

verus! {

// In each part of the script the names of values stand in braces, and each brace
// of its own is doubled.
/// What the helper and its directories must look like.
pub const HELPER_CHECKS: &'static str = r#"#!/bin/sh
umask 077
rollback_done=0
bundle_swapped=0
helper_swapped=0
helper_backed_up=0
# Official unattended bytes are authenticated by signed update metadata and
# SHA-256. Never execute an unverified or unsigned fallback here.
helper_has_no_acl() {{
    acl_mode=$(/bin/ls -lde "$1" | /usr/bin/awk 'NR == 1 {{ print $1 }}') || return 1
    [ -n "$acl_mode" ] || return 1
    case "$acl_mode" in
        *+) return 1 ;;
    esac
}}
validate_helper_base() {{
    if [ -L /Library ] || [ ! -d /Library ] || [ -L /Library/PrivilegedHelperTools ]; then
        return 1
    fi
    if [ ! -e /Library/PrivilegedHelperTools ]; then
        mkdir /Library/PrivilegedHelperTools || return 1
        chown root:wheel /Library/PrivilegedHelperTools || return 1
        chmod -N /Library/PrivilegedHelperTools || return 1
        chmod 0755 /Library/PrivilegedHelperTools || return 1
    fi
    [ -d /Library/PrivilegedHelperTools ] || return 1
    helper_has_no_acl /Library/PrivilegedHelperTools || return 1
    [ "$(stat -f '%u' /Library/PrivilegedHelperTools)" = "0" ] || return 1
    helper_base_mode=$(stat -f '%Lp' /Library/PrivilegedHelperTools) || return 1
    case "$helper_base_mode" in
        ''|*[!0-7]*) return 1 ;;
    esac
    helper_base_bits=$((0$helper_base_mode))
    if [ $((helper_base_bits & 0022)) -ne 0 ] && \
       [ $((helper_base_bits & 01000)) -eq 0 ]; then
        return 1
    fi
}}
validate_helper_tree() {{
    helper_root="$1"
    for helper_dir in "$helper_root" "$helper_root/Contents" \
        "$helper_root/Contents/MacOS" "$helper_root/Contents/Resources"; do
        [ ! -L "$helper_dir" ] && [ -d "$helper_dir" ] && \
            helper_has_no_acl "$helper_dir" && \
            [ "$(stat -f '%u:%g:%Lp' "$helper_dir")" = "0:0:755" ] || return 1
    done
    helper_bin="$helper_root/Contents/MacOS/service"
    [ ! -L "$helper_bin" ] && [ -f "$helper_bin" ] && \
        helper_has_no_acl "$helper_bin" && \
        [ "$(stat -f '%u:%g:%Lp' "$helper_bin")" = "0:0:755" ] || return 1
    helper_custom="$helper_root/Contents/Resources/custom.txt"
    if [ -e "$helper_custom" ] || [ -L "$helper_custom" ]; then
        [ ! -L "$helper_custom" ] && [ -f "$helper_custom" ] && \
            helper_has_no_acl "$helper_custom" && \
            [ "$(stat -f '%u:%g:%Lp' "$helper_custom")" = "0:0:600" ] || return 1
    fi
}}
validate_helper_transaction() {{
    [ ! -L "{helper_transaction}" ] && [ -d "{helper_transaction}" ] && \
        helper_has_no_acl "{helper_transaction}" && \
        [ "$(stat -f '%u:%g:%Lp' "{helper_transaction}")" = "0:0:700" ]
}}
"#;

/// Preparing the new helper, and starting agents.
pub const HELPER_STAGING: &'static str = r#"stage_helper() {{
    staged_helper_bundle="{helper_staging}"
    helper_source="{src_app}/Contents/MacOS/service"
    custom_source="{src_app}/Contents/Resources/custom.txt"
    [ ! -e "{helper_transaction}" ] && [ ! -L "{helper_transaction}" ] || return 1
    mkdir "{helper_transaction}" || return 1
    chown root:wheel "{helper_transaction}" || return 1
    chmod 0700 "{helper_transaction}" || return 1
    validate_helper_transaction || return 1
    [ ! -e "$staged_helper_bundle" ] && [ ! -L "$staged_helper_bundle" ] || return 1
    [ ! -L "$helper_source" ] && [ -f "$helper_source" ] || return 1
    mkdir "$staged_helper_bundle" \
        "$staged_helper_bundle/Contents" \
        "$staged_helper_bundle/Contents/MacOS" \
        "$staged_helper_bundle/Contents/Resources" || return 1
    cp "$helper_source" "$staged_helper_bundle/Contents/MacOS/service" || return 1
    if [ -e "$custom_source" ] || [ -L "$custom_source" ]; then
        [ ! -L "$custom_source" ] && [ -f "$custom_source" ] || return 1
        cp "$custom_source" "$staged_helper_bundle/Contents/Resources/custom.txt" || return 1
    fi
    chmod -RN "$staged_helper_bundle" || return 1
    chown -R root:wheel "$staged_helper_bundle" || return 1
    chmod 0755 "$staged_helper_bundle" "$staged_helper_bundle/Contents" \
        "$staged_helper_bundle/Contents/MacOS" \
        "$staged_helper_bundle/Contents/Resources" \
        "$staged_helper_bundle/Contents/MacOS/service" || return 1
    if [ -f "$staged_helper_bundle/Contents/Resources/custom.txt" ]; then
        chmod 0600 "$staged_helper_bundle/Contents/Resources/custom.txt" || return 1
    fi
    validate_helper_tree "$staged_helper_bundle"
}}
bootstrap_agent() {{
    agent_uid="$1"
    if [ "$agent_uid" != "0" ]; then
        launchctl bootstrap gui/"$agent_uid" "{agent_plist}" 2>/dev/null || \
            launchctl bootstrap user/"$agent_uid" "{agent_plist}" 2>/dev/null || \
            launchctl load -w "{agent_plist}" 2>/dev/null
    else
        # At the login window there is no gui/0 domain.  launchctl load uses
        # the plist's LoginWindow/Aqua session policy instead.
        launchctl load -w -S LoginWindow "{agent_plist}" 2>/dev/null || \
            launchctl load -w "{agent_plist}" 2>/dev/null
    fi
}}
bootstrap_agents() {{
    for agent_uid in {uid_list}; do
        bootstrap_agent "$agent_uid" || return 1
    done
}}
"#;

/// Taking agents from the launch daemon, and finding their processes.
pub const AGENT_STOPPING: &'static str = r#"loginwindow_asid() {{
    root_user_info=$(launchctl print user/0 2>/dev/null || true)
    root_login_asid=$(printf '%s\n' "$root_user_info" | \
        awk '/^[[:space:]]*asid = [0-9]+[[:space:]]*$/ {{print $3; exit}}')
    case "$root_login_asid" in
        ''|*[!0-9]*) return 1 ;;
    esac
    printf '%s\n' "$root_login_asid"
}}
bootout_agents() {{
    # Legacy launchctl commands can report success despite operational
    # failure. Treat these as requests; stop_agents verifies the result.
    stopping_loginwindow_asid=""
    for agent_uid in {uid_list}; do
        if [ "$agent_uid" != "0" ]; then
            launchctl bootout gui/"$agent_uid"/{agent_label} 2>/dev/null || true
            launchctl bootout user/"$agent_uid"/{agent_label} 2>/dev/null || true
        else
            # LoginWindow jobs run in a login/<asid> domain even though
            # legacy root `launchctl load` is issued from the system context.
            # Remove every applicable registration before killing the process
            # so KeepAlive cannot immediately respawn it.
            launchctl unload -w -S LoginWindow "{agent_plist}" 2>/dev/null || true
            stopping_loginwindow_asid=$(loginwindow_asid || true)
            if [ -n "$stopping_loginwindow_asid" ]; then
                launchctl bootout login/"$stopping_loginwindow_asid"/{agent_label} 2>/dev/null || true
            fi
            launchctl bootout user/0/{agent_label} 2>/dev/null || true
            launchctl bootout system/{agent_label} 2>/dev/null || true
            launchctl unload -w "{agent_plist}" 2>/dev/null || true
        fi
    done
}}
find_agent_pid() {{
    agent_uid="$1"
    for candidate_pid in $(pgrep -u "$agent_uid" -x {app_name} 2>/dev/null || true); do
        process_args=$(ps -p "$candidate_pid" -o args= 2>/dev/null || true)
        if printf '%s\n' "$process_args" | grep -F "/Applications/{app_name}.app/Contents/MacOS/{app_name}" >/dev/null && \
           printf '%s\n' "$process_args" | grep -E '(^|[[:space:]])--server([[:space:]]|$)' >/dev/null; then
            printf '%s\n' "$candidate_pid"
            return 0
        fi
    done
    return 1
}}
launchd_agent_pid() {{
    agent_uid="$1"
    agent_info=$(launchctl print gui/"$agent_uid"/{agent_label} 2>/dev/null || \
        launchctl print user/"$agent_uid"/{agent_label} 2>/dev/null || true)
    agent_job_pid=$(printf '%s\n' "$agent_info" | awk '/^[[:space:]]*pid = / {{print $3; exit}}')
    if [ -n "$agent_job_pid" ] && \
       printf '%s\n' "$agent_info" | grep -E '^[[:space:]]*state = running[[:space:]]*$' >/dev/null; then
        printf '%s\n' "$agent_job_pid"
        return 0
    fi
    return 1
}}
"#;

/// Ending the processes of agents and windows.
pub const AGENT_PROCESSES: &'static str = r#"agent_pid_for_uid() {{
    agent_uid="$1"
    if [ "$agent_uid" = "0" ]; then
        # LoginWindow agents have no ordinary gui/0 bootstrap domain. Locate
        # the root-owned --server process and validate it below instead.
        find_agent_pid "$agent_uid"
    else
        launchd_agent_pid "$agent_uid"
    fi
}}
agent_process_matches() {{
    agent_uid="$1"
    agent_pid="$2"
    process_uid=$(ps -p "$agent_pid" -o uid= 2>/dev/null | tr -d '[:space:]')
    process_args=$(ps -p "$agent_pid" -o args= 2>/dev/null || true)
    [ "$process_uid" = "$agent_uid" ] && \
        printf '%s\n' "$process_args" | grep -F "/Applications/{app_name}.app/Contents/MacOS/{app_name}" >/dev/null && \
        printf '%s\n' "$process_args" | grep -E '(^|[[:space:]])--server([[:space:]]|$)' >/dev/null
}}
capture_stopping_agent_pids() {{
    stopping_agent_pids=""
    for agent_uid in {uid_list}; do
        for candidate_pid in $(pgrep -u "$agent_uid" -x {app_name} 2>/dev/null || true); do
            if agent_process_matches "$agent_uid" "$candidate_pid"; then
                stopping_agent_pids="$stopping_agent_pids $candidate_pid"
            fi
        done
    done
}}
terminate_agent_processes() {{
    for agent_uid in {uid_list}; do
        for candidate_pid in $(pgrep -u "$agent_uid" -x {app_name} 2>/dev/null || true); do
            if agent_process_matches "$agent_uid" "$candidate_pid"; then
                kill -KILL "$candidate_pid" 2>/dev/null || true
            fi
        done
    done
}}
terminate_user_bundle_processes() {{
    for agent_uid in {uid_list}; do
        for candidate_pid in $(pgrep -u "$agent_uid" -x {app_name} 2>/dev/null || true); do
            process_args=$(ps -p "$candidate_pid" -o args= 2>/dev/null || true)
            if printf '%s\n' "$process_args" | grep -F "/Applications/{app_name}.app/" >/dev/null; then
                kill -KILL "$candidate_pid" 2>/dev/null || true
            fi
        done
    done
}}
user_bundle_processes_absent() {{
    for agent_uid in {uid_list}; do
        for candidate_pid in $(pgrep -u "$agent_uid" -x {app_name} 2>/dev/null || true); do
            process_args=$(ps -p "$candidate_pid" -o args= 2>/dev/null || true)
            if printf '%s\n' "$process_args" | grep -F "/Applications/{app_name}.app/" >/dev/null; then
                return 1
            fi
        done
    done
    return 0
}}
"#;

/// Waiting until agents have stopped.
pub const AGENT_STOPPED: &'static str = r#"stop_user_bundle_processes() {{
    terminate_user_bundle_processes
    bundle_stop_attempt=0
    while [ "$bundle_stop_attempt" -lt 30 ]; do
        bundle_stop_attempt=$((bundle_stop_attempt + 1))
        if user_bundle_processes_absent; then
            sleep 2
            user_bundle_processes_absent && return 0
        fi
        terminate_user_bundle_processes
        sleep 1
    done
    return 1
}}
agent_jobs_absent() {{
    for agent_uid in {uid_list}; do
        if [ "$agent_uid" != "0" ]; then
            if launchctl print gui/"$agent_uid"/{agent_label} >/dev/null 2>&1 || \
               launchctl print user/"$agent_uid"/{agent_label} >/dev/null 2>&1; then
                return 1
            fi
        else
            if launchctl print system/{agent_label} >/dev/null 2>&1 || \
               launchctl print user/0/{agent_label} >/dev/null 2>&1; then
                return 1
            fi
            if [ -n "$stopping_loginwindow_asid" ] && \
               launchctl print login/"$stopping_loginwindow_asid"/{agent_label} >/dev/null 2>&1; then
                return 1
            fi
        fi
        find_agent_pid "$agent_uid" >/dev/null 2>&1 && return 1
    done
    return 0
}}
captured_agent_pids_gone() {{
    for stopped_pid in $stopping_agent_pids; do
        kill -0 "$stopped_pid" 2>/dev/null && return 1
    done
    return 0
}}
agents_stopped() {{
    captured_agent_pids_gone && agent_jobs_absent
}}
stop_agents() {{
    bootout_agents
    terminate_agent_processes
    agent_stop_attempt=0
    while [ "$agent_stop_attempt" -lt 30 ]; do
        agent_stop_attempt=$((agent_stop_attempt + 1))
        if agents_stopped; then
            sleep 2
            agents_stopped && return 0
        fi
        terminate_agent_processes
        sleep 1
    done
    return 1
}}
"#;

/// Looking at sockets, agents and the daemon.
pub const READINESS: &'static str = r#"socket_ready() {{
    socket_path="$1"
    socket_expected_uid="$2"
    [ ! -L "$socket_path" ] && [ -S "$socket_path" ] && \
        [ "$(/usr/bin/stat -f '%u' "$socket_path")" = "$socket_expected_uid" ] && \
        /usr/bin/nc -zU "$socket_path"
}}
capture_agent_snapshot() {{
    agent_pids=""
    for agent_uid in {uid_list}; do
        agent_pid=$(agent_pid_for_uid "$agent_uid" || true)
        [ -n "$agent_pid" ] || return 1
        socket_ready "/tmp/{app_name}-$agent_uid/ipc" "$agent_uid" || return 1
        kill -0 "$agent_pid" 2>/dev/null || return 1
        agent_process_matches "$agent_uid" "$agent_pid" || return 1
        agent_pids="$agent_pids $agent_uid:$agent_pid"
    done
    return 0
}}
agent_snapshot_stable() {{
    for agent_entry in $agent_pids; do
        agent_uid=$(printf '%s\n' "$agent_entry" | cut -d: -f1)
        expected_pid=$(printf '%s\n' "$agent_entry" | cut -d: -f2)
        current_pid=$(agent_pid_for_uid "$agent_uid" || true)
        [ -n "$current_pid" ] && [ "$current_pid" = "$expected_pid" ] || return 1
        socket_ready "/tmp/{app_name}-$agent_uid/ipc" "$agent_uid" || return 1
        kill -0 "$current_pid" 2>/dev/null || return 1
        agent_process_matches "$agent_uid" "$current_pid" || return 1
    done
    return 0
}}
agent_ready() {{
    agent_ready_attempt=0
    while [ "$agent_ready_attempt" -lt 30 ]; do
        agent_ready_attempt=$((agent_ready_attempt + 1))
        if capture_agent_snapshot; then
            sleep 2
            agent_snapshot_stable && return 0
        fi
        sleep 1
    done
    return 1
}}
daemon_program_matches_plist() {{
    expected_daemon_program=$(/usr/libexec/PlistBuddy -c 'Print :ProgramArguments:0' "{daemon_plist}") || return 1
    actual_daemon_program=$(printf '%s\n' "$1" | \
        /usr/bin/awk '/^[[:space:]]*program = / {{print $3; exit}}') || return 1
    [ -n "$expected_daemon_program" ] && \
        [ "$actual_daemon_program" = "$expected_daemon_program" ]
}}
daemon_snapshot_stable() {{
    stable_daemon_info=$(launchctl print system/{daemon_label} 2>/dev/null || true)
    stable_daemon_pid=$(printf '%s\n' "$stable_daemon_info" | awk '/^[[:space:]]*pid = / {{print $3; exit}}')
    [ -n "$daemon_pid" ] && \
        [ "$stable_daemon_pid" = "$daemon_pid" ] && \
        printf '%s\n' "$stable_daemon_info" | grep -E '^[[:space:]]*state = running[[:space:]]*$' >/dev/null && \
        daemon_program_matches_plist "$stable_daemon_info" && \
        socket_ready "/tmp/{app_name}-service/ipc_service" 0 && \
        kill -0 "$daemon_pid" 2>/dev/null
}}
"#;

/// Waiting for the daemon to run or to stop.
pub const DAEMON_JOBS: &'static str = r#"daemon_ready() {{
    daemon_pid=""
    daemon_ready_attempt=0
    while [ "$daemon_ready_attempt" -lt 30 ]; do
        daemon_ready_attempt=$((daemon_ready_attempt + 1))
        daemon_info=$(launchctl print system/{daemon_label} 2>/dev/null || true)
        daemon_pid=$(printf '%s\n' "$daemon_info" | awk '/^[[:space:]]*pid = / {{print $3; exit}}')
        if [ -n "$daemon_pid" ] && \
           printf '%s\n' "$daemon_info" | grep -E '^[[:space:]]*state = running[[:space:]]*$' >/dev/null && \
           daemon_program_matches_plist "$daemon_info" && \
           socket_ready "/tmp/{app_name}-service/ipc_service" 0 && \
           kill -0 "$daemon_pid" 2>/dev/null; then
            sleep 2
            daemon_snapshot_stable && return 0
        fi
        sleep 1
    done
    return 1
}}
capture_stopping_daemon_pid() {{
    stopping_daemon_info=$(launchctl print system/{daemon_label} 2>/dev/null || true)
    stopping_daemon_pid=$(printf '%s\n' "$stopping_daemon_info" | awk '/^[[:space:]]*pid = / {{print $3; exit}}')
}}
daemon_stopped() {{
    if [ -n "$stopping_daemon_pid" ] && kill -0 "$stopping_daemon_pid" 2>/dev/null; then
        return 1
    fi
    ! launchctl print system/{daemon_label} >/dev/null 2>&1
}}
stop_daemon() {{
    capture_stopping_daemon_pid
    # Command status is advisory. daemon_stopped verifies that both the
    # captured process generation and launchd registration are gone.
    launchctl bootout system/{daemon_label} 2>/dev/null || \
        launchctl unload -w "{daemon_plist}" 2>/dev/null || true
    daemon_stop_attempt=0
    while [ "$daemon_stop_attempt" -lt 30 ]; do
        daemon_stop_attempt=$((daemon_stop_attempt + 1))
        if daemon_stopped; then
            sleep 2
            daemon_stopped && return 0
        fi
        sleep 1
    done
    return 1
}}
"#;

/// Writing definitions, and bringing the old bundle back.
pub const DEFINITIONS: &'static str = r#"write_new_plists() {{
    {helper_service} --write-plists \
        >"{tmp_dir}/write-plists.log" 2>&1 &
    write_pid=$!
    plist_write_attempt=0
    while [ "$plist_write_attempt" -lt 60 ]; do
        plist_write_attempt=$((plist_write_attempt + 1))
        if ! kill -0 "$write_pid" 2>/dev/null; then
            wait "$write_pid"
            return $?
        fi
        sleep 1
    done
    kill -TERM "$write_pid" 2>/dev/null || true
    sleep 1
    kill -KILL "$write_pid" 2>/dev/null || true
    wait "$write_pid" 2>/dev/null || true
    return 124
}}
restore_plist_atomically() {{
    restore_source="$1"
    restore_target="$2"
    restore_stage="$restore_target.rollback.$$"
    [ ! -e "$restore_stage" ] && [ ! -L "$restore_stage" ] || return 1
    if ! cp -p "$restore_source" "$restore_stage" || \
       ! chown root:wheel "$restore_stage" || \
       ! chmod -N "$restore_stage" || \
       ! chmod 0644 "$restore_stage" || \
       ! mv "$restore_stage" "$restore_target"; then
        rm -f "$restore_stage"
        return 1
    fi
    [ ! -L "$restore_target" ] && [ -f "$restore_target" ] && \
        [ "$(stat -f '%u:%g:%Lp' "$restore_target")" = "0:0:644" ]
}}
restore_old_bundle() {{
    [ "$bundle_swapped" -eq 1 ] || return 0
    if [ ! -d "{app_backup}" ] || [ -L "{app_backup}" ]; then
        echo "[root-update] CRITICAL: valid application backup is unavailable" >> {tmp_dir}/rustdesk_root_update.log
        return 1
    fi
    if [ -e "{app_bundle}" ] || [ -L "{app_bundle}" ]; then
        if [ -e "{failed_bundle}" ] || [ -L "{failed_bundle}" ] || \
           ! mv "{app_bundle}" "{failed_bundle}"; then
            echo "[root-update] CRITICAL: could not vacate failed bundle safely" >> {tmp_dir}/rustdesk_root_update.log
            return 1
        fi
    fi
    if ! mv "{app_backup}" "{app_bundle}"; then
        echo "[root-update] CRITICAL: failed to restore application bundle" >> {tmp_dir}/rustdesk_root_update.log
        if [ ! -e "{app_bundle}" ] && [ ! -L "{app_bundle}" ]; then
            mv "{failed_bundle}" "{app_bundle}" 2>/dev/null || true
        fi
        return 1
    fi
    bundle_swapped=0
    return 0
}}
"#;

/// Bringing the old helper back, and the whole way back.
pub const ROLLBACK: &'static str = r#"restore_old_helper() {{
    validate_helper_base || return 1
    if [ ! -e "{helper_transaction}" ] && [ ! -L "{helper_transaction}" ]; then
        [ "$helper_swapped" -eq 0 ] && [ "$helper_backed_up" -eq 0 ]
        return $?
    fi
    validate_helper_transaction || return 1
    if [ "$helper_swapped" -eq 1 ]; then
        if [ -e "{helper_bundle}" ] || [ -L "{helper_bundle}" ]; then
            [ ! -e "{helper_failed}" ] && [ ! -L "{helper_failed}" ] || return 1
            mv "{helper_bundle}" "{helper_failed}" || return 1
        fi
        helper_swapped=0
    fi
    if [ "$helper_backed_up" -eq 1 ]; then
        validate_helper_tree "{helper_backup}" || return 1
        if [ -e "{helper_bundle}" ] || [ -L "{helper_bundle}" ]; then
            return 1
        fi
        mv "{helper_backup}" "{helper_bundle}" || return 1
        validate_helper_tree "{helper_bundle}" || return 1
        helper_backed_up=0
    fi
    rm -rf "{helper_transaction}"
}}
rollback_transaction() {{
    # Rollback restores and verifies unattended service state. It does not
    # guarantee relaunching GUI windows that were stopped by the transaction.
    [ "$rollback_done" -eq 0 ] || return 0
    rollback_done=1
    restore_failed=0
    rollback_jobs_stopped=1
    stop_daemon || rollback_jobs_stopped=0
    capture_stopping_agent_pids
    stop_agents || rollback_jobs_stopped=0
    touch /var/root/.rustdeskupdate_failed || restore_failed=1
    if [ "$rollback_jobs_stopped" -eq 1 ]; then
        restore_old_bundle || restore_failed=1
        restore_old_helper || restore_failed=1
        restore_plist_atomically "{daemon_plist_bak}" "{daemon_plist}" || restore_failed=1
        restore_plist_atomically "{agent_plist_bak}" "{agent_plist}" || restore_failed=1
        if ! launchctl load -w "{daemon_plist}" 2>/dev/null && \
           ! launchctl bootstrap system "{daemon_plist}" 2>/dev/null; then
            restore_failed=1
        fi
        daemon_ready || restore_failed=1
        bootstrap_agents || restore_failed=1
        agent_ready || restore_failed=1
        if [ "$restore_failed" -eq 0 ] && \
           {{ ! daemon_snapshot_stable || ! agent_snapshot_stable; }}; then
            restore_failed=1
        fi
    else
        restore_failed=1
    fi
    if [ "$restore_failed" -ne 0 ]; then
        echo "[root-update] CRITICAL: rollback restoration failed" >> {tmp_dir}/rustdesk_root_update.log
    else
        echo "[root-update] Rollback daemon and agents verified healthy" >> {tmp_dir}/rustdesk_root_update.log
    fi
}}
"#;

/// Stopping everything and checking the new bundle.
pub const SHUTDOWN: &'static str = r#"trap rollback_transaction EXIT
if ! validate_helper_base; then
    echo "[root-update] privileged helper base validation failed" >> {tmp_dir}/rustdesk_root_update.log
    exit 1
fi
if ! stage_helper; then
    echo "[root-update] protected helper staging failed" >> {tmp_dir}/rustdesk_root_update.log
    exit 1
fi
gui_uids=""
for agent_uid in {uid_list}; do
    for pid in $(pgrep -u "$agent_uid" -x {app_name} || true); do
        process_args=$(ps -p "$pid" -o args= 2>/dev/null || true)
        if printf '%s\n' "$process_args" | grep -F "/Applications/{app_name}.app/" >/dev/null && \
           ! printf '%s\n' "$process_args" | grep -E "(^|[[:space:]])(--server|--service|--update)([[:space:]]|$)" >/dev/null; then
            gui_uids="$gui_uids $agent_uid"
            break
        fi
    done
done
if ! capture_agent_snapshot; then
    echo "[root-update] old LaunchAgent readiness check failed before shutdown" >> {tmp_dir}/rustdesk_root_update.log
    exit 1
fi
capture_stopping_agent_pids
if ! stop_daemon; then
    echo "[root-update] daemon did not stop before bundle swap" >> {tmp_dir}/rustdesk_root_update.log
    exit 1
fi
if ! stop_agents; then
    echo "[root-update] old LaunchAgent did not stop before bundle swap" >> {tmp_dir}/rustdesk_root_update.log
    exit 1
fi
# Agents have already been verified absent. Stop and verify any remaining GUI
# processes as well so no process keeps the old bundle mapped across the swap.
if ! stop_user_bundle_processes; then
    echo "[root-update] RustDesk GUI process did not stop before bundle swap" >> {tmp_dir}/rustdesk_root_update.log
    exit 1
fi
staged_bundle="{tmp_dir}/staged.app"
if [ -e "$staged_bundle" ] || [ -L "$staged_bundle" ]; then
    echo "[root-update] staged bundle path already exists, aborting" >> {tmp_dir}/rustdesk_root_update.log
    exit 1
fi
if ! ditto {src_app} "$staged_bundle" 2>/dev/null; then
    echo "[root-update] ditto failed, aborting update" >> {tmp_dir}/rustdesk_root_update.log
    rm -rf "$staged_bundle"
    exit 1
fi
# Validate staged bundle before atomic swap
if [ ! -d "$staged_bundle/Contents/MacOS" ] || \
   [ ! -f "$staged_bundle/Contents/MacOS/{app_name}" ] || \
   [ ! -f "$staged_bundle/Contents/MacOS/service" ] || \
   [ ! -f "$staged_bundle/Contents/Info.plist" ]; then
    echo "[root-update] staged bundle validation failed, aborting" >> {tmp_dir}/rustdesk_root_update.log
    rm -rf "$staged_bundle"
    exit 1
fi
"#;

/// Swapping the bundle and the helper.
pub const SWAP: &'static str = r#"if ! mv {app_bundle} {app_backup}; then
    echo "[root-update] backup mv failed, aborting" >> {tmp_dir}/rustdesk_root_update.log
    rm -rf "$staged_bundle"
    exit 1
fi
bundle_swapped=1
staged_bundle_identity=$(stat -f '%d:%i' "$staged_bundle") || exit 1
if ! mv "$staged_bundle" {app_bundle}; then
    echo "[root-update] replacement mv failed, restoring backup" >> {tmp_dir}/rustdesk_root_update.log
    exit 1
fi
installed_bundle_identity=$(stat -f '%d:%i' {app_bundle}) || exit 1
if [ "$installed_bundle_identity" != "$staged_bundle_identity" ]; then
    echo "[root-update] replacement mv did not atomically install staged bundle" >> {tmp_dir}/rustdesk_root_update.log
    exit 1
fi
# Install the application bundle as root-owned so the GUI and LaunchAgent
# cannot be replaced during the transaction. The LaunchDaemon runs only the
# separately protected helper installed below.
if ! chown -R root:wheel {app_bundle} || ! chmod -R go-w {app_bundle}; then
    echo "[root-update] chown failed, restoring backup" >> {tmp_dir}/rustdesk_root_update.log
    exit 1
fi
xattr -r -d com.apple.quarantine {app_bundle} || true
# Keep root-executed files AND entire ancestor chain root-owned — prevent privilege escalation
if ! chown root:wheel {app_bundle} || \
   ! chmod 755 {app_bundle} || \
   ! chown root:wheel {app_bundle}/Contents || \
   ! chmod 755 {app_bundle}/Contents || \
   ! chown root:wheel {app_bundle}/Contents/MacOS || \
   ! chmod 755 {app_bundle}/Contents/MacOS || \
   ! chown root:wheel {app_bundle}/Contents/MacOS/service || \
   ! chmod 755 {app_bundle}/Contents/MacOS/service || \
   ! chown root:wheel {app_bundle}/Contents/MacOS/{app_name} || \
   ! chmod 755 {app_bundle}/Contents/MacOS/{app_name}; then
    echo "[root-update] hardening failed, restoring backup" >> {tmp_dir}/rustdesk_root_update.log
    exit 1
fi
# Atomically replace the protected helper before it generates the new plist.
if [ -e "{helper_bundle}" ] || [ -L "{helper_bundle}" ]; then
    if ! validate_helper_tree "{helper_bundle}" || \
       ! mv "{helper_bundle}" "{helper_backup}"; then
        echo "[root-update] protected helper backup failed" >> {tmp_dir}/rustdesk_root_update.log
        exit 1
    fi
    helper_backed_up=1
fi
if ! mv "{helper_staging}" "{helper_bundle}"; then
    echo "[root-update] protected helper swap failed" >> {tmp_dir}/rustdesk_root_update.log
    exit 1
fi
helper_swapped=1
if ! validate_helper_tree "{helper_bundle}"; then
    echo "[root-update] installed helper validation failed" >> {tmp_dir}/rustdesk_root_update.log
    exit 1
fi
# Generate launchd definitions from the new, final-location binary.  The
# subprocess is bounded and its output is retained for diagnosis; failure
# causes the existing bundle/plists to be restored by the EXIT trap.
if ! write_new_plists; then
    echo "[root-update] CRITICAL: new binary failed to write plists" >> {tmp_dir}/rustdesk_root_update.log
    cat "{tmp_dir}/write-plists.log" >> {tmp_dir}/rustdesk_root_update.log 2>/dev/null || true
    exit 1
fi
echo "[root-update] Plist definitions written by new binary" >> {tmp_dir}/rustdesk_root_update.log
"#;

/// Starting the new service, and keeping it.
pub const COMMIT: &'static str = r#"# Check daemon registration and readiness BEFORE removing backup.  launchctl
# load/bootstrap only registers the job; the service can still exit immediately.
if ! launchctl load -w {daemon_plist} 2>/dev/null && \
   ! launchctl bootstrap system {daemon_plist} 2>/dev/null; then
    echo "[root-update] CRITICAL: daemon reload failed, restoring backup" >> {tmp_dir}/rustdesk_root_update.log
    exit 1
fi
if ! daemon_ready; then
    echo "[root-update] CRITICAL: daemon failed readiness check, restoring" >> {tmp_dir}/rustdesk_root_update.log
    exit 1
fi
# Bootstrap agent BEFORE removing backup — needed for rollback on failure.
# This also uses launchctl load for the login-window/no-console-user case.
if ! bootstrap_agents || ! agent_ready; then
    echo "[root-update] CRITICAL: agent bootstrap failed, rolling back" >> {tmp_dir}/rustdesk_root_update.log
    exit 1
fi
# Recheck daemon liveness after the agent is restored and immediately before
# deleting the only rollback bundle.
if ! daemon_snapshot_stable || ! agent_snapshot_stable; then
    echo "[root-update] CRITICAL: daemon or agent stopped before commit, restoring" >> {tmp_dir}/rustdesk_root_update.log
    exit 1
fi
# Only remove backup after BOTH daemon AND agent confirmed running
rollback_done=1
bundle_swapped=0
helper_swapped=0
if ! rm -rf "{app_backup}"; then
    cleanup_warning="[root-update] WARNING: committed update but could not remove application backup"
    echo "$cleanup_warning" >> {tmp_dir}/rustdesk_root_update.log
    /usr/bin/logger -t RustDesk "$cleanup_warning" || true
fi
if validate_helper_transaction && rm -rf "{helper_transaction}"; then
    helper_backed_up=0
else
    cleanup_warning="[root-update] WARNING: committed update but could not remove helper transaction"
    echo "$cleanup_warning" >> {tmp_dir}/rustdesk_root_update.log
    /usr/bin/logger -t RustDesk "$cleanup_warning" || true
fi
for gui_uid in $gui_uids; do
    launchctl asuser "$gui_uid" open -a "{app_bundle}" || true
done
echo "[root-update] Done!" >> {tmp_dir}/rustdesk_root_update.log
if ! rm -rf {tmp_dir}; then
    cleanup_warning="[root-update] WARNING: committed update but could not remove update temp directory"
    /usr/bin/logger -t RustDesk "$cleanup_warning" || true
fi
"#;

/// What the script is about. Every path is absolute.
#[derive(Debug)]
pub struct ScriptValues {
    pub app_name: String,
    pub app_bundle: String,
    pub app_backup: String,
    pub failed_bundle: String,
    pub src_app: String,
    pub uid_list: String,
    pub daemon_plist: String,
    pub agent_plist: String,
    pub tmp_dir: String,
    pub daemon_label: String,
    pub agent_label: String,
    pub daemon_plist_bak: String,
    pub agent_plist_bak: String,
    pub helper_bundle: String,
    pub helper_service: String,
    pub helper_transaction: String,
    pub helper_backup: String,
    pub helper_staging: String,
    pub helper_failed: String,
}

impl ScriptValues {
    /// The value of a name.
    pub open spec fn value_view(self, name: Seq<char>) -> Option<Seq<char>> {
        if name == "app_name"@ {
            Some(self.app_name@)
        } else if name == "app_bundle"@ {
            Some(self.app_bundle@)
        } else if name == "app_backup"@ {
            Some(self.app_backup@)
        } else if name == "failed_bundle"@ {
            Some(self.failed_bundle@)
        } else if name == "src_app"@ {
            Some(self.src_app@)
        } else if name == "uid_list"@ {
            Some(self.uid_list@)
        } else if name == "daemon_plist"@ {
            Some(self.daemon_plist@)
        } else if name == "agent_plist"@ {
            Some(self.agent_plist@)
        } else if name == "tmp_dir"@ {
            Some(self.tmp_dir@)
        } else if name == "daemon_label"@ {
            Some(self.daemon_label@)
        } else if name == "agent_label"@ {
            Some(self.agent_label@)
        } else if name == "daemon_plist_bak"@ {
            Some(self.daemon_plist_bak@)
        } else if name == "agent_plist_bak"@ {
            Some(self.agent_plist_bak@)
        } else if name == "helper_bundle"@ {
            Some(self.helper_bundle@)
        } else if name == "helper_service"@ {
            Some(self.helper_service@)
        } else if name == "helper_transaction"@ {
            Some(self.helper_transaction@)
        } else if name == "helper_backup"@ {
            Some(self.helper_backup@)
        } else if name == "helper_staging"@ {
            Some(self.helper_staging@)
        } else if name == "helper_failed"@ {
            Some(self.helper_failed@)
        } else {
            None
        }
    }

    /// The value of a name.
    pub fn value(&self, name: &str) -> (r: Option<&str>)
        ensures
            match r {
                Some(value) => self.value_view(name@) == Some(value@),
                None => self.value_view(name@) is None,
            },
    {
        if same_text(name, "app_name") {
            Some(self.app_name.as_str())
        } else if same_text(name, "app_bundle") {
            Some(self.app_bundle.as_str())
        } else if same_text(name, "app_backup") {
            Some(self.app_backup.as_str())
        } else if same_text(name, "failed_bundle") {
            Some(self.failed_bundle.as_str())
        } else if same_text(name, "src_app") {
            Some(self.src_app.as_str())
        } else if same_text(name, "uid_list") {
            Some(self.uid_list.as_str())
        } else if same_text(name, "daemon_plist") {
            Some(self.daemon_plist.as_str())
        } else if same_text(name, "agent_plist") {
            Some(self.agent_plist.as_str())
        } else if same_text(name, "tmp_dir") {
            Some(self.tmp_dir.as_str())
        } else if same_text(name, "daemon_label") {
            Some(self.daemon_label.as_str())
        } else if same_text(name, "agent_label") {
            Some(self.agent_label.as_str())
        } else if same_text(name, "daemon_plist_bak") {
            Some(self.daemon_plist_bak.as_str())
        } else if same_text(name, "agent_plist_bak") {
            Some(self.agent_plist_bak.as_str())
        } else if same_text(name, "helper_bundle") {
            Some(self.helper_bundle.as_str())
        } else if same_text(name, "helper_service") {
            Some(self.helper_service.as_str())
        } else if same_text(name, "helper_transaction") {
            Some(self.helper_transaction.as_str())
        } else if same_text(name, "helper_backup") {
            Some(self.helper_backup.as_str())
        } else if same_text(name, "helper_staging") {
            Some(self.helper_staging.as_str())
        } else if same_text(name, "helper_failed") {
            Some(self.helper_failed.as_str())
        } else {
            None
        }
    }
}

/// Where the brace stands that closes a name, at or after a place.
pub open spec fn closing(t: Seq<char>, from: int) -> int
    decreases t.len() - from,
{
    if from >= t.len() {
        -1
    } else if t[from] == '}' {
        from
    } else {
        closing(t, from + 1)
    }
}

/// The rest of a text from a place on, with the values in the place of their names
/// and single braces for doubled ones. A brace that opens no known name stays.
pub open spec fn filled(t: Seq<char>, from: int, values: ScriptValues) -> Seq<char>
    decreases t.len() - from,
{
    if from < 0 || from >= t.len() {
        Seq::empty()
    } else if from + 1 < t.len() && (t[from] == '{' || t[from] == '}') && t[from + 1] == t[from] {
        seq![t[from]] + filled(t, from + 2, values)
    } else if t[from] == '{' && from < closing(t, from + 1) < t.len() && values.value_view(
        t.subrange(from + 1, closing(t, from + 1)),
    ) is Some {
        values.value_view(t.subrange(from + 1, closing(t, from + 1)))->0 + filled(
            t,
            closing(t, from + 1) + 1,
            values,
        )
    } else {
        seq![t[from]] + filled(t, from + 1, values)
    }
}

fn find_closing(t: &Vec<char>, from: usize) -> (r: Option<usize>)
    ensures
        match r {
            Some(at) => at == closing(t@, from as int) && from <= at < t.len(),
            None => closing(t@, from as int) == -1,
        },
{
    let mut at: usize = from;
    while at < t.len()
        invariant
            from <= at,
            from < t.len() ==> at <= t.len(),
            closing(t@, from as int) == closing(t@, at as int),
        decreases t.len() - at,
    {
        if t[at] == '}' {
            return Some(at);
        }
        at = at + 1;
    }
    None
}

/// Writes values into a text.
pub fn fill(template: &str, values: &ScriptValues) -> (r: String)
    ensures
        r@ == filled(template@, 0, *values),
{
    let chars = chars_of(template);
    let mut out: String = String::new();
    let mut i: usize = 0;
    let ghost t = template@;
    assert(out@ + filled(t, 0, *values) =~= filled(t, 0, *values));
    while i < chars.len()
        invariant
            chars@ == t,
            t == template@,
            i <= chars.len(),
            out@ + filled(t, i as int, *values) == filled(t, 0, *values),
        decreases chars.len() - i,
    {
        let ghost done = out@;
        let ghost at = i as int;
        let c = chars[i];
        if i + 1 < chars.len() && (c == '{' || c == '}') && chars[i + 1] == c {
            let piece = text_of(&chars, i, i + 1);
            assert(piece@ =~= seq![c]);
            out.append(piece.as_str());
            i = i + 2;
            assert(out@ + filled(t, i as int, *values) =~= done + (seq![c] + filled(
                t,
                i as int,
                *values,
            )));
            continue ;
        }
        if c == '{' {
            if let Some(end) = find_closing(&chars, i + 1) {
                let name = text_of(&chars, i + 1, end);
                if let Some(value) = values.value(name.as_str()) {
                    out.append(value);
                    i = end + 1;
                    assert(out@ + filled(t, i as int, *values) =~= done + (value@ + filled(
                        t,
                        i as int,
                        *values,
                    )));
                    continue ;
                }
            }
        }
        let piece = text_of(&chars, i, i + 1);
        assert(piece@ =~= seq![c]);
        out.append(piece.as_str());
        i = i + 1;
        assert(out@ + filled(t, i as int, *values) =~= done + (seq![c] + filled(
            t,
            i as int,
            *values,
        )));
    }
    assert(out@ + Seq::<char>::empty() =~= out@);
    out
}

/// The script that swaps an update in: its parts, with the values in them.
pub open spec fn script_view(values: ScriptValues) -> Seq<char> {
    filled(HELPER_CHECKS@, 0, values)
        + filled(HELPER_STAGING@, 0, values)
        + filled(AGENT_STOPPING@, 0, values)
        + filled(AGENT_PROCESSES@, 0, values)
        + filled(AGENT_STOPPED@, 0, values)
        + filled(READINESS@, 0, values)
        + filled(DAEMON_JOBS@, 0, values)
        + filled(DEFINITIONS@, 0, values)
        + filled(ROLLBACK@, 0, values)
        + filled(SHUTDOWN@, 0, values)
        + filled(SWAP@, 0, values)
        + filled(COMMIT@, 0, values)
}

/// The script that swaps an update in.
pub fn update_script(values: &ScriptValues) -> (r: String)
    ensures
        r@ == script_view(*values),
{
    let mut script = fill(HELPER_CHECKS, values);
    let part = fill(HELPER_STAGING, values);
    script.append(part.as_str());
    let part = fill(AGENT_STOPPING, values);
    script.append(part.as_str());
    let part = fill(AGENT_PROCESSES, values);
    script.append(part.as_str());
    let part = fill(AGENT_STOPPED, values);
    script.append(part.as_str());
    let part = fill(READINESS, values);
    script.append(part.as_str());
    let part = fill(DAEMON_JOBS, values);
    script.append(part.as_str());
    let part = fill(DEFINITIONS, values);
    script.append(part.as_str());
    let part = fill(ROLLBACK, values);
    script.append(part.as_str());
    let part = fill(SHUTDOWN, values);
    script.append(part.as_str());
    let part = fill(SWAP, values);
    script.append(part.as_str());
    let part = fill(COMMIT, values);
    script.append(part.as_str());
    script
}

proof fn lemma_closing_moves(a: Seq<char>, b: Seq<char>, k: int)
    requires
        0 <= k,
    ensures
        closing(a + b, a.len() + k) == (if closing(b, k) < 0 {
            -1int
        } else {
            a.len() + closing(b, k)
        }),
        closing(b, k) == -1 || k <= closing(b, k) < b.len(),
    decreases b.len() - k,
{
    if k < b.len() {
        lemma_closing_moves(a, b, k + 1);
        assert((a + b)[a.len() + k] == b[k]);
    }
}

proof fn lemma_filled_moves(a: Seq<char>, b: Seq<char>, k: int, values: ScriptValues)
    requires
        0 <= k,
    ensures
        filled(a + b, a.len() + k, values) == filled(b, k, values),
    decreases b.len() - k,
{
    let t = a + b;
    let from = a.len() + k;
    if k < b.len() {
        assert(t[from] == b[k]);
        if k + 1 < b.len() {
            assert(t[from + 1] == b[k + 1]);
            lemma_filled_moves(a, b, k + 2, values);
        }
        lemma_filled_moves(a, b, k + 1, values);
        lemma_closing_moves(a, b, k + 1);
        if closing(b, k + 1) >= 0 {
            lemma_filled_moves(a, b, closing(b, k + 1) + 1, values);
            assert(t.subrange(from + 1, closing(t, from + 1)) =~= b.subrange(
                k + 1,
                closing(b, k + 1),
            ));
        }
    }
}

proof fn lemma_no_closing(name: Seq<char>, rest: Seq<char>, k: int)
    requires
        forall|i: int| 0 <= i < name.len() ==> name[i] != '}',
        0 <= k <= name.len(),
    ensures
        closing(seq!['{'] + name + seq!['}'] + rest, k + 1) == name.len() + 1,
    decreases name.len() - k,
{
    let t = seq!['{'] + name + seq!['}'] + rest;
    if k < name.len() {
        assert(t[k + 1] == name[k]);
        lemma_no_closing(name, rest, k + 1);
    } else {
        assert(t[name.len() as int + 1] == '}');
    }
}

/// Text without braces is written as it is, in front of anything.
pub proof fn law_plain_text_is_kept(plain: Seq<char>, rest: Seq<char>, values: ScriptValues)
    requires
        forall|i: int| 0 <= i < plain.len() ==> plain[i] != '{' && plain[i] != '}',
    ensures
        filled(plain + rest, 0, values) == plain + filled(rest, 0, values),
        filled(plain, 0, values) == plain,
    decreases plain.len(),
{
    let t = plain + rest;
    if plain.len() == 0 {
        assert(t =~= rest);
        assert(plain + filled(rest, 0, values) =~= filled(rest, 0, values));
        assert(filled(plain, 0, values) =~= plain);
    } else {
        let c = plain[0];
        let tail = plain.drop_first();
        law_plain_text_is_kept(tail, rest, values);
        assert(t[0] == c);
        assert(t =~= seq![c] + (tail + rest));
        assert(plain =~= seq![c] + tail);
        lemma_filled_moves(seq![c], tail + rest, 0, values);
        lemma_filled_moves(seq![c], tail, 0, values);
        assert(filled(t, 0, values) =~= seq![c] + filled(tail + rest, 0, values));
        assert(filled(plain, 0, values) =~= seq![c] + filled(tail, 0, values));
        assert(seq![c] + (tail + filled(rest, 0, values)) =~= plain + filled(rest, 0, values));
    }
}

/// A doubled brace is written as one brace.
pub proof fn law_doubled_braces_become_single(brace: char, rest: Seq<char>, values: ScriptValues)
    requires
        brace == '{' || brace == '}',
    ensures
        filled(seq![brace, brace] + rest, 0, values) == seq![brace] + filled(rest, 0, values),
{
    let t = seq![brace, brace] + rest;
    assert(t[0] == brace && t[1] == brace);
    lemma_filled_moves(seq![brace, brace], rest, 0, values);
}

/// A name in braces is written as its value; one that is not known stays as it is.
pub proof fn law_names_become_values(name: Seq<char>, rest: Seq<char>, values: ScriptValues)
    requires
        forall|i: int| 0 <= i < name.len() ==> name[i] != '{' && name[i] != '}',
        name.len() > 0,
    ensures
        values.value_view(name) is Some ==> filled(
            seq!['{'] + name + seq!['}'] + rest,
            0,
            values,
        ) == values.value_view(name)->0 + filled(rest, 0, values),
        values.value_view(name) is None ==> filled(
            seq!['{'] + name + seq!['}'] + rest,
            0,
            values,
        ) == seq!['{'] + name + filled(seq!['}'] + rest, 0, values),
{
    let t = seq!['{'] + name + seq!['}'] + rest;
    lemma_no_closing(name, rest, 0);
    assert(t[0] == '{');
    assert(t[1] == name[0]);
    assert(t.subrange(1, name.len() as int + 1) =~= name);
    if values.value_view(name) is Some {
        let front = seq!['{'] + name + seq!['}'];
        lemma_filled_moves(front, rest, 0, values);
        assert(front.len() == name.len() + 2);
    } else {
        let tail = name + (seq!['}'] + rest);
        assert(t =~= seq!['{'] + tail);
        lemma_filled_moves(seq!['{'], tail, 0, values);
        law_plain_text_is_kept(name, seq!['}'] + rest, values);
        assert(seq!['{'] + (name + filled(seq!['}'] + rest, 0, values)) =~= seq!['{'] + name
            + filled(seq!['}'] + rest, 0, values));
    }
}

/// The value of a name is the field that is named so, and there are no other names.
pub proof fn law_names_are_those_of_the_fields(values: ScriptValues, name: Seq<char>)
    ensures
        name == "app_name"@ ==> values.value_view(name) == Some(values.app_name@),
        name == "src_app"@ ==> values.value_view(name) == Some(values.src_app@),
        name == "tmp_dir"@ ==> values.value_view(name) == Some(values.tmp_dir@),
        name == "uid_list"@ ==> values.value_view(name) == Some(values.uid_list@),
        name == "app_bundle"@ ==> values.value_view(name) == Some(values.app_bundle@),
        name == "app_backup"@ ==> values.value_view(name) == Some(values.app_backup@),
        name == "failed_bundle"@ ==> values.value_view(name) == Some(values.failed_bundle@),
        name == "daemon_plist"@ ==> values.value_view(name) == Some(values.daemon_plist@),
        name == "daemon_label"@ ==> values.value_view(name) == Some(values.daemon_label@),
        name == "agent_plist"@ ==> values.value_view(name) == Some(values.agent_plist@),
        name == "agent_label"@ ==> values.value_view(name) == Some(values.agent_label@),
        name == "daemon_plist_bak"@ ==> values.value_view(name) == Some(values.daemon_plist_bak@),
        name == "agent_plist_bak"@ ==> values.value_view(name) == Some(values.agent_plist_bak@),
        name == "helper_bundle"@ ==> values.value_view(name) == Some(values.helper_bundle@),
        name == "helper_backup"@ ==> values.value_view(name) == Some(values.helper_backup@),
        name == "helper_failed"@ ==> values.value_view(name) == Some(values.helper_failed@),
        name == "helper_service"@ ==> values.value_view(name) == Some(values.helper_service@),
        name == "helper_staging"@ ==> values.value_view(name) == Some(values.helper_staging@),
        name == "helper_transaction"@ ==> values.value_view(name) == Some(
            values.helper_transaction@,
        ),
        values.value_view(name) is Some ==> 7 <= name.len() <= 18 && !name.contains('{')
            && !name.contains('}'),
{
    reveal_strlit("app_name");
    reveal_strlit("app_bundle");
    reveal_strlit("app_backup");
    reveal_strlit("failed_bundle");
    reveal_strlit("src_app");
    reveal_strlit("uid_list");
    reveal_strlit("daemon_plist");
    reveal_strlit("agent_plist");
    reveal_strlit("tmp_dir");
    reveal_strlit("daemon_label");
    reveal_strlit("agent_label");
    reveal_strlit("daemon_plist_bak");
    reveal_strlit("agent_plist_bak");
    reveal_strlit("helper_bundle");
    reveal_strlit("helper_service");
    reveal_strlit("helper_transaction");
    reveal_strlit("helper_backup");
    reveal_strlit("helper_staging");
    reveal_strlit("helper_failed");
    assert("app_name"@.len() == 8);
    assert("app_bundle"@.len() == 10);
    assert("app_backup"@.len() == 10);
    assert("failed_bundle"@.len() == 13);
    assert("src_app"@.len() == 7);
    assert("uid_list"@.len() == 8);
    assert("daemon_plist"@.len() == 12);
    assert("agent_plist"@.len() == 11);
    assert("tmp_dir"@.len() == 7);
    assert("daemon_label"@.len() == 12);
    assert("agent_label"@.len() == 11);
    assert("daemon_plist_bak"@.len() == 16);
    assert("agent_plist_bak"@.len() == 15);
    assert("helper_bundle"@.len() == 13);
    assert("helper_service"@.len() == 14);
    assert("helper_transaction"@.len() == 18);
    assert("helper_backup"@.len() == 13);
    assert("helper_staging"@.len() == 14);
    assert("helper_failed"@.len() == 13);
    assert("app_name"@[0] == 'a' && "uid_list"@[0] == 'u');
    assert("src_app"@[0] == 's' && "tmp_dir"@[0] == 't');
    assert("app_bundle"@[5] == 'u' && "app_backup"@[5] == 'a');
    assert("failed_bundle"@[0] == 'f' && "helper_bundle"@[0] == 'h');
    assert("helper_bundle"@[8] == 'u' && "helper_backup"@[8] == 'a' && "helper_failed"@[8] == 'a');
    assert("helper_bundle"@[7] == 'b' && "helper_backup"@[7] == 'b' && "helper_failed"@[7] == 'f');
    assert("failed_bundle"@[7] == 'b');
    assert("helper_backup"@[0] == 'h' && "helper_failed"@[0] == 'h');
    assert("daemon_plist"@[7] == 'p' && "daemon_label"@[7] == 'l');
    assert("agent_plist"@[6] == 'p' && "agent_label"@[6] == 'l');
    assert("helper_service"@[8] == 'e' && "helper_staging"@[8] == 't');
}

/// The script holds each of its parts whole, with the values in it, and nothing else.
pub proof fn law_script_holds_each_part(values: ScriptValues)
    ensures
        crate::text::occurs_in(script_view(values), filled(HELPER_CHECKS@, 0, values)),
        crate::text::occurs_in(script_view(values), filled(HELPER_STAGING@, 0, values)),
        crate::text::occurs_in(script_view(values), filled(AGENT_STOPPING@, 0, values)),
        crate::text::occurs_in(script_view(values), filled(AGENT_PROCESSES@, 0, values)),
        crate::text::occurs_in(script_view(values), filled(AGENT_STOPPED@, 0, values)),
        crate::text::occurs_in(script_view(values), filled(READINESS@, 0, values)),
        crate::text::occurs_in(script_view(values), filled(DAEMON_JOBS@, 0, values)),
        crate::text::occurs_in(script_view(values), filled(DEFINITIONS@, 0, values)),
        crate::text::occurs_in(script_view(values), filled(ROLLBACK@, 0, values)),
        crate::text::occurs_in(script_view(values), filled(SHUTDOWN@, 0, values)),
        crate::text::occurs_in(script_view(values), filled(SWAP@, 0, values)),
        crate::text::occurs_in(script_view(values), filled(COMMIT@, 0, values)),
        script_view(values).len() == filled(HELPER_CHECKS@, 0, values).len() + filled(HELPER_STAGING@, 0, values).len() + filled(AGENT_STOPPING@, 0, values).len() + filled(AGENT_PROCESSES@, 0, values).len() + filled(AGENT_STOPPED@, 0, values).len() + filled(READINESS@, 0, values).len() + filled(DAEMON_JOBS@, 0, values).len() + filled(DEFINITIONS@, 0, values).len() + filled(ROLLBACK@, 0, values).len() + filled(SHUTDOWN@, 0, values).len() + filled(SWAP@, 0, values).len() + filled(COMMIT@, 0, values).len(),
        filled(HELPER_CHECKS@, 0, values).is_prefix_of(script_view(values)),
        filled(COMMIT@, 0, values).is_suffix_of(script_view(values)),
{
    let script = script_view(values);
    let p0 = Seq::<char>::empty();
    let p1 = p0 + filled(HELPER_CHECKS@, 0, values);
    let p2 = p1 + filled(HELPER_STAGING@, 0, values);
    let p3 = p2 + filled(AGENT_STOPPING@, 0, values);
    let p4 = p3 + filled(AGENT_PROCESSES@, 0, values);
    let p5 = p4 + filled(AGENT_STOPPED@, 0, values);
    let p6 = p5 + filled(READINESS@, 0, values);
    let p7 = p6 + filled(DAEMON_JOBS@, 0, values);
    let p8 = p7 + filled(DEFINITIONS@, 0, values);
    let p9 = p8 + filled(ROLLBACK@, 0, values);
    let p10 = p9 + filled(SHUTDOWN@, 0, values);
    let p11 = p10 + filled(SWAP@, 0, values);
    let p12 = p11 + filled(COMMIT@, 0, values);
    assert(p12 =~= script);
    assert(script.subrange(p0.len() as int, p1.len() as int) =~= filled(HELPER_CHECKS@, 0, values));
    assert(crate::text::occurs_at(script, filled(HELPER_CHECKS@, 0, values), p0.len() as int));
    assert(script.subrange(p1.len() as int, p2.len() as int) =~= filled(HELPER_STAGING@, 0, values));
    assert(crate::text::occurs_at(script, filled(HELPER_STAGING@, 0, values), p1.len() as int));
    assert(script.subrange(p2.len() as int, p3.len() as int) =~= filled(AGENT_STOPPING@, 0, values));
    assert(crate::text::occurs_at(script, filled(AGENT_STOPPING@, 0, values), p2.len() as int));
    assert(script.subrange(p3.len() as int, p4.len() as int) =~= filled(AGENT_PROCESSES@, 0, values));
    assert(crate::text::occurs_at(script, filled(AGENT_PROCESSES@, 0, values), p3.len() as int));
    assert(script.subrange(p4.len() as int, p5.len() as int) =~= filled(AGENT_STOPPED@, 0, values));
    assert(crate::text::occurs_at(script, filled(AGENT_STOPPED@, 0, values), p4.len() as int));
    assert(script.subrange(p5.len() as int, p6.len() as int) =~= filled(READINESS@, 0, values));
    assert(crate::text::occurs_at(script, filled(READINESS@, 0, values), p5.len() as int));
    assert(script.subrange(p6.len() as int, p7.len() as int) =~= filled(DAEMON_JOBS@, 0, values));
    assert(crate::text::occurs_at(script, filled(DAEMON_JOBS@, 0, values), p6.len() as int));
    assert(script.subrange(p7.len() as int, p8.len() as int) =~= filled(DEFINITIONS@, 0, values));
    assert(crate::text::occurs_at(script, filled(DEFINITIONS@, 0, values), p7.len() as int));
    assert(script.subrange(p8.len() as int, p9.len() as int) =~= filled(ROLLBACK@, 0, values));
    assert(crate::text::occurs_at(script, filled(ROLLBACK@, 0, values), p8.len() as int));
    assert(script.subrange(p9.len() as int, p10.len() as int) =~= filled(SHUTDOWN@, 0, values));
    assert(crate::text::occurs_at(script, filled(SHUTDOWN@, 0, values), p9.len() as int));
    assert(script.subrange(p10.len() as int, p11.len() as int) =~= filled(SWAP@, 0, values));
    assert(crate::text::occurs_at(script, filled(SWAP@, 0, values), p10.len() as int));
    assert(script.subrange(p11.len() as int, p12.len() as int) =~= filled(COMMIT@, 0, values));
    assert(crate::text::occurs_at(script, filled(COMMIT@, 0, values), p11.len() as int));
}

} // verus!
