//! The script that replaces the installed app where no service is running. It asks
//! for the administrator's password.
use vstd::prelude::*;

verus! {

/// The names that the script works with.
pub const NAMES: &'static str = r#"
	on run {app_name, cur_pid, source_path, user_name, restore_owner, expected_sha256}
	    set app_bundle to "/Applications/" & app_name & ".app"
	    set daemon_target to "system/com.carriez." & app_name & "_service"
	    set migration_state to "/Library/PrivilegedHelperTools/.com.carriez." & app_name & "_service.migration"
	    set transaction_lock to "/var/run/com.carriez.service-maintenance.lock"
	    set app_bundle_q to quoted form of app_bundle
	    set daemon_target_q to quoted form of daemon_target
	    set migration_state_q to quoted form of migration_state
	    set transaction_lock_q to quoted form of transaction_lock
	    set source_path_q to quoted form of source_path
	    set user_name_q to quoted form of user_name
	    set expected_sha256_q to quoted form of expected_sha256

"#;

/// Checks, the lock, and the verified copy of the new app.
pub const PREPARATION: &'static str = r#"	    set check_source to "if [ -n " & expected_sha256_q & " ]; then test -f " & source_path_q & "; else test -d " & source_path_q & "; fi;"
	    set lock_transaction to "if [ -e " & transaction_lock_q & " ] || [ -L " & transaction_lock_q & " ]; then [ ! -L " & transaction_lock_q & " ] && [ -f " & transaction_lock_q & " ] && [ \"$(/usr/bin/stat -f '%u' " & transaction_lock_q & ")\" = '0' ] || { echo 'UNSAFE_UPDATE_LOCK' >&2; exit 1; }; else umask 077; : > " & transaction_lock_q & "; /usr/sbin/chown root:wheel " & transaction_lock_q & "; fi; /bin/chmod -N " & transaction_lock_q & "; /bin/chmod 0600 " & transaction_lock_q & "; [ \"$(/usr/bin/stat -f '%u:%g:%Lp' " & transaction_lock_q & ")\" = '0:0:600' ] || exit 1; exec /usr/bin/lockf -knw -t 0 " & transaction_lock_q & " /bin/sh -c "
	    set ensure_service_inactive to "if launchctl print " & daemon_target_q & " >/dev/null 2>&1 || [ -e " & migration_state_q & " ] || [ -L " & migration_state_q & " ]; then echo 'SERVICE_ACTIVE_DURING_APP_UPDATE' >&2; exit 1; fi;"
	    set kill_others to "pids=$(pgrep -x '" & app_name & "' | grep -vx " & cur_pid & " || true); if [ -n \"$pids\" ]; then echo \"$pids\" | xargs kill -9 || true; fi;"
	    -- Rehash the root-owned copy in a clean environment before staging bytes.
	    set prepare_verified to "verified_dir=$(/usr/bin/mktemp -d /tmp/.rustdeskupdate-verified.XXXXXX); /usr/sbin/chown root:wheel \"$verified_dir\"; /bin/chmod -N \"$verified_dir\"; /bin/chmod 0700 \"$verified_dir\"; verified_app=\"$verified_dir/" & app_name & ".app\"; dmg_attached=0; if [ -n " & expected_sha256_q & " ]; then verified_dmg=\"$verified_dir/update.dmg\"; /bin/cp " & source_path_q & " \"$verified_dmg\"; /usr/sbin/chown root:wheel \"$verified_dmg\"; /bin/chmod 0400 \"$verified_dmg\"; actual_sha256=$(/usr/bin/env -i /usr/bin/shasum -a 256 \"$verified_dmg\"); actual_sha256=${actual_sha256%% *}; if [ \"$actual_sha256\" != " & expected_sha256_q & " ]; then echo 'Update DMG SHA256 mismatch' >&2; exit 1; fi; dmg_mount=\"$verified_dir/mount\"; /bin/mkdir \"$dmg_mount\"; dmg_attached=1; /usr/bin/hdiutil attach -readonly -nobrowse -mountpoint \"$dmg_mount\" \"$verified_dmg\" >/dev/null; /usr/bin/ditto \"$dmg_mount/" & app_name & ".app\" \"$verified_app\"; /usr/bin/hdiutil detach \"$dmg_mount\" -force >/dev/null; dmg_attached=0; /bin/rm -f \"$verified_dmg\"; else /usr/bin/ditto " & source_path_q & " \"$verified_app\"; fi; /usr/sbin/chown -R root:wheel \"$verified_app\"; /bin/chmod -R go-w \"$verified_app\";"
"#;

/// How the installed app is replaced.
pub const REPLACEMENT: &'static str = r#"	    set ensure_atomic_bundle_swap to "verified_device=$(/usr/bin/stat -f '%d' \"$verified_dir\"); applications_device=$(/usr/bin/stat -f '%d' /Applications); [ -n \"$verified_device\" ] && [ \"$verified_device\" = \"$applications_device\" ] || { echo 'APP_UPDATE_REQUIRES_ONE_FILESYSTEM' >&2; exit 1; };"
	    set prepare_swap_paths to "temp_bundle=\"$verified_dir/staged.app\"; old_bundle=\"$verified_dir/previous.app\";"
	    set cleanup_swap_paths to "rm -rf \"$temp_bundle\" \"$old_bundle\";"
	    set stage_bundle to "ditto \"$verified_app\" \"$temp_bundle\";"
	    set protect_staged_bundle to "chown -R root:wheel \"$temp_bundle\"; chmod -R go-w \"$temp_bundle\"; (xattr -r -d com.apple.quarantine \"$temp_bundle\" || true);"
	    set move_current_bundle to "if [ -e " & app_bundle_q & " ]; then mv " & app_bundle_q & " \"$old_bundle\"; bundle_backed_up=1; fi;"
	    set install_staged_bundle to "staged_bundle_identity=$(/usr/bin/stat -f '%d:%i' \"$temp_bundle\"); mv \"$temp_bundle\" " & app_bundle_q & "; bundle_swapped=1; installed_bundle_identity=$(/usr/bin/stat -f '%d:%i' " & app_bundle_q & "); [ \"$installed_bundle_identity\" = \"$staged_bundle_identity\" ];"
	    set restore_installed_owner to "if [ " & quoted form of restore_owner & " = '1' ]; then chown -R " & user_name_q & ":staff " & app_bundle_q & "; fi;"
"#;

/// How a failure is undone, and the order of it all.
pub const TRANSACTION: &'static str = r#"	    set rollback_bundle to "if [ \"${bundle_backed_up:-0}\" -eq 1 ]; then if [ ! -e \"$old_bundle\" ]; then rollback_status=1; elif ! rm -rf " & app_bundle_q & "; then rollback_status=1; elif ! mv \"$old_bundle\" " & app_bundle_q & "; then rollback_status=1; fi; elif [ \"${bundle_swapped:-0}\" -eq 1 ]; then rm -rf " & app_bundle_q & " || rollback_status=1; fi;"
	    set cleanup_verified to "if [ \"${dmg_attached:-0}\" -eq 1 ]; then /usr/bin/hdiutil detach \"$dmg_mount\" -force >/dev/null 2>&1 || cleanup_status=1; fi; if [ -n \"${temp_bundle:-}\" ]; then rm -rf \"$temp_bundle\" || cleanup_status=1; fi; if [ -n \"${verified_dir:-}\" ]; then rm -rf \"$verified_dir\" || cleanup_status=1; fi;"
	    set rollback_update to "status=$?; trap - EXIT; set +e; cleanup_status=0; if [ \"${transaction_started:-0}\" -eq 1 ] && [ \"${transaction_committed:-0}\" -ne 1 ]; then rollback_status=0;" & rollback_bundle & "if [ \"$rollback_status\" -ne 0 ]; then status=1; fi; fi; if [ \"${rollback_status:-0}\" -eq 0 ]; then " & cleanup_verified & "fi; if [ \"$cleanup_status\" -ne 0 ] && [ \"${transaction_committed:-0}\" -ne 1 ]; then status=1; elif [ \"$cleanup_status\" -ne 0 ]; then echo 'UPDATE_CLEANUP_FAILED_AFTER_COMMIT'; fi; exit \"$status\";"
	    set commit_update to "transaction_committed=1; if ! rm -rf \"$old_bundle\"; then echo 'UPDATE_CLEANUP_FAILED_AFTER_COMMIT'; fi;"
	    set copy_files to prepare_swap_paths & cleanup_swap_paths & stage_bundle & protect_staged_bundle & "transaction_started=1;" & move_current_bundle & install_staged_bundle & restore_installed_owner & commit_update
	    set sh to "umask 077; set -e; transaction_started=0; transaction_committed=0; bundle_backed_up=0; bundle_swapped=0; trap " & quoted form of rollback_update & " EXIT;" & check_source & ensure_service_inactive & kill_others & prepare_verified & ensure_atomic_bundle_swap & copy_files
	    set sh to lock_transaction & quoted form of sh

	    do shell script sh with prompt app_name & " wants to update itself" with administrator privileges
	end run
	        "#;

/// The whole script.
pub open spec fn update_body_view() -> Seq<char> {
    NAMES@ + PREPARATION@ + REPLACEMENT@ + TRANSACTION@
}

/// The whole script.
pub fn privileged_update_body() -> (r: String)
    ensures
        r@ == update_body_view(),
{
    let mut body: String = NAMES.to_owned();
    body.append(PREPARATION);
    body.append(REPLACEMENT);
    body.append(TRANSACTION);
    body
}

} // verus!
