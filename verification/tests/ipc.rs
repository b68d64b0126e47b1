use rustdesk::ipc::recorder::{start_pa, RecorderEvent, RecorderStep};
use rustdesk::ipc::client::{
    adopt_setting, asks_for_hwcodec, audio_packet, clear_wayland_screencast_restore_token,
    client_get_hwcodec_config_thread, config_reply, hwcodec_process, nat_type_reply, options_reply,
    get_fingerprint, get_id, get_option, get_pid_file, get_proxy_status, get_rendezvous_server,
    get_rendezvous_servers, get_terminal_session_count, hwcodec_intervals, hwcodec_reply,
    port_forward_count_reply, recorded_pid, removes_stale_socket,
    service_authorization_status, set_option, set_unlock_pin, socks_reply, socks_ws_reply,
    stored_socks, ReportStep, HWCODEC_REPORTS,
};
use rustdesk::ipc::data::{Data, DataControl, DataKeyboardResponse, Socks5Server};
use rustdesk::ipc::handler::{
    handle, AuthConnType, CheckIfRestart, Effect, RestartSettings, ServerSnapshot, System,
};
use rustdesk::ipc::parent_dir::{
    ensure_ipc_parent_exists, ensure_secure_ipc_parent_dir, expected_ipc_parent_mode,
    invalid_ipc_path, ipc_socket_mode, ParentMetadata, ParentStep,
};
use rustdesk::ipc::postfix::{
    build_service_ipc_postfix_candidates, connect_service_attempt_timeout, is_service_ipc_postfix,
    linux_ipc_path_for_uid, normalize_service_ipc_postfix, ordered_service_ipc_postfix_candidates,
    resolve_service_ipc_postfix, service_ipc_metadata, ConnectStep, ServiceConnect,
    POSTFIX_SERVICE,
};
use rustdesk::ipc::service_uid::{
    active_uid, cached_active_uid, discover_terminal_socket_uids, expected_service_peer_uid,
    is_allowed_service_peer_uid, log_active_uid_resolution_failure, resolve_active_uid,
    resolve_service_auth_active_uid, set_expected_service_peer_uid,
    should_discover_terminal_socket_uids, terminal_count_candidate_uids,
    terminal_count_candidate_uids_policy, ServiceUids, SocketDir,
};
use rustdesk::text_map::TextMap;

#[test]
fn verify_ffi_enum_data_size() {
    println!("{}", std::mem::size_of::<Data>());
    assert!(std::mem::size_of::<Data>() <= 120);
}

#[test]
fn test_service_ipc_postfix_compatibility() {
    assert!(is_service_ipc_postfix(POSTFIX_SERVICE));
    assert!(is_service_ipc_postfix("_service_abcdef"));
    assert!(!is_service_ipc_postfix(""));
    assert!(!is_service_ipc_postfix("_services"));
}

#[test]
fn test_service_peer_uid_policy() {
    assert!(is_allowed_service_peer_uid(0, None));
    assert!(is_allowed_service_peer_uid(501, Some(501)));
    assert!(!is_allowed_service_peer_uid(502, Some(501)));
    assert!(!is_allowed_service_peer_uid(501, None));
}

#[test]
fn test_terminal_count_candidate_uids_policy() {
    assert_eq!(
        terminal_count_candidate_uids_policy(1000, Some(501), Some(700), &[800]),
        vec![1000]
    );
    assert_eq!(
        terminal_count_candidate_uids_policy(1000, None, None, &[800]),
        vec![1000]
    );
    assert_eq!(
        terminal_count_candidate_uids_policy(0, Some(501), None, &[]),
        vec![501, 0]
    );
    assert_eq!(
        terminal_count_candidate_uids_policy(0, None, Some(700), &[]),
        vec![700, 0]
    );
    assert_eq!(
        terminal_count_candidate_uids_policy(0, Some(0), Some(0), &[]),
        vec![0]
    );
    assert_eq!(
        terminal_count_candidate_uids_policy(0, Some(501), Some(501), &[501, 700, 700]),
        vec![501, 700, 0]
    );
}

#[test]
fn test_should_discover_terminal_socket_uids_policy() {
    assert!(should_discover_terminal_socket_uids(0, None, None));
    assert!(!should_discover_terminal_socket_uids(1000, None, None));
    assert!(!should_discover_terminal_socket_uids(0, Some(501), None));
    assert!(!should_discover_terminal_socket_uids(0, None, Some(501)));
}

#[test]
fn test_connect_service_attempt_timeout_policy() {
    assert_eq!(connect_service_attempt_timeout(0, 3), 0);
    assert_eq!(connect_service_attempt_timeout(1000, 1), 1000);
    assert_eq!(connect_service_attempt_timeout(1000, 3), 333);
    assert_eq!(connect_service_attempt_timeout(2, 3), 1);
}

#[test]
fn test_resolve_service_ipc_postfix_policy() {
    let none = Vec::new();
    assert_eq!(
        resolve_service_ipc_postfix(None, Some("_service_meta".to_owned()), &none),
        POSTFIX_SERVICE.to_owned()
    );
    assert_eq!(
        resolve_service_ipc_postfix(
            Some("invalid".to_owned()),
            Some("_service_meta".to_owned()),
            &none
        ),
        POSTFIX_SERVICE.to_owned()
    );
    assert_eq!(
        resolve_service_ipc_postfix(Some("invalid".to_owned()), None, &none),
        POSTFIX_SERVICE.to_owned()
    );
    assert_eq!(
        resolve_service_ipc_postfix(Some("_service_../../tmp".to_owned()), None, &none),
        POSTFIX_SERVICE.to_owned()
    );
}

#[test]
fn live_sockets_are_preferred() {
    let live = vec!["_service_meta".to_owned()];
    assert_eq!(
        resolve_service_ipc_postfix(
            Some("_service_env".to_owned()),
            Some(" _service_meta\n".to_owned()),
            &live
        ),
        "_service_meta"
    );
    let list = build_service_ipc_postfix_candidates(
        Some("_service_env".to_owned()),
        Some("_service_meta".to_owned()),
    );
    assert_eq!(
        ordered_service_ipc_postfix_candidates(&list, &live),
        vec!["_service_meta", "_service_env", "_service"]
    );
}

#[test]
fn test_service_ipc_postfix_candidates_policy() {
    assert_eq!(
        build_service_ipc_postfix_candidates(
            Some("_service_abcd".to_owned()),
            Some("_service_abcd".to_owned())
        ),
        vec!["_service_abcd".to_owned(), POSTFIX_SERVICE.to_owned()]
    );
    assert_eq!(
        build_service_ipc_postfix_candidates(
            Some("_service_env".to_owned()),
            Some("_service_meta".to_owned())
        ),
        vec![
            "_service_env".to_owned(),
            "_service_meta".to_owned(),
            POSTFIX_SERVICE.to_owned()
        ]
    );
}

#[test]
fn postfix_texts() {
    assert_eq!(
        normalize_service_ipc_postfix(" _service_a1 \n"),
        Some("_service_a1".to_owned())
    );
    assert_eq!(normalize_service_ipc_postfix("_service_a-b"), None);
    assert_eq!(service_ipc_metadata("_service").unwrap(), "_service\n");
    assert_eq!(
        service_ipc_metadata("x").unwrap_err(),
        "invalid service ipc postfix: x"
    );
    assert_eq!(
        linux_ipc_path_for_uid("RustDesk", 1000, "_pa"),
        "/tmp/RustDesk-1000/ipc_pa"
    );
}

#[test]
fn service_candidates_are_tried_within_the_time() {
    let mut connect = ServiceConnect {
        candidates: vec!["_service_a".to_owned(), "_service".to_owned()],
        index: 0,
        timeout_ms: 1_000,
        last_error: None,
    };
    match connect.next_attempt(0) {
        ConnectStep::Attempt {
            postfix,
            timeout_ms,
        } => assert_eq!((postfix.as_str(), timeout_ms), ("_service_a", 500)),
        other => panic!("{other:?}"),
    }
    connect.attempt_failed("refused".to_owned());
    match connect.next_attempt(600) {
        ConnectStep::Attempt {
            postfix,
            timeout_ms,
        } => assert_eq!((postfix.as_str(), timeout_ms), ("_service", 400)),
        other => panic!("{other:?}"),
    }
    match connect.next_attempt(700) {
        ConnectStep::Fail { error } => assert_eq!(error, "refused"),
        other => panic!("{other:?}"),
    }
    let mut late = ServiceConnect {
        candidates: vec!["_service".to_owned()],
        index: 0,
        timeout_ms: 10,
        last_error: None,
    };
    match late.next_attempt(10) {
        ConnectStep::Fail { error } => assert_eq!(
            error,
            "Timed out while connecting to service ipc candidates"
        ),
        other => panic!("{other:?}"),
    }
    let mut none = ServiceConnect {
        candidates: Vec::new(),
        index: 0,
        timeout_ms: 10,
        last_error: None,
    };
    match none.next_attempt(0) {
        ConnectStep::Fail { error } => {
            assert_eq!(error, "No service ipc postfix candidates available")
        }
        other => panic!("{other:?}"),
    }
}

#[test]
fn test_ensure_secure_ipc_parent_dir_rejects_symlink_parent() {
    let link = ParentMetadata {
        is_symlink: true,
        is_dir: false,
        uid: 0,
        mode: 0o711,
    };
    let res = ensure_secure_ipc_parent_dir("/tmp/link", "_service", link, 0, None);
    assert_eq!(res.unwrap_err(), "ipc parent is symlink: /tmp/link");
}

#[test]
fn parent_directories_are_claimed_and_closed() {
    let dir = ParentMetadata {
        is_symlink: false,
        is_dir: true,
        uid: 0,
        mode: 0o40711,
    };
    let check = ensure_secure_ipc_parent_dir;
    assert_eq!(
        check("/tmp/a", "_service", dir, 0, None),
        Ok(ParentStep::Done)
    );
    assert_eq!(
        check("/tmp/a", "", dir, 0, None),
        Ok(ParentStep::SetMode(0o700))
    );
    let foreign = ParentMetadata { uid: 7, ..dir };
    assert_eq!(
        check("/tmp/a", "_service", foreign, 0, None),
        Ok(ParentStep::Reclaim)
    );
    assert_eq!(
        check("/tmp/a", "_service", foreign, 0, Some(0)),
        Ok(ParentStep::Done)
    );
    assert_eq!(
        check("/tmp/a", "_service", foreign, 0, Some(7)).unwrap_err(),
        "unsafe ipc parent owner, expected uid 0, got 7: /tmp/a"
    );
    assert_eq!(
        check("/tmp/a", "", foreign, 0, None).unwrap_err(),
        "unsafe ipc parent owner, expected uid 0, got 7: /tmp/a"
    );
    let file = ParentMetadata {
        is_dir: false,
        ..dir
    };
    assert_eq!(
        check("/tmp/a", "", file, 0, None).unwrap_err(),
        "ipc parent is not directory: /tmp/a"
    );
    assert_eq!(invalid_ipc_path("/"), "invalid ipc path: /");
    assert_eq!(ensure_ipc_parent_exists(true, ""), None);
    assert_eq!(ensure_ipc_parent_exists(false, "_service"), Some(0o711));
    assert_eq!(expected_ipc_parent_mode("_pa"), 0o700);
    assert_eq!(ipc_socket_mode("_service"), 0o666);
    assert_eq!(ipc_socket_mode(""), 0o600);
}

#[test]
fn active_users_are_cached_and_replaced() {
    let mut uids = ServiceUids::default();
    assert_eq!(active_uid(&mut uids, " 1000\n", 50).0, Some(1000));
    let (uid, failure) = active_uid(&mut uids, "", 350);
    assert_eq!(uid, Some(1000));
    assert!(failure.is_none());
    let (uid, failure) = active_uid(&mut uids, "", 351);
    assert_eq!(uid, None);
    let failure = failure.unwrap();
    assert!(failure.warn);
    assert_eq!(
        failure.text,
        "Failed to resolve active user uid on linux: active uid is empty"
    );
    let again = log_active_uid_resolution_failure(&mut uids, " who ", 400);
    assert!(!again.warn);
    assert_eq!(
        again.text,
        "Failed to parse active user uid on linux: 'who'"
    );
    set_expected_service_peer_uid(&mut uids, Some(501));
    assert_eq!(expected_service_peer_uid(&uids), Some(501));
    assert_eq!(cached_active_uid(&uids, 400), None);
    assert_eq!(
        resolve_service_auth_active_uid(&mut uids, "x", 401),
        (Some(501), true)
    );
    assert_eq!(
        resolve_service_auth_active_uid(&mut uids, "7", 402),
        (Some(7), false)
    );
    set_expected_service_peer_uid(&mut uids, Some(501));
    assert_eq!(cached_active_uid(&uids, 402), Some(7));
    assert_eq!(resolve_active_uid(None, Some(3)), Some(3));
    assert_eq!(resolve_active_uid(Some(2), Some(3)), Some(2));
}

#[test]
fn socket_directories_name_their_users() {
    let dir = |name: &str, has_ipc: bool| SocketDir {
        name: name.to_owned(),
        has_ipc,
    };
    let dirs = vec![
        dir("RustDesk-1000", true),
        dir("RustDesk-0", true),
        dir("RustDesk-x", true),
        dir("Other-1", true),
        dir("RustDesk-7", false),
        dir("RustDesk-1000", true),
        dir("RustDesk-42", true),
    ];
    let found = discover_terminal_socket_uids("RustDesk", &dirs);
    assert_eq!(found, vec![1000, 42]);
    let uids = ServiceUids::default();
    assert_eq!(
        terminal_count_candidate_uids(&uids, 0, None, &found),
        vec![1000, 42, 0]
    );
    assert_eq!(
        terminal_count_candidate_uids(&uids, 0, Some(5), &found),
        vec![5, 0]
    );
}

fn snapshot() -> ServerSnapshot {
    ServerSnapshot {
        log_path: "/log".to_owned(),
        config_file: "/config".to_owned(),
        username: "me".to_owned(),
        click_time: 11,
        mouse_move_time: 12,
        exit_on_close: true,
        is_server: true,
        is_main: false,
        online_state: 3,
        key_confirmed: true,
        key_pair: (vec![1], vec![2]),
        fingerprint: "fp".to_owned(),
        socks: None,
        websocket_option: "Y".to_owned(),
        authed_conns: vec![
            AuthConnType::Remote,
            AuthConnType::PortForward,
            AuthConnType::Remote,
        ],
        alive_conns: 4,
        terminal_sessions: 5,
        id: "123".to_owned(),
        temporary_password: "tmp".to_owned(),
        permanent_password: "perm".to_owned(),
        salt: "salt".to_owned(),
        rendezvous_server: "a".to_owned(),
        rendezvous_servers: vec!["b".to_owned(), "c".to_owned()],
        may_hide_cm: true,
        hide_cm: true,
        voice_call_input: None,
        unlock_pin: "4321".to_owned(),
        trusted_devices: "[]".to_owned(),
        options: vec![("k".to_owned(), "v".to_owned())],
        nat_type: 2,
        config: (vec![7], vec![8]),
        hwcodec_config: None,
        local_option: String::new(),
        system: System::Linux,
        flutter: true,
        hwcodec: true,
        service_interval_ms: 300,
        rdp_session_held: true,
        remote_modify_permission: Some(true),
        file_permission: None,
        file_transfer_enabled_locally: true,
        new_uuid: "uuid".to_owned(),
    }
}

fn config_of(name: &str) -> Option<String> {
    let data = Data::Config((name.to_owned(), None));
    config_reply(name, handle(data, "", &snapshot()).reply)
}

#[test]
fn settings_are_answered() {
    assert_eq!(config_of("id").unwrap(), "123");
    assert_eq!(config_of("temporary-password").unwrap(), "tmp");
    assert_eq!(config_of("rendezvous_server").unwrap(), "a,b,c");
    assert_eq!(config_of("rendezvous_servers").unwrap(), "b,c");
    assert_eq!(config_of("fingerprint").unwrap(), "fp");
    assert_eq!(config_of("hide_cm").unwrap(), "true");
    assert_eq!(config_of("voice-call-input"), None);
    assert_eq!(config_of("unlock-pin").unwrap(), "4321");
    assert_eq!(config_of("unknown"), None);
    let other = Data::Config(("salt".to_owned(), Some("x".to_owned())));
    assert_eq!(config_reply("id", Some(other)), None);
    let set = Data::Config(("id".to_owned(), Some("9".to_owned())));
    let handled = handle(set, "", &snapshot());
    assert!(handled.reply.is_none());
    assert!(matches!(
        handled.effects.as_slice(),
        [Effect::SetKeyConfirmed(false), Effect::SetId(id)] if id == "9"
    ));
}

#[test]
fn messages_are_answered() {
    let s = snapshot();
    let reply = |data: Data| handle(data, "", &s).reply.unwrap();
    assert!(matches!(
        reply(Data::SystemInfo(None)),
        Data::SystemInfo(Some(info)) if info == "log_path: /log, config: /config, username: me"
    ));
    assert!(matches!(reply(Data::ClickTime(0)), Data::ClickTime(11)));
    assert!(matches!(reply(Data::NatType(None)), Data::NatType(Some(2))));
    assert!(matches!(
        reply(Data::OnlineStatus(None)),
        Data::OnlineStatus(Some((3, true)))
    ));
    assert!(matches!(
        reply(Data::VideoConnCount(None)),
        Data::VideoConnCount(Some(2))
    ));
    assert!(matches!(
        reply(Data::SwitchSidesRequest("p".to_owned())),
        Data::SwitchSidesRequest(uuid) if uuid == "uuid"
    ));
    let token = Data::WaylandScreencastRestoreToken(("k".to_owned(), "get".to_owned()));
    assert!(matches!(
        reply(token),
        Data::WaylandScreencastRestoreToken((_, token)) if token == "fake token"
    ));
    let clear = Data::WaylandScreencastRestoreToken(("k".to_owned(), "clear".to_owned()));
    let handled = handle(clear, "", &s);
    assert!(matches!(
        handled.effects.as_slice(),
        [Effect::ClearLocalOption(_), Effect::CloseScreencastSession]
    ));
    assert_eq!(handled.reply_after, 2);
    assert!(clear_wayland_screencast_restore_token(handled.reply));
    assert!(matches!(
        handle(Data::Close, "", &s).effects.as_slice(),
        [Effect::ReleaseKeys, Effect::TurnOffPrivacy, Effect::Exit]
    ));
    let socks = Socks5Server {
        proxy: String::new(),
        username: String::new(),
        password: String::new(),
    };
    assert!(matches!(
        handle(Data::Socks(Some(socks)), "", &s).effects.as_slice(),
        [
            Effect::SetSocks(None),
            Effect::RestartMediator,
            Effect::CheckNatType
        ]
    ));
    let options = vec![("privacy-mode-impl-key".to_owned(), "impl".to_owned())];
    let handled = handle(Data::Options(Some(options)), "", &s);
    assert!(matches!(handled.reply, Some(Data::Options(None))));
    assert_eq!(handled.reply_after, 2);
    assert!(matches!(
        handled.effects.as_slice(),
        [
            Effect::SwitchPrivacyMode(_),
            Effect::SetOptions(_),
            Effect::CheckNatType,
            Effect::CheckRestart
        ]
    ));
    assert!(handle(Data::Test, "", &s).reply.is_none());
    let keyboard = Data::KeyboardResponse(DataKeyboardResponse::GetKeyState(true));
    assert!(handle(keyboard, "", &s).effects.is_empty());
    let control = Data::Control(DataControl::Resolution {
        minx: 0,
        maxx: 1,
        miny: 0,
        maxy: 1,
    });
    assert!(handle(control, "", &s).effects.is_empty());
}

#[test]
fn the_service_channel_only_syncs() {
    let s = snapshot();
    for data in [
        Data::ClickTime(0),
        Data::Close,
        Data::Config(("id".to_owned(), None)),
    ] {
        let handled = handle(data, "_service", &s);
        assert!(handled.reply.is_none() && handled.effects.is_empty());
    }
    assert!(matches!(
        handle(Data::SyncConfig(None), "_service", &s).reply,
        Some(Data::SyncConfig(Some((a, b)))) if a == vec![7] && b == vec![8]
    ));
    let synced = handle(Data::SyncConfig(Some((vec![1], vec![2]))), "_service_x", &s);
    assert!(matches!(
        synced.effects.as_slice(),
        [Effect::SetConfig(_), Effect::CheckRestart]
    ));
    assert_eq!(synced.reply_after, 1);
}

fn settings() -> RestartSettings {
    RestartSettings {
        stop_service: String::new(),
        rendezvous_servers: vec!["a".to_owned()],
        audio_input: "mic".to_owned(),
        voice_call_input: "mic".to_owned(),
        ws: String::new(),
        disable_udp: String::new(),
        allow_insecure_tls_fallback: String::new(),
        api_server: String::new(),
    }
}

#[test]
fn changed_settings_restart_what_depends_on_them() {
    let check = CheckIfRestart::new(settings());
    let plan = check.finish(&settings());
    assert!(!plan.restart_mediator && !plan.restart_audio && !plan.reset_tls_cache);
    assert_eq!(plan.voice_call_input, None);
    let mut now = settings();
    now.rendezvous_servers.push("b".to_owned());
    assert!(check.finish(&now).restart_mediator);
    let mut now = settings();
    now.allow_insecure_tls_fallback = "Y".to_owned();
    let plan = check.finish(&now);
    assert!(plan.restart_mediator && plan.reset_tls_cache);
    let mut now = settings();
    now.audio_input = "x".to_owned();
    now.voice_call_input = "y".to_owned();
    let plan = check.finish(&now);
    assert!(plan.restart_audio && !plan.restart_mediator);
    assert_eq!(plan.voice_call_input, Some("y".to_owned()));
}

#[test]
fn answers_are_adopted() {
    assert_eq!(get_fingerprint(Ok(Some("f".to_owned()))), "f");
    assert_eq!(get_fingerprint(Ok(None)), "");
    assert_eq!(get_fingerprint(Err("e".to_owned())), "");
    let adopted = adopt_setting(Some("a".to_owned()), "b".to_owned());
    assert!(adopted.store && adopted.value == "a");
    assert!(!adopt_setting(None, "b".to_owned()).store);
    let id = get_id(Some("1".to_owned()), None, "2".to_owned());
    assert!(id.set_id && id.id == "1");
    assert!(!get_id(Some("1".to_owned()), None, "1".to_owned()).set_id);
    assert_eq!(
        get_rendezvous_server(Some("a,b,,c".to_owned()), String::new(), Vec::new()),
        (
            "a".to_owned(),
            vec!["b".to_owned(), String::new(), "c".to_owned()]
        )
    );
    assert_eq!(
        get_rendezvous_server(Some(String::new()), "x".to_owned(), Vec::new()),
        (String::new(), Vec::new())
    );
    assert_eq!(
        get_rendezvous_servers(None, vec!["o".to_owned()]),
        vec!["o".to_owned()]
    );
    assert_eq!(hwcodec_reply(None), Err("failed to get hwcodec config"));
    assert_eq!(
        hwcodec_reply(Some(Data::HwCodecConfig(None))),
        Err("hwcodec config is none")
    );
    assert_eq!(
        hwcodec_reply(Some(Data::HwCodecConfig(Some("c".to_owned())))),
        Ok("c".to_owned())
    );
    assert_eq!(hwcodec_intervals(2), vec![2, 3, 3, 6, 9]);
    assert_eq!(
        port_forward_count_reply(None),
        Err("Failed to get port forward session count")
    );
    assert_eq!(get_terminal_session_count(&vec![None, Some(3), Some(4)]), 3);
    assert_eq!(get_terminal_session_count(&vec![None]), 0);
    assert!(service_authorization_status(Some(0), None));
    assert!(!service_authorization_status(None, Some(0)));
    assert!(!get_proxy_status(&None));
    assert!(socks_reply(None, &None).is_none());
    let socks = Socks5Server {
        proxy: "p".to_owned(),
        username: String::new(),
        password: String::new(),
    };
    assert_eq!(stored_socks(&socks).unwrap().proxy, "p");
}

#[test]
fn pins_have_a_fitting_length() {
    assert_eq!(set_unlock_pin(" 1234 ", 10, false).unwrap(), "1234");
    assert_eq!(set_unlock_pin("  ", 10, false).unwrap(), "");
    let short = set_unlock_pin("123", 10, false).unwrap_err();
    assert_eq!(short.text, "Requires at least 4 characters");
    let short = set_unlock_pin("123", 10, true).unwrap_err();
    assert!(short.translate);
    assert_eq!(short.text, "Requires at least {4} characters");
    let long = set_unlock_pin("12345", 4, true).unwrap_err();
    assert!(!long.translate);
    assert_eq!(long.text, "No more than 4 characters");
}

#[test]
fn options_are_set_and_removed() {
    let mut options = TextMap::new();
    set_option(&mut options, "a", "1");
    set_option(&mut options, "b", "2");
    set_option(&mut options, "a", "3");
    assert_eq!(get_option(&options, "a"), "3");
    set_option(&mut options, "a", "");
    assert_eq!(get_option(&options, "a"), "");
    assert_eq!(get_option(&options, "b"), "2");
}

#[test]
fn audio_and_pid_files() {
    assert_eq!(audio_packet(&vec![0, 0]), Vec::<u8>::new());
    assert_eq!(audio_packet(&vec![0, 1]), vec![0, 1]);
    assert_eq!(get_pid_file("/tmp/ipc"), "/tmp/ipc.pid");
    assert_eq!(recorded_pid("17"), Some(17));
    assert_eq!(recorded_pid("0"), None);
    assert_eq!(recorded_pid("x"), None);
    let name = || Some("app".to_owned());
    assert!(!removes_stale_socket(name(), name(), true));
    assert!(removes_stale_socket(name(), name(), false));
    assert!(removes_stale_socket(name(), Some("b".to_owned()), true));
    assert!(removes_stale_socket(None, name(), true));
}

#[test]
fn recorder_serves_one_client_after_another() {
    let config = |device: &str| {
        RecorderEvent::Sent(Some(Data::Config((
            "audio-input".to_owned(),
            Some(device.to_owned()),
        ))))
    };
    assert!(matches!(
        start_pa(RecorderStep::AcceptClient, RecorderEvent::Client(true)),
        RecorderStep::ReadDevice
    ));
    assert!(matches!(
        start_pa(RecorderStep::AcceptClient, RecorderEvent::Client(false)),
        RecorderStep::AcceptClient
    ));
    let named = start_pa(RecorderStep::ReadDevice, config("mic"));
    assert!(matches!(&named, RecorderStep::FindSource(d) if d == "mic"));
    assert!(matches!(
        start_pa(RecorderStep::ReadDevice, config("")),
        RecorderStep::FindMonitor
    ));
    assert!(matches!(
        start_pa(RecorderStep::ReadDevice, RecorderEvent::Sent(None)),
        RecorderStep::FindMonitor
    ));
    assert!(matches!(
        start_pa(named, RecorderEvent::Name(String::new())),
        RecorderStep::FindMonitor
    ));
    assert!(matches!(
        start_pa(RecorderStep::FindMonitor, RecorderEvent::Name(String::new())),
        RecorderStep::AcceptClient
    ));
    let open = start_pa(RecorderStep::FindMonitor, RecorderEvent::Name("m".to_owned()));
    assert!(matches!(&open, RecorderStep::Open(d) if d == "m"));
    assert!(matches!(start_pa(open, RecorderEvent::Opened(true)), RecorderStep::Record));
    assert!(matches!(
        start_pa(RecorderStep::Record, RecorderEvent::Recorded(None)),
        RecorderStep::Record
    ));
    let silence = start_pa(RecorderStep::Record, RecorderEvent::Recorded(Some(vec![0, 0])));
    assert!(matches!(&silence, RecorderStep::Send(p) if p.is_empty()));
    let sound = start_pa(RecorderStep::Record, RecorderEvent::Recorded(Some(vec![0, 3])));
    assert!(matches!(&sound, RecorderStep::Send(p) if *p == vec![0, 3]));
    assert!(matches!(start_pa(sound, RecorderEvent::Delivered(true)), RecorderStep::Record));
    assert!(matches!(
        start_pa(silence, RecorderEvent::Delivered(false)),
        RecorderStep::AcceptClient
    ));
}

#[test]
fn answers_are_adopted_or_the_own_copy_stays() {
    assert_eq!(nat_type_reply(Some(Data::NatType(Some(2))), 1), (2, true));
    assert_eq!(nat_type_reply(Some(Data::NatType(None)), 1), (1, false));
    assert_eq!(nat_type_reply(None, 1), (1, false));
    let own = vec![("a".to_owned(), "1".to_owned())];
    let told = vec![("b".to_owned(), "2".to_owned())];
    assert_eq!(
        options_reply(Some(Data::Options(Some(told.clone()))), own.clone()),
        (told, true)
    );
    assert_eq!(options_reply(Some(Data::Options(None)), own.clone()), (own, false));
    let proxy = Socks5Server {
        proxy: "socks5://p".to_owned(),
        username: String::new(),
        password: String::new(),
    };
    let adopted = socks_ws_reply(
        Some(Data::SocksWs(Some((Some(proxy), "Y".to_owned())))),
        &None,
        "N".to_owned(),
    );
    assert!(adopted.store);
    assert_eq!(adopted.allow_websocket, "Y");
    assert_eq!(adopted.socks.unwrap().proxy, "socks5://p");
    let kept = socks_ws_reply(Some(Data::SocksWs(None)), &None, "N".to_owned());
    assert!(!kept.store && kept.socks.is_none());
    assert_eq!(kept.allow_websocket, "N");
}

#[test]
fn codecs_are_reported_a_few_times() {
    assert_eq!(hwcodec_process(1, true), ReportStep::Done);
    assert_eq!(hwcodec_process(1, false), ReportStep::Again { attempt: 2 });
    assert_eq!(hwcodec_process(HWCODEC_REPORTS, false), ReportStep::GiveUp);
    assert_eq!(HWCODEC_REPORTS, 5);
    assert!(asks_for_hwcodec(true, false) && !asks_for_hwcodec(true, true));
    assert!(client_get_hwcodec_config_thread(true, true, false));
    assert!(!client_get_hwcodec_config_thread(false, true, false));
}

fn on(system: System) -> ServerSnapshot {
    ServerSnapshot { system, is_main: true, ..snapshot() }
}

fn is_ignored(data: Data, s: &ServerSnapshot) -> bool {
    let handled = handle(data, "", s);
    handled.reply.is_none() && handled.effects.is_empty()
}

#[test]
fn systems_differ_in_what_they_answer() {
    let windows = on(System::Windows);
    assert_eq!(
        port_forward_count_reply(handle(Data::PortForwardSessionCount(None), "", &windows).reply),
        Ok(1)
    );
    assert!(matches!(
        handle(Data::FileTransferEnabledState(None), "", &windows).reply,
        Some(Data::FileTransferEnabledState(Some(true)))
    ));
    assert!(matches!(
        handle(Data::ControlledSessionCount(0), "", &windows).reply,
        Some(Data::ControlledSessionCount(4))
    ));
    let install = || Data::InstallOption(Some(("k".to_owned(), "v".to_owned())));
    assert!(matches!(
        handle(install(), "", &windows).effects.as_slice(),
        [Effect::UpdateInstallOption(k, v)] if k == "k" && v == "v"
    ));
    assert!(is_ignored(Data::TerminalSessionCount(0), &windows));
    let linux = on(System::Linux);
    assert!(matches!(
        handle(Data::TerminalSessionCount(0), "", &linux).reply,
        Some(Data::TerminalSessionCount(5))
    ));
    for s in [linux, on(System::MacOs), on(System::Android), on(System::Ios)] {
        assert!(is_ignored(install(), &s));
        assert!(is_ignored(Data::PortForwardSessionCount(None), &s));
        assert!(is_ignored(Data::FileTransferEnabledState(None), &s));
        assert!(is_ignored(Data::ControlledSessionCount(0), &s));
    }
    for s in [on(System::Android), on(System::Ios)] {
        assert!(is_ignored(Data::MouseMoveTime(0), &s));
        assert!(is_ignored(Data::ControllingSessionCount(1), &s));
        assert!(is_ignored(Data::CheckHwcodec, &s));
        assert!(is_ignored(Data::HwCodecConfig(None), &s));
    }
    let plain = ServerSnapshot { flutter: false, hwcodec: false, ..snapshot() };
    assert!(is_ignored(Data::VideoConnCount(None), &plain));
    assert!(is_ignored(Data::ControllingSessionCount(1), &plain));
    assert!(is_ignored(Data::CheckHwcodec, &plain));
    assert!(is_ignored(Data::HwCodecConfig(Some("c".to_owned())), &plain));
    assert!(matches!(
        handle(Data::CheckHwcodec, "", &snapshot()).effects.as_slice(),
        [Effect::CheckHwcodec]
    ));
}

#[test]
fn main_windows_are_opened_anew_on_two_systems() {
    let close = |system: System| handle(Data::Close, "", &on(system)).effects;
    assert!(matches!(
        close(System::Linux).as_slice(),
        [
            Effect::ReleaseKeys,
            Effect::TurnOffPrivacy,
            Effect::RemoveMainSocket,
            Effect::Pause { millis: 600 },
            Effect::RunWithoutServer,
            Effect::Pause { millis: 300 },
            Effect::QuitGui,
            Effect::Exit
        ]
    ));
    assert!(matches!(
        close(System::MacOs).as_slice(),
        [
            Effect::ReleaseKeys,
            Effect::TurnOffPrivacy,
            Effect::RemoveMainSocket,
            Effect::Pause { millis: 1500 },
            Effect::OpenApp,
            Effect::Pause { millis: 300 },
            Effect::QuitGui,
            Effect::Exit
        ]
    ));
    assert!(matches!(
        close(System::Windows).as_slice(),
        [Effect::ReleaseKeys, Effect::TurnOffPrivacy, Effect::Exit]
    ));
    assert!(matches!(
        close(System::Android).as_slice(),
        [Effect::TurnOffPrivacy, Effect::Exit]
    ));
    let stays = ServerSnapshot { exit_on_close: false, ..snapshot() };
    assert!(is_ignored(Data::Close, &stays));
}
