use std::collections::HashMap;

use rustdesk::capture_refresh::{refresh_after_rgba, refresh_capture, RgbaData, WindowDisplays};
use rustdesk::http_client::{
    accepts_invalid_cert, after_probe, first_probe, get_url_for_tls, needs_probe,
    next_http_client_probe, proxy_url, strict_probe, strict_probe_of_scheme, uses_proxy_auth,
    HttpClientProbeRetry, ProbeOutcome, ProbeStep, ProxyKind, TlsType,
};
use rustdesk::ipc::data::Socks5Server;
use rustdesk::login_failure_check::{
    clear_terminal_failure_state, evaluate_terminal_policy, record_terminal_failure,
    terminal_os_login_backoff_seconds, AlarmAuditType, TerminalFailureState,
    TERMINAL_OS_LOGIN_BACKOFF_BASE_SECONDS, TERMINAL_OS_LOGIN_BACKOFF_MAX_SECONDS,
    TERMINAL_OS_LOGIN_TOTAL_IDLE_RESET_MS,
};
use rustdesk::relay_client::{
    create_relay, finish_relay_request, needs_secure_channel, punch_request, request_relay_with_punch, NatType,
    PunchFailure, RelayOutcome, RelayReply, RelaySetup, RelayStep, RELAY_ATTEMPTS,
};
use rustdesk::startup::{
    is_supported, runner_target, service_command, ServiceCommand,
};
use rustdesk::terminal_helper::{
    get_default_shell, run_terminal_helper, shell_candidates, terminal_helper_args, HelperStep,
    PumpEvent, PumpStep,
};
use rustdesk::uinput::{
    check_sysname, device_name_field, event_frame, find_event_name, sysname_length, udev_data_path,
    udev_data_is_touchpad, InputEvent,
};

const TEST_UUID: &str = "550e8400-e29b-41d4-a716-446655440000";
const TEST_PEER: &str = "relay-test-peer";
const TEST_KEY: &str = "nonsecret-test-rendezvous-key";
const NOW_MS: i64 = 1_700_000_000_000;

#[test]
fn terminal_policy_prioritizes_backoff() {
    let mut state = TerminalFailureState::default();
    for _ in 0..3 {
        record_terminal_failure(&mut state, NOW_MS);
    }
    let decision = evaluate_terminal_policy(&mut state, NOW_MS);
    assert!(!decision.allowed);
    assert!(decision.login_error.is_some());
    assert!(matches!(
        decision.audit,
        Some(AlarmAuditType::TerminalOsLoginBackoff)
    ));
    clear_terminal_failure_state(&mut state);
    assert!(evaluate_terminal_policy(&mut state, NOW_MS).allowed);
}

#[test]
fn terminal_policy_idle_window_resets_total_counter() {
    let mut state = TerminalFailureState::default();
    for _ in 0..13 {
        record_terminal_failure(&mut state, NOW_MS);
    }
    let blocked = evaluate_terminal_policy(&mut state, NOW_MS);
    assert!(!blocked.allowed);

    let after_idle_ms = NOW_MS + TERMINAL_OS_LOGIN_TOTAL_IDLE_RESET_MS + 1_000;
    let allowed = evaluate_terminal_policy(&mut state, after_idle_ms);
    assert!(allowed.allowed);
    assert_eq!(state.total_failures, 0);
}

#[test]
fn terminal_policy_first_backoff_is_not_too_short() {
    let mut state = TerminalFailureState::default();
    for _ in 0..3 {
        record_terminal_failure(&mut state, NOW_MS);
    }

    let decision = evaluate_terminal_policy(&mut state, NOW_MS);
    assert!(!decision.allowed);
    let msg = decision.login_error.unwrap_or_default();
    let seconds = msg
        .split_whitespace()
        .nth(2)
        .and_then(|s| s.parse::<i64>().ok())
        .unwrap_or(0);
    assert!(seconds >= TERMINAL_OS_LOGIN_BACKOFF_BASE_SECONDS);
    assert_eq!(msg, "Please try 15 seconds later");
}

#[test]
fn waits_double_up_to_the_longest() {
    let waits: Vec<i64> = (0..12).map(terminal_os_login_backoff_seconds).collect();
    assert_eq!(waits, vec![0, 0, 0, 15, 30, 60, 120, 240, 480, 960, 960, 960]);
    assert!(waits.iter().all(|w| *w <= TERMINAL_OS_LOGIN_BACKOFF_MAX_SECONDS));

    let mut state = TerminalFailureState::default();
    for _ in 0..3 {
        record_terminal_failure(&mut state, NOW_MS);
    }
    assert!(!evaluate_terminal_policy(&mut state, NOW_MS + 14_999).allowed);
    assert!(evaluate_terminal_policy(&mut state, NOW_MS + 15_000).allowed);
}

#[test]
fn requires_explicit_udev_touchpad_classification() {
    assert!(!udev_data_is_touchpad("E:ID_INPUT_MOUSE=1\n"));
    assert!(udev_data_is_touchpad("E:ID_INPUT=1\nE:ID_INPUT_TOUCHPAD=1\n"));
}

#[test]
fn virtual_devices_are_named_and_framed() {
    assert!(check_sysname("input12").is_ok());
    assert_eq!(
        check_sysname("input"),
        Err("unexpected uinput sysname: input".to_owned())
    );
    assert!(check_sysname("../input1").is_err());
    assert_eq!(sysname_length(b"input1\0x"), 6);
    assert_eq!(sysname_length(b"abc"), 3);
    assert_eq!(
        find_event_name(&vec!["mouse0".to_owned(), "event5".to_owned()]),
        Some("event5".to_owned())
    );
    assert_eq!(find_event_name(&vec!["eventx".to_owned()]), None);
    assert_eq!(udev_data_path("13:70\n"), "/run/udev/data/c13:70");
    let field = device_name_field(b"pad").unwrap();
    assert_eq!(field.len(), 80);
    assert_eq!(&field[..4], b"pad\0");
    assert!(device_name_field(&[b'x'; 80]).is_err());
    let event = InputEvent { kind: 1, code: 2, value: 3 };
    assert_eq!(
        event_frame(&[event]),
        vec![event, InputEvent { kind: 0, code: 0, value: 0 }]
    );
}

#[test]
fn service_commands_require_exact_os_arguments() {
    let args = |list: &[&str]| list.iter().map(|a| a.to_string()).collect::<Vec<String>>();
    for (args, expected) in [
        (
            args(&["service", "--complete-helper-migration"]),
            ServiceCommand::CompleteHelperMigration,
        ),
        (
            args(&["service", "--complete-helper-migration", "unexpected"]),
            ServiceCommand::Invalid,
        ),
        (args(&["service"]), ServiceCommand::Run),
        (args(&["service", "--write-plists"]), ServiceCommand::WritePlists),
        (args(&["service", "--other"]), ServiceCommand::Invalid),
    ] {
        assert_eq!(service_command(&args), expected);
    }
}

#[test]
fn runners_and_helpers_are_told_what_to_do() {
    assert_eq!(runner_target("rustdeskRunner.EXE"), Some("rustdesk.exe".to_owned()));
    assert_eq!(runner_target("rustdeskrunner"), Some("rustdesk".to_owned()));
    assert_eq!(runner_target("rustdesk"), None);
    let args = |list: &[&str]| list.iter().map(|a| a.to_string()).collect::<Vec<String>>();
    let parsed = terminal_helper_args(&args(&["in", "out", "50", "x"])).unwrap();
    assert_eq!(parsed.input_pipe, "in");
    assert_eq!(parsed.output_pipe, "out");
    assert_eq!((parsed.rows, parsed.cols), (50, 80));
    assert!(terminal_helper_args(&args(&["in", "out", "50"])).is_err());
    let shells = shell_candidates();
    let mut present = vec![false; shells.len()];
    assert_eq!(get_default_shell(&shells, &present, Some("sh.exe".to_owned())), "sh.exe");
    assert_eq!(get_default_shell(&shells, &present, None), "cmd.exe");
    let last = shells.len() - 1;
    present[last] = true;
    assert_eq!(get_default_shell(&shells, &present, None), shells[last]);
    assert!(!is_supported());
}

#[test]
fn terminal_helpers_start_or_say_why_not() {
    let args = |list: &[&str]| list.iter().map(|a| a.to_string()).collect::<Vec<String>>();
    let all = args(&["in", "out", "50", "132"]);
    let (parsed, mut step) = run_terminal_helper(true, &all).unwrap();
    assert_eq!((parsed.rows, parsed.cols), (50, 132));
    assert_eq!(
        run_terminal_helper(false, &all).unwrap_err(),
        "Terminal helper is only supported on Windows"
    );
    assert_eq!(
        run_terminal_helper(true, &args(&["in"])).unwrap_err(),
        "Usage: --terminal-helper <input_pipe> <output_pipe> <rows> <cols>"
    );
    for text in [
        "Failed to open input pipe: gone",
        "Failed to open output pipe: gone",
        "Failed to open PTY",
        "Failed to spawn shell",
        "Failed to get PTY writer",
        "Failed to get PTY reader",
    ] {
        assert_eq!(step.failure("gone"), text);
        assert_eq!(step.next(false), HelperStep::Failed);
        step = step.next(true);
    }
    assert_eq!(step, HelperStep::StartPumps);
    for expected in [
        HelperStep::WaitForShell,
        HelperStep::EndPumps,
        HelperStep::JoinInput,
        HelperStep::JoinOutput,
        HelperStep::Finished,
        HelperStep::Finished,
    ] {
        step = step.next(false);
        assert_eq!(step, expected);
    }
    assert_eq!(HelperStep::Failed.next(true), HelperStep::Failed);
}

#[test]
fn pumps_write_what_they_read() {
    let mut step = PumpStep::Look;
    for (event, expected) in [
        (PumpEvent::Ending(false), PumpStep::Read),
        (PumpEvent::WouldBlock, PumpStep::Pause),
        (PumpEvent::Done, PumpStep::Look),
        (PumpEvent::Ending(false), PumpStep::Read),
        (PumpEvent::Received(7), PumpStep::Write(7)),
        (PumpEvent::Done, PumpStep::Flush),
        (PumpEvent::Done, PumpStep::Look),
        (PumpEvent::Ending(true), PumpStep::Stop),
    ] {
        step = step.next(event);
        assert_eq!(step, expected);
    }
    assert_eq!(PumpStep::Read.next(PumpEvent::Received(0)), PumpStep::Stop);
    assert_eq!(PumpStep::Read.next(PumpEvent::Failed), PumpStep::Stop);
    assert_eq!(PumpStep::Write(7).next(PumpEvent::Failed), PumpStep::Stop);
    assert_eq!(PumpStep::Flush.next(PumpEvent::Failed), PumpStep::Stop);
}

fn window(session_id: u128, displays: Vec<usize>) -> WindowDisplays {
    WindowDisplays { session_id, displays }
}

const BORROWED_PIXEL: [u8; 4] = [17, 34, 51, 255];

fn picture(data: &[u8]) -> RgbaData {
    RgbaData { data: data.to_vec(), valid: true, refresh_on_ack: false }
}

#[test]
fn hotplug_refresh_preserves_another_windows_borrowed_rgba() {
    let mut windows = vec![window(1, vec![0]), window(2, vec![0, 1])];
    let mut rgbas = HashMap::from([(0, picture(&BORROWED_PIXEL))]);

    let ask = refresh_capture(&mut windows, &mut rgbas, 2, 1).unwrap();
    assert_eq!(rgbas[&0].data, BORROWED_PIXEL);
    assert!(rgbas[&0].valid && rgbas[&0].refresh_on_ack);
    assert_eq!(ask.capture, vec![0]);
    assert!(ask.refresh.is_empty());

    assert_eq!(refresh_after_rgba(&mut rgbas, 0), Some(0));
    assert_eq!(refresh_after_rgba(&mut rgbas, 0), None);
    assert_eq!(rgbas[&0].data, BORROWED_PIXEL);
    assert!(rgbas[&0].valid && !rgbas[&0].refresh_on_ack);
}

#[test]
fn hotplug_refresh_only_updates_capture() {
    let mut windows = vec![window(7, vec![])];
    let mut rgbas = HashMap::new();
    for count in [2, 1, 0, 1, 3, 2] {
        rgbas.insert(0, picture(&[]));
        let ask = refresh_capture(&mut windows, &mut rgbas, 7, count).unwrap();
        assert_eq!(windows[0].displays, (0..count).collect::<Vec<_>>());
        assert_eq!(ask.capture, (0..count as i32).collect::<Vec<_>>());
        assert_eq!(ask.refresh, (0..count as i32).collect::<Vec<_>>());
        assert_eq!(rgbas[&0].valid, count != 1);
    }
    assert!(refresh_capture(&mut windows, &mut rgbas, 8, 1).is_none());
}

#[test]
fn waiting_pictures_are_asked_for_one_by_one() {
    let waiting = |pixel: u8| RgbaData { data: vec![pixel], valid: true, refresh_on_ack: true };
    let far = i32::MAX as usize + 1;
    let mut rgbas = HashMap::from([(0, waiting(1)), (3, waiting(2)), (far, waiting(3))]);
    assert_eq!(refresh_after_rgba(&mut rgbas, 1), None);
    assert_eq!(refresh_after_rgba(&mut rgbas, 3), Some(3));
    assert!(rgbas[&0].refresh_on_ack && !rgbas[&3].refresh_on_ack);
    assert_eq!(rgbas[&3].data, vec![2]);
    assert_eq!(refresh_after_rgba(&mut rgbas, far), Some(i32::MIN));
    assert_eq!(rgbas.len(), 3);
}

fn setup() -> RelaySetup {
    RelaySetup {
        peer: TEST_PEER.to_owned(),
        rendezvous_server: "127.0.0.1:21116".to_owned(),
        key: TEST_KEY.to_owned(),
        token: String::new(),
        conn_type: 1,
        switch_code: String::new(),
    }
}

fn relay_response(uuid: &str, refuse_reason: &str, relay_server: &str) -> RelayReply {
    RelayReply::RelayResponse {
        refuse_reason: refuse_reason.to_owned(),
        relay_server: relay_server.to_owned(),
        uuid: uuid.to_owned(),
    }
}

fn punch_response(failure: PunchFailure, other_failure: &str) -> RelayReply {
    RelayReply::PunchHoleResponse {
        socket_addr: Vec::new(),
        relay_server: String::new(),
        pk: Vec::new(),
        other_failure: other_failure.to_owned(),
        failure,
    }
}

#[test]
fn relay_fallback_renews_authorization() {
    let request = punch_request(&setup(), "1.4.9");
    assert_eq!(request.id, TEST_PEER);
    assert_eq!(request.licence_key, TEST_KEY);
    assert_eq!(request.conn_type, 1);
    assert!(request.force_relay);
    assert_eq!(request.nat_type, NatType::Symmetric);
    assert_eq!(request.version, "1.4.9");

    let reply = relay_response(TEST_UUID, "", "127.0.0.1:21117");
    assert!(matches!(
        finish_relay_request(reply, true),
        Ok(RelayStep::CreateRelay { uuid, relay_server, ipv4: true })
            if uuid == TEST_UUID && relay_server == "127.0.0.1:21117"
    ));

    let legacy = RelayReply::PunchHoleResponse {
        socket_addr: vec![1, 2, 3],
        relay_server: "127.0.0.1:21117".to_owned(),
        pk: Vec::new(),
        other_failure: String::new(),
        failure: PunchFailure::IdNotExist,
    };
    assert!(matches!(
        finish_relay_request(legacy, true),
        Ok(RelayStep::RequestRelay { relay_server, secure: false })
            if relay_server == "127.0.0.1:21117"
    ));

    for (failure, other_failure, expected) in [
        (PunchFailure::LicenseMismatch, "", "Key mismatch"),
        (PunchFailure::Offline, "", "Remote desktop is offline"),
        (PunchFailure::IdNotExist, "Permission denied", "Permission denied"),
        (PunchFailure::IdNotExist, "", "ID does not exist"),
        (PunchFailure::LicenseOveruse, "", "Key overuse"),
        (PunchFailure::Unknown, "", "other punch hole failure"),
    ] {
        let reply = punch_response(failure, other_failure);
        assert_eq!(finish_relay_request(reply, true).err().unwrap(), expected);
    }

    let refused = relay_response("", "Relay denied", "127.0.0.1:21117");
    assert_eq!(finish_relay_request(refused, true).err().unwrap(), "Relay denied");
    let forged = relay_response("marker\r\nPING\r\n", "", "127.0.0.1:21117");
    assert!(matches!(
        request_relay_with_punch(1, Some(forged), true),
        RelayOutcome::Fail { error } if error == "Invalid relay UUID"
    ));
}

#[test]
fn invalid_uuid_is_rejected_before_connecting_to_relay() {
    let relay = "127.0.0.1:21117";
    assert_eq!(
        create_relay("marker\r\nPING\r\n".to_owned(), relay.to_owned(), true).err().unwrap(),
        "Invalid relay UUID"
    );
    assert!(matches!(
        create_relay(TEST_UUID.to_owned(), relay.to_owned(), false),
        Ok(RelayStep::CreateRelay { uuid, relay_server, ipv4: false })
            if uuid == TEST_UUID && relay_server == relay
    ));
}

#[test]
fn relay_requests_are_repeated_without_an_answer() {
    for attempt in 1..RELAY_ATTEMPTS {
        assert!(matches!(
            request_relay_with_punch(attempt, None, true),
            RelayOutcome::Retry { attempt: next } if next == attempt + 1
        ));
    }
    assert!(matches!(
        request_relay_with_punch(RELAY_ATTEMPTS, None, true),
        RelayOutcome::Fail { error } if error == "Timeout"
    ));
    assert!(matches!(
        request_relay_with_punch(1, Some(RelayReply::Other), true),
        RelayOutcome::Fail { error } if error == "Unexpected message in forced relay response"
    ));
    assert_eq!(
        finish_relay_request(relay_response(TEST_UUID, "", ""), true).err().unwrap(),
        "Missing relay address in forced relay response"
    );
    let no_relay = RelayReply::PunchHoleResponse {
        socket_addr: vec![1],
        relay_server: String::new(),
        pk: vec![1],
        other_failure: String::new(),
        failure: PunchFailure::Unknown,
    };
    assert_eq!(
        finish_relay_request(no_relay, true).err().unwrap(),
        "Missing relay address in punch response"
    );
    assert!(!needs_secure_channel(&setup()));
    let secret = RelaySetup { token: "t".to_owned(), ..setup() };
    assert!(needs_secure_channel(&secret));
    let keyless = RelaySetup { key: String::new(), ..secret };
    assert!(!needs_secure_channel(&keyless));
}

#[test]
fn probes_go_from_strict_to_lenient() {
    let first = first_probe(None, None);
    assert_eq!(first.tls_type, TlsType::Rustls);
    assert!(needs_probe(&first));
    let Some(HttpClientProbeRetry::AcceptInvalidCert(second)) = next_http_client_probe(first)
    else {
        panic!("expected a retry with invalid certificates");
    };
    assert!(accepts_invalid_cert(&second));
    let Some(HttpClientProbeRetry::NativeTls(third)) = next_http_client_probe(second) else {
        panic!("expected a retry with the system's implementation");
    };
    assert_eq!(third.tls_type, TlsType::NativeTls);
    assert!(!accepts_invalid_cert(&third));
    let last = next_http_client_probe(third).unwrap().options();
    assert!(accepts_invalid_cert(&last));
    assert_eq!(next_http_client_probe(last), None);

    assert_eq!(
        after_probe(second, ProbeOutcome::Reached, true),
        ProbeStep::Remember { tls_type: TlsType::Rustls, accept_invalid_cert: true }
    );
    assert_eq!(after_probe(first, ProbeOutcome::OtherError, true), ProbeStep::Use);
    assert!(matches!(
        after_probe(first, ProbeOutcome::OtherError, false),
        ProbeStep::Retry(_)
    ));
    assert_eq!(after_probe(last, ProbeOutcome::RequestError, true), ProbeStep::Use);
    assert!(!needs_probe(&first_probe(Some(TlsType::NativeTls), Some(false))));
    let kept = first_probe(Some(TlsType::Rustls), Some(false));
    assert_eq!(next_http_client_probe(kept), None);
    assert_eq!(next_http_client_probe(first_probe(Some(TlsType::Plain), None)), None);
}

#[test]
fn strict_probes_stay_strict() {
    let strict = strict_probe("HTTPS://Example.org/x", None, None).unwrap();
    assert_eq!(strict.danger_accept_invalid_cert, Some(false));
    assert_eq!(strict.attempt_timeout_secs.is_some(), true);
    let next = next_http_client_probe(strict).unwrap().options();
    assert_eq!(next.tls_type, TlsType::NativeTls);
    assert_eq!(next.danger_accept_invalid_cert, Some(false));
    assert_eq!(next_http_client_probe(next), None);
    assert_eq!(
        strict_probe("http://example.org", None, None),
        Err("Strict HTTP client requires HTTPS: http://example.org".to_owned())
    );
    assert!(strict_probe("not a url", None, None).is_err());
    let known =
        strict_probe_of_scheme("u", "https", Some(TlsType::NativeTls), Some(false)).unwrap();
    assert_eq!((known.tls_type, known.is_tls_type_cached), (TlsType::NativeTls, true));
    let lenient =
        strict_probe_of_scheme("u", "https", Some(TlsType::NativeTls), Some(true)).unwrap();
    assert_eq!((lenient.tls_type, lenient.is_tls_type_cached), (TlsType::Rustls, false));
}

#[test]
fn proxies_are_given_their_url_and_name() {
    assert_eq!(proxy_url(ProxyKind::Http, "h:1"), "http://h:1");
    assert_eq!(proxy_url(ProxyKind::Https, "h:1"), "https://h:1");
    assert_eq!(proxy_url(ProxyKind::Socks5, "h:1"), "socks5://h:1");
    assert!(uses_proxy_auth("a", "b"));
    assert!(!uses_proxy_auth("a", ""));
    let proxy = |p: &str| {
        Some(Socks5Server {
            proxy: p.to_owned(),
            username: String::new(),
            password: String::new(),
        })
    };
    assert_eq!(get_url_for_tls("http://a", true, &proxy("https://p")), "https://p");
    assert_eq!(get_url_for_tls("https://a", false, &proxy("https://p")), "https://a");
    assert_eq!(get_url_for_tls("http://a", true, &proxy("socks5://p")), "http://a");
    assert_eq!(get_url_for_tls("http://a", true, &None), "http://a");
}
