//! What a process answers to a message, and what it does about it.
use crate::ipc::data::{clone_socks, Data, Socks5Server};
use crate::ipc::postfix::is_service_ipc_postfix;
use crate::text::{clone_text, same_list, same_text};
use vstd::prelude::*;

verus! {

/// The kind of an authorized connection.
#[derive(Clone, Copy, Debug, PartialEq, Eq, Structural)]
pub enum AuthConnType {
    Remote,
    FileTransfer,
    PortForward,
    ViewCamera,
    Terminal,
}

/// The system that a process runs on.
#[derive(Clone, Copy, Debug, PartialEq, Eq, Structural)]
pub enum System {
    Windows,
    MacOs,
    Linux,
    Android,
    Ios,
}

impl System {
    /// Whether this is the system of a phone.
    pub open spec fn is_mobile(self) -> bool {
        self is Android || self is Ios
    }

    fn mobile(self) -> (r: bool)
        ensures
            r == self.is_mobile(),
    {
        match self {
            System::Android | System::Ios => true,
            _ => false,
        }
    }
}

/// What the answers are made of: the settings and the state of the process when a
/// message arrives.
#[derive(Debug)]
pub struct ServerSnapshot {
    pub log_path: String,
    pub config_file: String,
    pub username: String,
    pub click_time: i64,
    pub mouse_move_time: i64,
    pub exit_on_close: bool,
    pub is_server: bool,
    pub is_main: bool,
    pub online_state: i64,
    pub key_confirmed: bool,
    pub key_pair: (Vec<u8>, Vec<u8>),
    pub fingerprint: String,
    pub socks: Option<Socks5Server>,
    pub websocket_option: String,
    pub authed_conns: Vec<AuthConnType>,
    pub alive_conns: usize,
    pub terminal_sessions: usize,
    pub id: String,
    pub temporary_password: String,
    pub permanent_password: String,
    pub salt: String,
    pub rendezvous_server: String,
    pub rendezvous_servers: Vec<String>,
    /// Whether the connection manager may be hidden: with a server licence or in a
    /// custom client.
    pub may_hide_cm: bool,
    pub hide_cm: bool,
    pub voice_call_input: Option<String>,
    pub unlock_pin: String,
    pub trusted_devices: String,
    pub options: Vec<(String, String)>,
    pub nat_type: i32,
    pub config: (Vec<u8>, Vec<u8>),
    pub hwcodec_config: Option<String>,
    /// The local option that a message names.
    pub local_option: String,
    pub system: System,
    /// The process was built with the interface that counts its connections.
    pub flutter: bool,
    /// The process was built with the codecs of the hardware.
    pub hwcodec: bool,
    /// How often the service looks at its processes, in milliseconds.
    pub service_interval_ms: u32,
    pub rdp_session_held: bool,
    pub remote_modify_permission: Option<bool>,
    pub file_permission: Option<bool>,
    pub file_transfer_enabled_locally: bool,
    /// A random identifier for this message.
    pub new_uuid: String,
}

/// What a process does about a message.
#[derive(Debug)]
pub enum Effect {
    /// Let go of the keys that are held down.
    ReleaseKeys,
    TurnOffPrivacy,
    /// Remove the socket of the main window, so that a new one can be made.
    RemoveMainSocket,
    Pause { millis: u64 },
    /// Start the program anew, without a server of its own.
    RunWithoutServer,
    /// Open the installed app anew.
    OpenApp,
    QuitGui,
    /// Leave the process in a way that makes it be started again.
    Exit,
    SetSocks(Option<Socks5Server>),
    /// Find out the kind of address translation again if the settings changed.
    CheckNatType,
    RestartMediator,
    SetKeyConfirmed(bool),
    SetId(String),
    UpdateTemporaryPassword,
    SetPermanentPassword(String),
    SetSalt(String),
    SetVoiceCallInput(String),
    SetUnlockPin(String),
    SwitchPrivacyMode(String),
    SetOptions(Vec<(String, String)>),
    /// Restart what depends on settings that changed.
    CheckRestart,
    SetConfig((Vec<u8>, Vec<u8>)),
    TestRendezvousServer,
    RegisterSwitchSides { id: String, uuid: String },
    SetControllingSessionCount(usize),
    CheckHwcodec,
    SetHwcodec(String),
    ClearLocalOption(String),
    CloseScreencastSession,
    RemoveTrustedDevices(Vec<Vec<u8>>),
    ClearTrustedDevices,
    UpdateInstallOption(String, String),
}

/// An answer, if there is one, and what is done, in order.
#[derive(Debug)]
pub struct Handled {
    pub reply: Option<Data>,
    pub effects: Vec<Effect>,
    /// How much of it is done before the answer goes out.
    pub reply_after: usize,
}

/// The texts of a list with a separator between them.
pub open spec fn joined(list: Seq<Seq<char>>, separator: Seq<char>) -> Seq<char>
    decreases list.len(),
{
    if list.len() == 0 {
        Seq::empty()
    } else if list.len() == 1 {
        list[0]
    } else {
        joined(list.drop_last(), separator) + separator + list.last()
    }
}

/// Joins texts with commas.
pub fn join_with_commas(list: &Vec<String>) -> (r: String)
    ensures
        r@ == joined(crate::text::texts(list@), ","@),
{
    let ghost all = crate::text::texts(list@);
    let mut out: String = String::new();
    let mut i: usize = 0;
    while i < list.len()
        invariant
            all == crate::text::texts(list@),
            i <= list.len(),
            out@ == joined(all.take(i as int), ","@),
        decreases list.len() - i,
    {
        assert(all.take(i + 1).drop_last() =~= all.take(i as int));
        assert(all.take(i + 1).last() == list@[i as int]@);
        if i > 0 {
            out.append(",");
        }
        let ghost before = out@;
        out.append(list[i].as_str());
        proof {
            if i == 0 {
                assert(before =~= Seq::<char>::empty());
                assert(out@ =~= list@[0]@);
                assert(all.take(1)[0] == list@[0]@);
            }
        }
        i = i + 1;
    }
    assert(all.take(i as int) =~= all);
    out
}

/// The value of a setting that a message asks for.
pub open spec fn config_value(name: Seq<char>, s: ServerSnapshot) -> Option<Seq<char>> {
    if name == "id"@ {
        Some(s.id@)
    } else if name == "temporary-password"@ {
        Some(s.temporary_password@)
    } else if name == "permanent-password"@ {
        Some(s.permanent_password@)
    } else if name == "salt"@ {
        Some(s.salt@)
    } else if name == "rendezvous_server"@ {
        Some(
            s.rendezvous_server@ + ","@ + joined(
                crate::text::texts(s.rendezvous_servers@),
                ","@,
            ),
        )
    } else if name == "rendezvous_servers"@ {
        Some(joined(crate::text::texts(s.rendezvous_servers@), ","@))
    } else if name == "fingerprint"@ {
        if s.key_confirmed {
            Some(s.fingerprint@)
        } else {
            None
        }
    } else if name == "hide_cm"@ {
        if s.may_hide_cm {
            Some(
                if s.hide_cm {
                    "true"@
                } else {
                    "false"@
                },
            )
        } else {
            None
        }
    } else if name == "voice-call-input"@ {
        crate::text::text_view(s.voice_call_input)
    } else if name == "unlock-pin"@ {
        Some(s.unlock_pin@)
    } else if name == "trusted-devices"@ {
        Some(s.trusted_devices@)
    } else {
        None
    }
}

/// Looks up a setting that a message asks for.
pub fn read_config(name: &str, s: &ServerSnapshot) -> (r: Option<String>)
    ensures
        crate::text::text_view(r) == config_value(name@, *s),
{
    if same_text(name, "id") {
        Some(s.id.clone())
    } else if same_text(name, "temporary-password") {
        Some(s.temporary_password.clone())
    } else if same_text(name, "permanent-password") {
        Some(s.permanent_password.clone())
    } else if same_text(name, "salt") {
        Some(s.salt.clone())
    } else if same_text(name, "rendezvous_server") {
        let mut value = s.rendezvous_server.clone();
        value.append(",");
        let servers = join_with_commas(&s.rendezvous_servers);
        value.append(servers.as_str());
        Some(value)
    } else if same_text(name, "rendezvous_servers") {
        Some(join_with_commas(&s.rendezvous_servers))
    } else if same_text(name, "fingerprint") {
        if s.key_confirmed {
            Some(s.fingerprint.clone())
        } else {
            None
        }
    } else if same_text(name, "hide_cm") {
        if s.may_hide_cm {
            if s.hide_cm {
                Some("true".to_owned())
            } else {
                Some("false".to_owned())
            }
        } else {
            None
        }
    } else if same_text(name, "voice-call-input") {
        clone_text(&s.voice_call_input)
    } else if same_text(name, "unlock-pin") {
        Some(s.unlock_pin.clone())
    } else if same_text(name, "trusted-devices") {
        Some(s.trusted_devices.clone())
    } else {
        None
    }
}

/// What is done about a new value of a setting.
pub open spec fn config_effects(name: Seq<char>, value: String, effects: Seq<Effect>) -> bool {
    if name == "id"@ {
        effects == seq![Effect::SetKeyConfirmed(false), Effect::SetId(value)]
    } else if name == "temporary-password"@ {
        effects == seq![Effect::UpdateTemporaryPassword]
    } else if name == "permanent-password"@ {
        effects == seq![Effect::SetPermanentPassword(value)]
    } else if name == "salt"@ {
        effects == seq![Effect::SetSalt(value)]
    } else if name == "voice-call-input"@ {
        effects == seq![Effect::SetVoiceCallInput(value)]
    } else if name == "unlock-pin"@ {
        effects == seq![Effect::SetUnlockPin(value)]
    } else {
        effects == Seq::<Effect>::empty()
    }
}

/// Takes a new value of a setting.
pub fn write_config(name: &str, value: String) -> (r: Vec<Effect>)
    ensures
        config_effects(name@, value, r@),
{
    let mut effects: Vec<Effect> = Vec::new();
    let ghost v = value;
    if same_text(name, "id") {
        effects.push(Effect::SetKeyConfirmed(false));
        effects.push(Effect::SetId(value));
        assert(effects@ =~= seq![Effect::SetKeyConfirmed(false), Effect::SetId(v)]);
    } else if same_text(name, "temporary-password") {
        effects.push(Effect::UpdateTemporaryPassword);
        assert(effects@ =~= seq![Effect::UpdateTemporaryPassword]);
    } else if same_text(name, "permanent-password") {
        effects.push(Effect::SetPermanentPassword(value));
        assert(effects@ =~= seq![Effect::SetPermanentPassword(v)]);
    } else if same_text(name, "salt") {
        effects.push(Effect::SetSalt(value));
        assert(effects@ =~= seq![Effect::SetSalt(v)]);
    } else if same_text(name, "voice-call-input") {
        effects.push(Effect::SetVoiceCallInput(value));
        assert(effects@ =~= seq![Effect::SetVoiceCallInput(v)]);
    } else if same_text(name, "unlock-pin") {
        effects.push(Effect::SetUnlockPin(value));
        assert(effects@ =~= seq![Effect::SetUnlockPin(v)]);
    }
    effects
}

/// Being of one kind.
pub open spec fn of_kind(kind: AuthConnType) -> spec_fn(AuthConnType) -> bool {
    |c: AuthConnType| c == kind
}

/// The number of connections of one kind.
pub open spec fn conn_count(conns: Seq<AuthConnType>, kind: AuthConnType) -> nat {
    conns.filter(of_kind(kind)).len()
}

/// Counts the connections of one kind.
pub fn count_conns(conns: &Vec<AuthConnType>, kind: AuthConnType) -> (r: usize)
    ensures
        r == conn_count(conns@, kind),
{
    let ghost is_kind = of_kind(kind);
    let mut n: usize = 0;
    let mut i: usize = 0;
    proof {
        reveal(Seq::filter);
    }
    while i < conns.len()
        invariant
            is_kind == of_kind(kind),
            n <= i <= conns.len(),
            n == conns@.take(i as int).filter(is_kind).len(),
        decreases conns.len() - i,
    {
        proof {
            reveal(Seq::filter);
            assert(conns@.take(i + 1).drop_last() =~= conns@.take(i as int));
        }
        if conns[i] == kind {
            n = n + 1;
        }
        i = i + 1;
    }
    assert(conns@.take(i as int) =~= conns@);
    n
}

/// The value of an option.
pub open spec fn option_value(options: Seq<(String, String)>, key: Seq<char>) -> Option<Seq<char>>
    decreases options.len(),
{
    if options.len() == 0 {
        None
    } else if options[0].0@ == key {
        Some(options[0].1@)
    } else {
        option_value(options.drop_first(), key)
    }
}

/// Looks up an option.
pub fn find_option(options: &Vec<(String, String)>, key: &str) -> (r: Option<String>)
    ensures
        crate::text::text_view(r) == option_value(options@, key@),
{
    let mut i: usize = 0;
    assert(options@.skip(0) =~= options@);
    while i < options.len()
        invariant
            i <= options.len(),
            option_value(options@, key@) == option_value(options@.skip(i as int), key@),
        decreases options.len() - i,
    {
        assert(options@.skip(i as int)[0] == options@[i as int]);
        if same_text(options[i].0.as_str(), key) {
            let value = options[i].1.clone();
            return Some(value);
        }
        assert(options@.skip(i as int).drop_first() =~= options@.skip(i + 1));
        i = i + 1;
    }
    None
}

fn clone_options(options: &Vec<(String, String)>) -> (r: Vec<(String, String)>)
    ensures
        r@ == options@,
{
    let mut out: Vec<(String, String)> = Vec::new();
    let mut i: usize = 0;
    while i < options.len()
        invariant
            i <= options.len(),
            out@ == options@.take(i as int),
        decreases options.len() - i,
    {
        let entry = (options[i].0.clone(), options[i].1.clone());
        assert(entry == options@[i as int]);
        assert(options@.take(i + 1) =~= options@.take(i as int).push(entry));
        out.push(entry);
        i = i + 1;
    }
    assert(options@.take(i as int) =~= options@);
    out
}

fn clone_bytes(bytes: &Vec<u8>) -> (r: Vec<u8>)
    ensures
        r@ == bytes@,
{
    let copy: Vec<u8> = bytes.clone();
    assert(copy@ =~= bytes@);
    copy
}

/// The token that is handed out for a screen cast: the stored one; without one, on
/// Linux, a placeholder while a session is held.
pub open spec fn restore_token(s: ServerSnapshot) -> Seq<char> {
    if s.system is Linux && s.local_option@.len() == 0 {
        if s.rdp_session_held {
            "fake token"@
        } else {
            ""@
        }
    } else {
        s.local_option@
    }
}

/// Nothing is done.
pub open spec fn quiet(out: Handled) -> bool {
    out.effects@ == Seq::<Effect>::empty() && out.reply_after == 0
}

/// Nothing is answered and nothing is done.
pub open spec fn ignored(out: Handled) -> bool {
    quiet(out) && out.reply is None
}

/// That is done, and nothing is answered.
pub open spec fn only_does(out: Handled, effects: Seq<Effect>) -> bool {
    out.reply is None && out.reply_after == 0 && out.effects@ == effects
}

/// How the main window is opened anew before the process ends, so that it can be used
/// while the service is installed. Only two systems do so.
pub open spec fn reopening(s: ServerSnapshot) -> Seq<Effect> {
    if !s.is_main {
        Seq::empty()
    } else {
        match s.system {
            System::Linux => seq![
                Effect::RemoveMainSocket,
                Effect::Pause { millis: (2 * s.service_interval_ms) as u64 },
                Effect::RunWithoutServer,
                Effect::Pause { millis: 300 },
                Effect::QuitGui,
            ],
            System::MacOs => seq![
                Effect::RemoveMainSocket,
                Effect::Pause { millis: 1500 },
                Effect::OpenApp,
                Effect::Pause { millis: 300 },
                Effect::QuitGui,
            ],
            _ => Seq::empty(),
        }
    }
}

/// How a process ends that is told to.
pub open spec fn leaving(s: ServerSnapshot) -> Seq<Effect> {
    (if s.system is Android {
        Seq::empty()
    } else {
        seq![Effect::ReleaseKeys]
    }) + (if s.is_server {
        seq![Effect::TurnOffPrivacy]
    } else {
        Seq::empty()
    }) + reopening(s) + seq![Effect::Exit]
}

/// What is answered and done on a channel that is not the service's.
pub open spec fn answers(data: Data, s: ServerSnapshot, out: Handled) -> bool {
    match data {
        Data::SystemInfo(_) => quiet(out) && (out.reply matches Some(Data::SystemInfo(Some(info)))
            && info@ == "log_path: "@ + s.log_path@ + ", config: "@ + s.config_file@
            + ", username: "@ + s.username@),
        Data::ClickTime(_) => quiet(out) && out.reply == Some(Data::ClickTime(s.click_time)),
        Data::MouseMoveTime(_) => if s.system.is_mobile() {
            ignored(out)
        } else {
            quiet(out) && out.reply == Some(Data::MouseMoveTime(s.mouse_move_time))
        },
        Data::Close => if s.exit_on_close {
            only_does(out, leaving(s))
        } else {
            ignored(out)
        },
        Data::OnlineStatus(_) => quiet(out) && out.reply == Some(
            Data::OnlineStatus(Some((s.online_state, s.key_confirmed))),
        ),
        Data::ConfirmedKey(None) => quiet(out) && (out.reply matches Some(Data::ConfirmedKey(pair))
            && match pair {
            Some((secret, public)) => s.key_confirmed && secret@ == s.key_pair.0@ && public@
                == s.key_pair.1@,
            None => !s.key_confirmed,
        }),
        Data::Socks(None) => quiet(out) && out.reply == Some(Data::Socks(s.socks)),
        Data::Socks(Some(socks)) => only_does(
            out,
            seq![
                Effect::SetSocks(
                    if socks.proxy@.len() == 0 {
                        None
                    } else {
                        Some(socks)
                    },
                ),
                Effect::RestartMediator,
                Effect::CheckNatType,
            ],
        ),
        Data::SocksWs(None) => quiet(out) && (out.reply matches Some(
            Data::SocksWs(Some((socks, websocket))),
        ) && socks == s.socks && websocket@ == s.websocket_option@),
        Data::VideoConnCount(None) => if s.flutter {
            quiet(out) && (out.reply matches Some(Data::VideoConnCount(Some(n))) && n
                == conn_count(s.authed_conns@, AuthConnType::Remote))
        } else {
            ignored(out)
        },
        Data::Config((name, None)) => quiet(out) && (out.reply matches Some(
            Data::Config((name2, value)),
        ) && name2@ == name@ && crate::text::text_view(value) == config_value(name@, s)),
        Data::Config((name, Some(value))) => out.reply is None && out.reply_after == 0
            && config_effects(
            name@,
            value,
            out.effects@,
        ),
        Data::Options(None) => quiet(out) && (out.reply matches Some(Data::Options(Some(options)))
            && options@ == s.options@),
        Data::Options(Some(options)) => out.reply == Some(Data::Options(None)) && out.reply_after
            == out.effects@.len() - 2 && (match option_value(options@, "privacy-mode-impl-key"@) {
            Some(key) => out.effects@.len() == 4 && (out.effects@[0] matches
                Effect::SwitchPrivacyMode(k) && k@ == key) && out.effects@.skip(1) == seq![
                Effect::SetOptions(options),
                Effect::CheckNatType,
                Effect::CheckRestart,
            ],
            None => out.effects@ == seq![
                Effect::SetOptions(options),
                Effect::CheckNatType,
                Effect::CheckRestart,
            ],
        }),
        Data::NatType(_) => quiet(out) && out.reply == Some(Data::NatType(Some(s.nat_type))),
        Data::SyncConfig(Some(configs)) => out.reply == Some(Data::SyncConfig(None))
            && out.effects@ == seq![Effect::SetConfig(configs), Effect::CheckRestart]
            && out.reply_after == 1,
        Data::SyncConfig(None) => quiet(out) && (out.reply matches Some(
            Data::SyncConfig(Some((config, config2))),
        ) && config@ == s.config.0@ && config2@ == s.config.1@),
        Data::TestRendezvousServer => only_does(out, seq![Effect::TestRendezvousServer]),
        Data::SwitchSidesRequest(id) => (out.reply matches Some(Data::SwitchSidesRequest(uuid))
            && uuid@ == s.new_uuid@) && out.effects@.len() == 1 && (out.effects@[0] matches
            Effect::RegisterSwitchSides { id: id2, uuid: uuid2 } && id2 == id && uuid2@
            == s.new_uuid@) && out.reply_after == 1,
        Data::ControlledSessionCount(_) => if s.system is Windows {
            quiet(out) && out.reply == Some(Data::ControlledSessionCount(s.alive_conns))
        } else {
            ignored(out)
        },
        Data::ControllingSessionCount(count) => if s.flutter && !s.system.is_mobile() {
            only_does(out, seq![Effect::SetControllingSessionCount(count)])
        } else {
            ignored(out)
        },
        Data::TerminalSessionCount(_) => if s.system is Linux {
            quiet(out) && out.reply == Some(Data::TerminalSessionCount(s.terminal_sessions))
        } else {
            ignored(out)
        },
        Data::CheckHwcodec => if s.hwcodec && !s.system.is_mobile() {
            only_does(out, seq![Effect::CheckHwcodec])
        } else {
            ignored(out)
        },
        Data::HwCodecConfig(None) => if s.hwcodec && !s.system.is_mobile() {
            quiet(out) && (out.reply matches Some(Data::HwCodecConfig(value))
                && crate::text::text_view(value) == crate::text::text_view(s.hwcodec_config))
        } else {
            ignored(out)
        },
        Data::HwCodecConfig(Some(value)) => if s.hwcodec && !s.system.is_mobile() {
            only_does(out, seq![Effect::SetHwcodec(value)])
        } else {
            ignored(out)
        },
        Data::WaylandScreencastRestoreToken((key, request)) => if request@ == "get"@ {
            quiet(out) && (out.reply matches Some(Data::WaylandScreencastRestoreToken((key2, token)))
                && key2@ == key@ && token@ == restore_token(s))
        } else if request@ == "clear"@ {
            &&& out.reply matches Some(Data::WaylandScreencastRestoreToken((key2, token)))
            &&& key2@ == key@
            &&& token@ == ""@
            &&& out.effects@.len() == if s.system is Linux {
                2int
            } else {
                1int
            }
            &&& out.reply_after == out.effects@.len()
            &&& out.effects@[0] matches Effect::ClearLocalOption(key3)
            &&& key3@ == key@
            &&& s.system is Linux ==> out.effects@[1] == Effect::CloseScreencastSession
        } else {
            ignored(out)
        },
        Data::RemoveTrustedDevices(devices) => only_does(
            out,
            seq![Effect::RemoveTrustedDevices(devices)],
        ),
        Data::ClearTrustedDevices => only_does(out, seq![Effect::ClearTrustedDevices]),
        Data::InstallOption(Some((k, v))) => if s.system is Windows {
            only_does(out, seq![Effect::UpdateInstallOption(k, v)])
        } else {
            ignored(out)
        },
        Data::PortForwardSessionCount(None) => if s.system is Windows {
            quiet(out) && (out.reply matches Some(Data::PortForwardSessionCount(Some(n))) && n
                == conn_count(s.authed_conns@, AuthConnType::PortForward))
        } else {
            ignored(out)
        },
        Data::ControlPermissionsRemoteModify(_) => quiet(out) && out.reply == Some(
            Data::ControlPermissionsRemoteModify(s.remote_modify_permission),
        ),
        Data::FileTransferEnabledState(_) => if s.system is Windows {
            quiet(out) && out.reply == Some(
                Data::FileTransferEnabledState(
                    Some(
                        match s.file_permission {
                            Some(enabled) => enabled,
                            None => s.file_transfer_enabled_locally,
                        },
                    ),
                ),
            )
        } else {
            ignored(out)
        },
        _ => ignored(out),
    }
}

fn ignore() -> (r: Handled)
    ensures
        ignored(r),
{
    Handled { reply: None, effects: Vec::new(), reply_after: 0 }
}

fn reply_only(reply: Data) -> (r: Handled)
    ensures
        r.reply == Some(reply),
        quiet(r),
{
    Handled { reply: Some(reply), effects: Vec::new(), reply_after: 0 }
}

fn effect_only(effect: Effect) -> (r: Handled)
    ensures
        only_does(r, seq![effect]),
{
    let mut effects: Vec<Effect> = Vec::new();
    effects.push(effect);
    assert(effects@ =~= seq![effect]);
    Handled { reply: None, effects, reply_after: 0 }
}

fn leave(s: &ServerSnapshot) -> (r: Handled)
    ensures
        only_does(r, leaving(*s)),
{
    let mut effects: Vec<Effect> = Vec::new();
    if s.system != System::Android {
        effects.push(Effect::ReleaseKeys);
    }
    if s.is_server {
        effects.push(Effect::TurnOffPrivacy);
    }
    if s.is_main && s.system == System::Linux {
        effects.push(Effect::RemoveMainSocket);
        effects.push(Effect::Pause { millis: 2 * s.service_interval_ms as u64 });
        effects.push(Effect::RunWithoutServer);
        effects.push(Effect::Pause { millis: 300 });
        effects.push(Effect::QuitGui);
    }
    if s.is_main && s.system == System::MacOs {
        effects.push(Effect::RemoveMainSocket);
        effects.push(Effect::Pause { millis: 1500 });
        effects.push(Effect::OpenApp);
        effects.push(Effect::Pause { millis: 300 });
        effects.push(Effect::QuitGui);
    }
    effects.push(Effect::Exit);
    assert(effects@ =~= leaving(*s));
    Handled { reply: None, effects, reply_after: 0 }
}

fn handle_setting(data: Data, s: &ServerSnapshot) -> (r: Handled)
    requires
        data is Socks || data is Config || data is Options,
    ensures
        answers(data, *s, r),
{
    match data {
        Data::Socks(None) => reply_only(Data::Socks(clone_socks(&s.socks))),
        Data::Socks(Some(socks)) => {
            let mut effects: Vec<Effect> = Vec::new();
            let ghost wanted = socks;
            if socks.proxy.as_str().is_empty() {
                effects.push(Effect::SetSocks(None));
            } else {
                effects.push(Effect::SetSocks(Some(socks)));
            }
            effects.push(Effect::RestartMediator);
            effects.push(Effect::CheckNatType);
            assert(effects@ =~= seq![
                Effect::SetSocks(
                    if wanted.proxy@.len() == 0 {
                        None
                    } else {
                        Some(wanted)
                    },
                ),
                Effect::RestartMediator,
                Effect::CheckNatType,
            ]);
            Handled { reply: None, effects, reply_after: 0 }
        },
        Data::Config((name, None)) => {
            let value = read_config(name.as_str(), s);
            reply_only(Data::Config((name, value)))
        },
        Data::Config((name, Some(value))) => {
            let effects = write_config(name.as_str(), value);
            Handled { reply: None, effects, reply_after: 0 }
        },
        Data::Options(None) => reply_only(Data::Options(Some(clone_options(&s.options)))),
        Data::Options(Some(options)) => {
            let mut effects: Vec<Effect> = Vec::new();
            let ghost wanted = options;
            if let Some(key) = find_option(&options, "privacy-mode-impl-key") {
                effects.push(Effect::SwitchPrivacyMode(key));
            }
            effects.push(Effect::SetOptions(options));
            let reply_after: usize = effects.len();
            effects.push(Effect::CheckNatType);
            effects.push(Effect::CheckRestart);
            proof {
                let tail = seq![
                    Effect::SetOptions(wanted),
                    Effect::CheckNatType,
                    Effect::CheckRestart,
                ];
                if option_value(wanted@, "privacy-mode-impl-key"@) is Some {
                    assert(effects@.skip(1) =~= tail);
                } else {
                    assert(effects@ =~= tail);
                }
            }
            Handled { reply: Some(Data::Options(None)), effects, reply_after }
        },
        _ => ignore(),
    }
}

fn handle_sync(data: Data, s: &ServerSnapshot) -> (r: Handled)
    requires
        data is SyncConfig,
    ensures
        answers(data, *s, r),
{
    match data {
        Data::SyncConfig(Some(configs)) => {
            let mut effects: Vec<Effect> = Vec::new();
            let ghost wanted = configs;
            effects.push(Effect::SetConfig(configs));
            effects.push(Effect::CheckRestart);
            assert(effects@ =~= seq![Effect::SetConfig(wanted), Effect::CheckRestart]);
            Handled { reply: Some(Data::SyncConfig(None)), effects, reply_after: 1 }
        },
        _ => reply_only(
            Data::SyncConfig(Some((clone_bytes(&s.config.0), clone_bytes(&s.config.1)))),
        ),
    }
}

fn handle_restore_token(key: String, request: String, s: &ServerSnapshot) -> (r: Handled)
    ensures
        answers(Data::WaylandScreencastRestoreToken((key, request)), *s, r),
{
    if same_text(request.as_str(), "get") {
        let token = if s.system == System::Linux && s.local_option.as_str().is_empty() {
            if s.rdp_session_held {
                "fake token".to_owned()
            } else {
                "".to_owned()
            }
        } else {
            s.local_option.clone()
        };
        return reply_only(Data::WaylandScreencastRestoreToken((key, token)));
    }
    if same_text(request.as_str(), "clear") {
        let mut effects: Vec<Effect> = Vec::new();
        effects.push(Effect::ClearLocalOption(key.clone()));
        if s.system == System::Linux {
            effects.push(Effect::CloseScreencastSession);
        }
        let reply_after: usize = effects.len();
        return Handled {
            reply: Some(Data::WaylandScreencastRestoreToken((key, "".to_owned()))),
            effects,
            reply_after,
        };
    }
    ignore()
}

/// Answers a message. On a channel of the service only configurations are taken;
/// every other message is refused there, without an answer.
pub fn handle(data: Data, postfix: &str, s: &ServerSnapshot) -> (r: Handled)
    ensures
        if crate::ipc::postfix::names_service(postfix@) && !(data is SyncConfig) {
            ignored(r)
        } else {
            answers(data, *s, r)
        },
{
    let is_sync = matches!(&data, Data::SyncConfig(_));
    if is_service_ipc_postfix(postfix) && !is_sync {
        return ignore();
    }
    match data {
        Data::SystemInfo(_) => {
            let mut info: String = "log_path: ".to_owned();
            info.append(s.log_path.as_str());
            info.append(", config: ");
            info.append(s.config_file.as_str());
            info.append(", username: ");
            info.append(s.username.as_str());
            reply_only(Data::SystemInfo(Some(info)))
        },
        Data::ClickTime(_) => reply_only(Data::ClickTime(s.click_time)),
        Data::MouseMoveTime(_) => {
            if s.system.mobile() {
                ignore()
            } else {
                reply_only(Data::MouseMoveTime(s.mouse_move_time))
            }
        },
        Data::Close => {
            if s.exit_on_close {
                leave(s)
            } else {
                ignore()
            }
        },
        Data::OnlineStatus(_) => reply_only(
            Data::OnlineStatus(Some((s.online_state, s.key_confirmed))),
        ),
        Data::ConfirmedKey(None) => {
            let pair: Option<(Vec<u8>, Vec<u8>)> = if s.key_confirmed {
                Some((clone_bytes(&s.key_pair.0), clone_bytes(&s.key_pair.1)))
            } else {
                None
            };
            reply_only(Data::ConfirmedKey(pair))
        },
        Data::Socks(_) => handle_setting(data, s),
        Data::SocksWs(None) => reply_only(
            Data::SocksWs(Some((clone_socks(&s.socks), s.websocket_option.clone()))),
        ),
        Data::VideoConnCount(None) => {
            if !s.flutter {
                return ignore();
            }
            let n: usize = count_conns(&s.authed_conns, AuthConnType::Remote);
            reply_only(Data::VideoConnCount(Some(n)))
        },
        Data::Config(_) => handle_setting(data, s),
        Data::Options(_) => handle_setting(data, s),
        Data::NatType(_) => reply_only(Data::NatType(Some(s.nat_type))),
        Data::SyncConfig(_) => handle_sync(data, s),
        Data::TestRendezvousServer => effect_only(Effect::TestRendezvousServer),
        Data::SwitchSidesRequest(id) => {
            let uuid = s.new_uuid.clone();
            let mut effects: Vec<Effect> = Vec::new();
            effects.push(Effect::RegisterSwitchSides { id, uuid: s.new_uuid.clone() });
            Handled { reply: Some(Data::SwitchSidesRequest(uuid)), effects, reply_after: 1 }
        },
        Data::ControlledSessionCount(_) => {
            if s.system == System::Windows {
                reply_only(Data::ControlledSessionCount(s.alive_conns))
            } else {
                ignore()
            }
        },
        Data::ControllingSessionCount(count) => {
            if s.flutter && !s.system.mobile() {
                effect_only(Effect::SetControllingSessionCount(count))
            } else {
                ignore()
            }
        },
        Data::TerminalSessionCount(_) => {
            if s.system == System::Linux {
                reply_only(Data::TerminalSessionCount(s.terminal_sessions))
            } else {
                ignore()
            }
        },
        Data::CheckHwcodec => {
            if s.hwcodec && !s.system.mobile() {
                effect_only(Effect::CheckHwcodec)
            } else {
                ignore()
            }
        },
        Data::HwCodecConfig(config) => {
            if !s.hwcodec || s.system.mobile() {
                return ignore();
            }
            match config {
                None => reply_only(Data::HwCodecConfig(clone_text(&s.hwcodec_config))),
                Some(value) => effect_only(Effect::SetHwcodec(value)),
            }
        },
        Data::WaylandScreencastRestoreToken((key, request)) => handle_restore_token(
            key,
            request,
            s,
        ),
        Data::RemoveTrustedDevices(devices) => effect_only(Effect::RemoveTrustedDevices(devices)),
        Data::ClearTrustedDevices => effect_only(Effect::ClearTrustedDevices),
        Data::InstallOption(Some((k, v))) => {
            if s.system == System::Windows {
                effect_only(Effect::UpdateInstallOption(k, v))
            } else {
                ignore()
            }
        },
        Data::PortForwardSessionCount(None) => {
            if s.system != System::Windows {
                return ignore();
            }
            let n: usize = count_conns(&s.authed_conns, AuthConnType::PortForward);
            reply_only(Data::PortForwardSessionCount(Some(n)))
        },
        Data::ControlPermissionsRemoteModify(_) => reply_only(
            Data::ControlPermissionsRemoteModify(s.remote_modify_permission),
        ),
        Data::FileTransferEnabledState(_) => {
            if s.system != System::Windows {
                return ignore();
            }
            let enabled = match s.file_permission {
                Some(enabled) => enabled,
                None => s.file_transfer_enabled_locally,
            };
            reply_only(Data::FileTransferEnabledState(Some(enabled)))
        },
        _ => ignore(),
    }
}

/// The settings whose change makes parts of the process restart.
#[derive(Debug)]
pub struct RestartSettings {
    pub stop_service: String,
    pub rendezvous_servers: Vec<String>,
    pub audio_input: String,
    pub voice_call_input: String,
    pub ws: String,
    pub disable_udp: String,
    pub allow_insecure_tls_fallback: String,
    pub api_server: String,
}

/// Those settings at one time, to be compared with a later one.
#[derive(Debug)]
pub struct CheckIfRestart {
    before: RestartSettings,
}

/// What is restarted.
#[derive(Debug)]
pub struct RestartPlan {
    pub reset_tls_cache: bool,
    pub restart_mediator: bool,
    pub restart_audio: bool,
    /// The input to switch voice calls to.
    pub voice_call_input: Option<String>,
}

impl CheckIfRestart {
    /// The settings that later ones are compared with.
    pub closed spec fn settings(&self) -> RestartSettings {
        self.before
    }

    /// Keeps the settings of now.
    pub fn new(now: RestartSettings) -> (r: CheckIfRestart)
        ensures
            r.settings() == now,
    {
        CheckIfRestart { before: now }
    }

    /// Says what has to restart, given the settings of now.
    pub fn finish(&self, now: &RestartSettings) -> (r: RestartPlan)
        ensures
            r.reset_tls_cache == (self.settings().allow_insecure_tls_fallback@
                != now.allow_insecure_tls_fallback@),
            r.restart_mediator == (r.reset_tls_cache || self.settings().stop_service@
                != now.stop_service@ || crate::text::texts(self.settings().rendezvous_servers@)
                != crate::text::texts(now.rendezvous_servers@) || self.settings().ws@ != now.ws@
                || self.settings().disable_udp@ != now.disable_udp@ || self.settings().api_server@
                != now.api_server@),
            r.restart_audio == (self.settings().audio_input@ != now.audio_input@),
            match r.voice_call_input {
                Some(input) => self.settings().voice_call_input@ != now.voice_call_input@
                    && input@ == now.voice_call_input@,
                None => self.settings().voice_call_input@ == now.voice_call_input@,
            },
    {
        let b = &self.before;
        let reset_tls_cache = !same_text(
            b.allow_insecure_tls_fallback.as_str(),
            now.allow_insecure_tls_fallback.as_str(),
        );
        let restart_mediator = reset_tls_cache || !same_text(
            b.stop_service.as_str(),
            now.stop_service.as_str(),
        ) || !same_list(&b.rendezvous_servers, &now.rendezvous_servers) || !same_text(
            b.ws.as_str(),
            now.ws.as_str(),
        ) || !same_text(b.disable_udp.as_str(), now.disable_udp.as_str()) || !same_text(
            b.api_server.as_str(),
            now.api_server.as_str(),
        );
        let restart_audio = !same_text(b.audio_input.as_str(), now.audio_input.as_str());
        let voice_call_input = if same_text(
            b.voice_call_input.as_str(),
            now.voice_call_input.as_str(),
        ) {
            None
        } else {
            Some(now.voice_call_input.clone())
        };
        RestartPlan { reset_tls_cache, restart_mediator, restart_audio, voice_call_input }
    }
}

/// The service's channel never answers anything but configurations, and does
/// nothing but take them over.
pub proof fn law_service_channel_only_syncs(data: Data, s: ServerSnapshot, out: Handled)
    requires
        data is SyncConfig,
        answers(data, s, out),
    ensures
        out.reply matches Some(reply) && reply is SyncConfig,
        forall|i: int|
            0 <= i < out.effects@.len() ==> #[trigger] out.effects@[i] is SetConfig
                || out.effects@[i] is CheckRestart,
{
}

/// Whatever only looks at what a message has changed.
pub open spec fn is_check(effect: Effect) -> bool {
    effect is CheckNatType || effect is CheckRestart
}

/// An answer goes out at a place among what is done: behind every change that the
/// message asks for, and before what only looks at those changes.
pub proof fn law_answers_stand_between_changes_and_checks(
    data: Data,
    s: ServerSnapshot,
    out: Handled,
)
    requires
        answers(data, s, out),
    ensures
        out.reply_after <= out.effects@.len(),
        out.reply is Some ==> forall|i: int|
            0 <= i < out.effects@.len() ==> (is_check(#[trigger] out.effects@[i]) <==> i
                >= out.reply_after),
{
    if let Data::Options(Some(options)) = data {
        let tail = seq![
            Effect::SetOptions(options),
            Effect::CheckNatType,
            Effect::CheckRestart,
        ];
        if option_value(options@, "privacy-mode-impl-key"@) is Some {
            assert forall|i: int| 1 <= i < 4 implies out.effects@[i] == tail[i - 1] by {
                assert(out.effects@.skip(1)[i - 1] == out.effects@[i]);
            }
        }
    }
}

/// The settings once something has been done about a new value of one of them.
pub open spec fn with_effect(s: ServerSnapshot, effect: Effect) -> ServerSnapshot {
    match effect {
        Effect::SetKeyConfirmed(confirmed) => ServerSnapshot { key_confirmed: confirmed, ..s },
        Effect::SetId(id) => ServerSnapshot { id, ..s },
        Effect::SetPermanentPassword(password) => ServerSnapshot {
            permanent_password: password,
            ..s
        },
        Effect::SetSalt(salt) => ServerSnapshot { salt, ..s },
        Effect::SetVoiceCallInput(input) => ServerSnapshot { voice_call_input: Some(input), ..s },
        Effect::SetUnlockPin(pin) => ServerSnapshot { unlock_pin: pin, ..s },
        _ => s,
    }
}

/// The settings once a list of things has been done, in turn.
pub open spec fn with_effects(s: ServerSnapshot, effects: Seq<Effect>) -> ServerSnapshot
    decreases effects.len(),
{
    if effects.len() == 0 {
        s
    } else {
        with_effect(with_effects(s, effects.drop_last()), effects.last())
    }
}

/// A setting that can be written is read back as it was written, and writing it leaves
/// what is read of every other setting as it was. Only the fingerprint, which hangs on
/// the identifier, is withheld once that has changed.
pub proof fn law_written_settings_are_read_back(
    name: Seq<char>,
    other: Seq<char>,
    value: String,
    effects: Seq<Effect>,
    s: ServerSnapshot,
)
    requires
        config_effects(name, value, effects),
        other != name,
    ensures
        ({
            let after = with_effects(s, effects);
            &&& name == "id"@ || name == "permanent-password"@ || name == "salt"@ || name
                == "voice-call-input"@ || name == "unlock-pin"@ ==> config_value(name, after)
                == Some(value@)
            &&& !(name == "id"@ && other == "fingerprint"@) ==> config_value(other, after)
                == config_value(other, s)
            &&& name == "id"@ ==> config_value("fingerprint"@, after) is None
        }),
        name == "temporary-password"@ ==> effects == seq![Effect::UpdateTemporaryPassword],
        name != "id"@ && name != "temporary-password"@ && name != "permanent-password"@ && name
            != "salt"@ && name != "voice-call-input"@ && name != "unlock-pin"@ ==> effects.len()
            == 0,
{
    lemma_setting_names_differ();
    reveal_with_fuel(with_effects, 3);
    if name == "id"@ {
        assert(effects.drop_last() =~= seq![Effect::SetKeyConfirmed(false)]);
    }
    if effects.len() == 1 {
        assert(effects.drop_last() =~= Seq::<Effect>::empty());
    }
    assert(seq![Effect::SetKeyConfirmed(false)].drop_last() =~= Seq::<Effect>::empty());
}

proof fn lemma_setting_names_differ()
    ensures
        "id"@.len() == 2,
        "salt"@.len() == 4,
        "hide_cm"@.len() == 7,
        "unlock-pin"@.len() == 10,
        "fingerprint"@.len() == 11,
        "trusted-devices"@.len() == 15,
        "voice-call-input"@.len() == 16,
        "rendezvous_server"@.len() == 17,
        "temporary-password"@.len() == 18 && "temporary-password"@[0] == 't',
        "permanent-password"@.len() == 18 && "permanent-password"@[0] == 'p',
        "rendezvous_servers"@.len() == 18 && "rendezvous_servers"@[0] == 'r',
{
    reveal_strlit("id");
    reveal_strlit("salt");
    reveal_strlit("hide_cm");
    reveal_strlit("unlock-pin");
    reveal_strlit("fingerprint");
    reveal_strlit("trusted-devices");
    reveal_strlit("voice-call-input");
    reveal_strlit("rendezvous_server");
    reveal_strlit("temporary-password");
    reveal_strlit("permanent-password");
    reveal_strlit("rendezvous_servers");
}

/// What is read of the settings that nobody writes this way: the passwords of the
/// session, the servers, the fingerprint of a confirmed key, whether the manager is
/// hidden, and the trusted devices. Other names have no value.
pub proof fn law_read_settings(name: Seq<char>, s: ServerSnapshot)
    ensures
        config_value("temporary-password"@, s) == Some(s.temporary_password@),
        config_value("trusted-devices"@, s) == Some(s.trusted_devices@),
        config_value("fingerprint"@, s) is Some <==> s.key_confirmed,
        s.key_confirmed ==> config_value("fingerprint"@, s) == Some(s.fingerprint@),
        config_value("hide_cm"@, s) is Some <==> s.may_hide_cm,
        s.may_hide_cm && s.hide_cm ==> config_value("hide_cm"@, s) == Some("true"@),
        s.may_hide_cm && !s.hide_cm ==> config_value("hide_cm"@, s) == Some("false"@),
        config_value("rendezvous_servers"@, s) is Some,
        config_value("rendezvous_server"@, s) == Some(
            s.rendezvous_server@ + ","@ + config_value("rendezvous_servers"@, s)->0,
        ),
        !seq![
            "id"@,
            "temporary-password"@,
            "permanent-password"@,
            "salt"@,
            "rendezvous_server"@,
            "rendezvous_servers"@,
            "fingerprint"@,
            "hide_cm"@,
            "voice-call-input"@,
            "unlock-pin"@,
            "trusted-devices"@,
        ].contains(name) ==> config_value(name, s) is None,
{
    lemma_setting_names_differ();
    let names = seq![
        "id"@,
        "temporary-password"@,
        "permanent-password"@,
        "salt"@,
        "rendezvous_server"@,
        "rendezvous_servers"@,
        "fingerprint"@,
        "hide_cm"@,
        "voice-call-input"@,
        "unlock-pin"@,
        "trusted-devices"@,
    ];
    assert(names[0] == "id"@ && names[1] == "temporary-password"@ && names[2]
        == "permanent-password"@ && names[3] == "salt"@ && names[4] == "rendezvous_server"@
        && names[5] == "rendezvous_servers"@ && names[6] == "fingerprint"@ && names[7]
        == "hide_cm"@ && names[8] == "voice-call-input"@ && names[9] == "unlock-pin"@ && names[10]
        == "trusted-devices"@);
}

/// Joining two lists of servers is joining each and putting the separator between
/// them; a single one stands for itself.
pub proof fn law_joined_lists_add_up(a: Seq<Seq<char>>, b: Seq<Seq<char>>, separator: Seq<char>)
    requires
        a.len() > 0,
        b.len() > 0,
    ensures
        joined(a + b, separator) == joined(a, separator) + separator + joined(b, separator),
        a.len() == 1 ==> joined(a, separator) == a[0],
        joined(Seq::empty(), separator).len() == 0,
    decreases b.len(),
{
    let whole = a + b;
    assert(whole.drop_last() =~= a + b.drop_last());
    if b.len() == 1 {
        assert(a + b.drop_last() =~= a);
        assert(joined(whole, separator) =~= joined(a, separator) + separator + b[0]);
    } else {
        law_joined_lists_add_up(a, b.drop_last(), separator);
        assert(joined(whole, separator) =~= joined(a, separator) + separator + joined(b, separator));
    }
}

/// The value of an option is that of the first entry of its name; it has none only
/// where no entry has the name.
pub proof fn law_first_option_decides(options: Seq<(String, String)>, key: Seq<char>)
    ensures
        match option_value(options, key) {
            Some(value) => exists|i: int|
                0 <= i < options.len() && (#[trigger] options[i]).0@ == key && options[i].1@
                    == value && (forall|j: int| 0 <= j < i ==> (#[trigger] options[j]).0@ != key),
            None => forall|i: int| 0 <= i < options.len() ==> (#[trigger] options[i]).0@ != key,
        },
    decreases options.len(),
{
    if options.len() > 0 && options[0].0@ != key {
        let rest = options.drop_first();
        law_first_option_decides(rest, key);
        match option_value(rest, key) {
            Some(value) => {
                let i = choose|i: int|
                    0 <= i < rest.len() && (#[trigger] rest[i]).0@ == key && rest[i].1@ == value && (
                    forall|j: int| 0 <= j < i ==> (#[trigger] rest[j]).0@ != key);
                assert(options[i + 1] == rest[i]);
                assert forall|j: int| 0 <= j < i + 1 implies (#[trigger] options[j]).0@ != key by {
                    if j > 0 {
                        assert(rest[j - 1] == options[j]);
                    }
                }
            },
            None => {
                assert forall|i: int| 0 <= i < options.len() implies (#[trigger] options[i]).0@
                    != key by {
                    if i > 0 {
                        assert(rest[i - 1] == options[i]);
                    }
                }
            },
        }
    }
}

/// Connections are counted by their kind: one more of the kind counts one more, one of
/// another kind does not.
pub proof fn law_connections_are_counted(
    conns: Seq<AuthConnType>,
    more: AuthConnType,
    kind: AuthConnType,
)
    ensures
        conn_count(conns.push(more), kind) == conn_count(conns, kind) + (if more == kind {
            1nat
        } else {
            0nat
        }),
        conn_count(Seq::empty(), kind) == 0,
{
    reveal(Seq::filter);
    assert(conns.push(more).drop_last() =~= conns);
}

/// A question changes nothing, and is answered by a message of its own kind.
pub proof fn law_questions_change_nothing(data: Data, s: ServerSnapshot, out: Handled)
    requires
        answers(data, s, out),
        data is SystemInfo || data is ClickTime || data is MouseMoveTime || data is OnlineStatus
            || data is ConfirmedKey || data == Data::Socks(None) || data is SocksWs || data
            is VideoConnCount || data == Data::Options(None) || data is NatType || data
            == Data::SyncConfig(None) || data is ControlledSessionCount || data
            is TerminalSessionCount || data == Data::HwCodecConfig(None) || data
            is PortForwardSessionCount || data is ControlPermissionsRemoteModify || data
            is FileTransferEnabledState || (data is Config && data->Config_0.1 is None),
    ensures
        out.effects@.len() == 0 && out.reply_after == 0,
        match out.reply {
            None => true,
            Some(reply) => {
                &&& reply is SystemInfo <==> data is SystemInfo
                &&& reply is ClickTime <==> data is ClickTime
                &&& reply is MouseMoveTime <==> data is MouseMoveTime
                &&& reply is OnlineStatus <==> data is OnlineStatus
                &&& reply is ConfirmedKey <==> data is ConfirmedKey
                &&& reply is Socks <==> data is Socks
                &&& reply is SocksWs <==> data is SocksWs
                &&& reply is VideoConnCount <==> data is VideoConnCount
                &&& reply is Config <==> data is Config
                &&& reply is Options <==> data is Options
                &&& reply is NatType <==> data is NatType
                &&& reply is SyncConfig <==> data is SyncConfig
                &&& reply is ControlledSessionCount <==> data is ControlledSessionCount
                &&& reply is TerminalSessionCount <==> data is TerminalSessionCount
                &&& reply is HwCodecConfig <==> data is HwCodecConfig
                &&& reply is PortForwardSessionCount <==> data is PortForwardSessionCount
            },
        },
{
}

/// What the answers to questions hold is the state that they ask for.
pub proof fn law_answers_tell_the_state(data: Data, s: ServerSnapshot, out: Handled)
    requires
        answers(data, s, out),
    ensures
        data is ClickTime ==> out.reply == Some(Data::ClickTime(s.click_time)),
        data is MouseMoveTime && !(s.system is Android) && !(s.system is Ios) ==> out.reply == Some(
            Data::MouseMoveTime(s.mouse_move_time),
        ),
        data is OnlineStatus ==> out.reply == Some(
            Data::OnlineStatus(Some((s.online_state, s.key_confirmed))),
        ),
        data is NatType ==> out.reply == Some(Data::NatType(Some(s.nat_type))),
        data == Data::Socks(None) ==> out.reply == Some(Data::Socks(s.socks)),
        data is ControlledSessionCount && s.system is Windows ==> out.reply == Some(
            Data::ControlledSessionCount(s.alive_conns),
        ),
        data is TerminalSessionCount && s.system is Linux ==> out.reply == Some(
            Data::TerminalSessionCount(s.terminal_sessions),
        ),
        data is ControlPermissionsRemoteModify ==> out.reply == Some(
            Data::ControlPermissionsRemoteModify(s.remote_modify_permission),
        ),
        data == Data::ConfirmedKey(None) && !s.key_confirmed ==> out.reply == Some(
            Data::ConfirmedKey(None),
        ),
        data == Data::ConfirmedKey(None) && s.key_confirmed ==> (out.reply matches Some(
            Data::ConfirmedKey(Some((secret, public))),
        ) && secret@ == s.key_pair.0@ && public@ == s.key_pair.1@),
        data == Data::Options(None) ==> (out.reply matches Some(Data::Options(Some(options)))
            && options@ == s.options@),
        data == Data::SyncConfig(None) ==> (out.reply matches Some(
            Data::SyncConfig(Some((config, config2))),
        ) && config@ == s.config.0@ && config2@ == s.config.1@),
        data is FileTransferEnabledState && s.system is Windows ==> out.reply == Some(
            Data::FileTransferEnabledState(
                Some(
                    if s.file_permission is Some {
                        s.file_permission->0
                    } else {
                        s.file_transfer_enabled_locally
                    },
                ),
            ),
        ),
{
}

/// Which systems and programs leave some messages without an answer and without
/// anything done.
pub proof fn law_messages_for_other_systems_are_ignored(
    data: Data,
    s: ServerSnapshot,
    out: Handled,
)
    requires
        answers(data, s, out),
        ({
            let phone = s.system is Android || s.system is Ios;
            ||| data is MouseMoveTime && phone
            ||| data is VideoConnCount && !s.flutter
            ||| data is ControlledSessionCount && !(s.system is Windows)
            ||| data is ControllingSessionCount && (phone || !s.flutter)
            ||| data is TerminalSessionCount && !(s.system is Linux)
            ||| (data is CheckHwcodec || data is HwCodecConfig) && (phone || !s.hwcodec)
            ||| data is InstallOption && !(s.system is Windows)
            ||| data is PortForwardSessionCount && !(s.system is Windows)
            ||| data is FileTransferEnabledState && !(s.system is Windows)
            ||| data is Close && !s.exit_on_close
        }),
    ensures
        out.reply is None && out.effects@.len() == 0,
{
}

/// New settings of a message are taken over as they are: a proxy without an address
/// turns the proxy off, and a setting of the hardware's codecs, of the trusted devices
/// or of the installation is handed on.
pub proof fn law_new_settings_are_taken_over(data: Data, s: ServerSnapshot, out: Handled)
    requires
        answers(data, s, out),
    ensures
        data matches Data::Socks(Some(socks)) ==> out.reply is None && out.effects@.len() == 3
            && out.effects@[0] == Effect::SetSocks(
            if socks.proxy@.len() > 0 {
                Some(socks)
            } else {
                None
            },
        ) && out.effects@[1] == Effect::RestartMediator && out.effects@[2] == Effect::CheckNatType,
        data matches Data::Options(Some(options)) ==> out.effects@.contains(
            Effect::SetOptions(options),
        ) && out.reply == Some(Data::Options(None)),
        data matches Data::SyncConfig(Some(configs)) ==> out.effects@.len() == 2 && out.effects@[0]
            == Effect::SetConfig(configs) && out.reply == Some(Data::SyncConfig(None)),
        data matches Data::RemoveTrustedDevices(devices) ==> out.effects@.len() == 1
            && out.effects@[0] == Effect::RemoveTrustedDevices(devices),
        data is ClearTrustedDevices ==> out.effects@.len() == 1 && out.effects@[0]
            == Effect::ClearTrustedDevices,
        data matches Data::InstallOption(Some((k, v))) ==> (s.system is Windows ==> out.effects@.len()
            == 1 && out.effects@[0] == Effect::UpdateInstallOption(k, v)),
        data matches Data::SwitchSidesRequest(id) ==> (out.reply matches Some(
            Data::SwitchSidesRequest(uuid),
        ) && uuid@ == s.new_uuid@) && out.effects@.len() == 1 && (out.effects@[0] matches
            Effect::RegisterSwitchSides { id: known, uuid } && known == id && uuid@ == s.new_uuid@),
{
    if let Data::Options(Some(options)) = data {
        if option_value(options@, "privacy-mode-impl-key"@) is Some {
            assert(out.effects@.skip(1)[0] == out.effects@[1]);
            assert(out.effects@[1] == Effect::SetOptions(options));
        } else {
            assert(out.effects@[0] == Effect::SetOptions(options));
        }
    }
}

/// The token for a screen cast is the stored one, wherever one is stored; only on Linux
/// a held session stands in for it.
pub proof fn law_stored_token_is_handed_out(s: ServerSnapshot)
    ensures
        s.local_option@.len() > 0 ==> restore_token(s) == s.local_option@,
        s.local_option@.len() == 0 && !(s.system is Linux && s.rdp_session_held) ==> restore_token(
            s,
        ).len() == 0,
        s.local_option@.len() == 0 && s.system is Linux && s.rdp_session_held ==> restore_token(s)
            == "fake token"@,
{
    reveal_strlit("");
}

/// Leaving ends with the exit and holds it once. Keys are let go first, but on Android;
/// a server turns the privacy mode off; and only a main window of two systems is opened
/// anew, at a socket that was removed before.
pub proof fn law_leaving_ends_with_the_exit(s: ServerSnapshot, i: int)
    requires
        0 <= i < leaving(s).len(),
    ensures
        leaving(s)[i] == Effect::Exit <==> i == leaving(s).len() - 1,
        leaving(s)[i] == Effect::ReleaseKeys ==> i == 0,
        leaving(s)[0] == Effect::ReleaseKeys <==> !(s.system is Android),
        leaving(s).contains(Effect::TurnOffPrivacy) <==> s.is_server,
        leaving(s).contains(Effect::RemoveMainSocket) <==> s.is_main && (s.system is Linux
            || s.system is MacOs),
        leaving(s)[i] == Effect::RunWithoutServer ==> s.system is Linux && s.is_main && i >= 2
            && leaving(s)[i - 2] == Effect::RemoveMainSocket && leaving(s)[i - 1] == (
        Effect::Pause { millis: (2 * s.service_interval_ms) as u64 }),
        leaving(s)[i] == Effect::OpenApp ==> s.system is MacOs && s.is_main && i >= 2 && leaving(
            s,
        )[i - 2] == Effect::RemoveMainSocket && leaving(s)[i - 1] == (Effect::Pause { millis: 1500 }),
        s.is_main && (s.system is Linux || s.system is MacOs) ==> leaving(s)[leaving(s).len() - 2]
            == Effect::QuitGui,
{
    let keys = if s.system is Android {
        Seq::empty()
    } else {
        seq![Effect::ReleaseKeys]
    };
    let privacy = if s.is_server {
        seq![Effect::TurnOffPrivacy]
    } else {
        Seq::empty()
    };
    let a = keys.len() as int;
    let b = a + privacy.len();
    assert(leaving(s) == keys + privacy + reopening(s) + seq![Effect::Exit]);
    if s.is_server {
        assert(leaving(s)[a] == Effect::TurnOffPrivacy);
    }
    if reopening(s).len() > 0 {
        assert(leaving(s)[b] == Effect::RemoveMainSocket);
    }
}

/// A token is handed out under the key that it was asked for by, and only on the word for
/// it; once it is cleared, which its answer follows, what is told is the empty one.
pub proof fn law_cleared_tokens_are_empty(
    s: ServerSnapshot,
    key: String,
    request: String,
    out: Handled,
)
    requires
        answers(Data::WaylandScreencastRestoreToken((key, request)), s, out),
    ensures
        request@ == "clear"@ ==> (out.reply matches Some(
            Data::WaylandScreencastRestoreToken((told_key, token)),
        ) && told_key@ == key@ && token@.len() == 0) && out.effects@.len() > 0 && out.reply_after
            == out.effects@.len() && (out.effects@[0] matches Effect::ClearLocalOption(cleared)
            && cleared@ == key@),
        request@ == "get"@ ==> (out.reply matches Some(
            Data::WaylandScreencastRestoreToken((told_key, token)),
        ) && told_key@ == key@ && token@ == restore_token(s)) && out.effects@.len() == 0,
        request@ != "get"@ && request@ != "clear"@ ==> out.reply is None && out.effects@.len() == 0,
{
    reveal_strlit("");
    reveal_strlit("get");
    reveal_strlit("clear");
    assert("get"@.len() != "clear"@.len());
}

} // verus!
