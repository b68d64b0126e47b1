//! What a process makes of the answers of another one.
use crate::ipc::data::{clone_socks, Data, Socks5Server};
use crate::ipc::service_uid::is_allowed_service_peer_uid;
use crate::text::{chars_of, parse_number, same_text, split_on, trim};
use crate::text_map::TextMap;
use vstd::prelude::*;

verus! {

/// The value in an answer about a setting. An answer about another setting, or
/// about something else, has none.
pub fn config_reply(name: &str, reply: Option<Data>) -> (r: Option<String>)
    ensures
        match reply {
            Some(Data::Config((answered, value))) => if answered@ == name@ {
                r == value
            } else {
                r is None
            },
            _ => r is None,
        },
{
    if let Some(Data::Config((answered, value))) = reply {
        if same_text(name, answered.as_str()) {
            return value;
        }
    }
    None
}

/// A setting, and whether the own copy has to follow it.
#[derive(Debug)]
pub struct AdoptedSetting {
    pub value: String,
    pub store: bool,
}

/// The setting of the other process, which the own copy follows; without an
/// answer the own copy.
pub fn adopt_setting(reply: Option<String>, own: String) -> (r: AdoptedSetting)
    ensures
        match reply {
            Some(value) => r.value == value && r.store,
            None => r.value == own && !r.store,
        },
{
    match reply {
        Some(value) => AdoptedSetting { value, store: true },
        None => AdoptedSetting { value: own, store: false },
    }
}

/// The fingerprint that the other process told, empty without one.
pub fn get_fingerprint(reply: Result<Option<String>, String>) -> (r: String)
    ensures
        match reply {
            Ok(Some(fingerprint)) => r == fingerprint,
            _ => r@ == ""@,
        },
{
    match reply {
        Ok(Some(fingerprint)) => fingerprint,
        _ => "".to_owned(),
    }
}

/// A complaint, and whether it is a key to be translated.
#[derive(Debug)]
pub struct PinRejection {
    pub text: String,
    pub translate: bool,
}

/// The shortest unlock pin.
pub const MIN_PIN_LEN: usize = 4;

/// A code has an acceptable length; the empty one takes the code away.
pub open spec fn pin_fits(pin: Seq<char>, max_len: nat) -> bool {
    pin.len() == 0 || MIN_PIN_LEN <= pin.len() <= max_len
}

/// The pin to store: the trimmed one. It is empty or has a fitting length.
pub fn set_unlock_pin(pin: &str, max_len: usize, translate: bool) -> (r: Result<
    String,
    PinRejection,
>)
    ensures
        r is Ok <==> pin_fits(crate::text::trimmed(pin@), max_len as nat),
        match r {
            Ok(stored) => stored@ == crate::text::trimmed(pin@) && (stored@.len() == 0 || (
            MIN_PIN_LEN <= stored@.len() && stored@.len() <= max_len)),
            Err(rejection) => {
                let len = crate::text::trimmed(pin@).len();
                &&& len > 0
                &&& len < MIN_PIN_LEN || len > max_len
                &&& rejection.translate == (len < MIN_PIN_LEN && translate)
                &&& rejection.text@ == (if len < MIN_PIN_LEN {
                    if translate {
                        "Requires at least {4} characters"@
                    } else {
                        "Requires at least 4 characters"@
                    }
                } else {
                    "No more than "@ + crate::text::decimal(max_len as nat) + " characters"@
                })
            },
        },
{
    let trimmed = trim(pin);
    let len: usize = chars_of(trimmed.as_str()).len();
    if len != 0 {
        if len < MIN_PIN_LEN {
            let text = if translate {
                "Requires at least {4} characters".to_owned()
            } else {
                "Requires at least 4 characters".to_owned()
            };
            return Err(PinRejection { text, translate });
        }
        if len > max_len {
            let mut text: String = "No more than ".to_owned();
            let number = crate::text::decimal_text(max_len as u64);
            text.append(number.as_str());
            text.append(" characters");
            return Err(PinRejection { text, translate: false });
        }
    }
    Ok(trimmed)
}

/// What to make of the identity that the other process told.
#[derive(Debug)]
pub struct AdoptedId {
    pub id: String,
    /// The salt to store with it.
    pub set_salt: Option<String>,
    /// Whether the own identity has to follow; its key is then unconfirmed.
    pub set_id: bool,
}

/// The identity that the other process told, and what the own settings have to
/// follow; without an answer the own one.
pub fn get_id(reply: Option<String>, salt: Option<String>, own_id: String) -> (r: AdoptedId)
    ensures
        match reply {
            Some(id) => r.id == id && r.set_salt == salt && r.set_id == (id@ != own_id@),
            None => r.id == own_id && r.set_salt is None && !r.set_id,
        },
{
    match reply {
        Some(id) => {
            let set_id = !same_text(id.as_str(), own_id.as_str());
            AdoptedId { id, set_salt: salt, set_id }
        },
        None => AdoptedId { id: own_id, set_salt: None, set_id: false },
    }
}

/// The server in use and all servers, from an answer that lists them with
/// commas; without an answer the own settings.
pub fn get_rendezvous_server(
    reply: Option<String>,
    own_server: String,
    own_servers: Vec<String>,
) -> (r: (String, Vec<String>))
    ensures
        match reply {
            Some(value) => seq![r.0@] + crate::text::texts(r.1@) == crate::text::split_pieces(
                value@,
                ',',
            ),
            None => r == (own_server, own_servers),
        },
{
    match reply {
        Some(value) => {
            let mut pieces = split_on(value.as_str(), ',');
            let ghost all = crate::text::split_pieces(value@, ',');
            proof {
                crate::text::lemma_split_nonempty(value@, ',');
                assert(pieces@.len() == all.len());
            }
            let ghost before = pieces@;
            let first = pieces.remove(0);
            proof {
                assert(all[0] == before[0]@);
                assert forall|i: int| 0 <= i < all.len() implies (seq![first@]
                    + crate::text::texts(pieces@))[i] == all[i] by {
                    if i > 0 {
                        assert(pieces@[i - 1] == before[i]);
                    }
                }
                assert(seq![first@] + crate::text::texts(pieces@) =~= all);
            }
            (first, pieces)
        },
        None => (own_server, own_servers),
    }
}

/// All servers, from an answer that lists them with commas; without an answer the
/// own settings.
pub fn get_rendezvous_servers(reply: Option<String>, own_servers: Vec<String>) -> (r: Vec<String>)
    ensures
        match reply {
            Some(value) => crate::text::texts(r@) == crate::text::split_pieces(value@, ','),
            None => r == own_servers,
        },
{
    match reply {
        Some(value) => split_on(value.as_str(), ','),
        None => own_servers,
    }
}

/// Sets an option; an empty value removes it.
pub fn set_option(options: &mut TextMap<String>, key: &str, value: &str)
    ensures
        value@.len() == 0 ==> final(options)@ == old(options)@.remove(key@),
        value@.len() > 0 ==> final(options)@.dom() == old(options)@.dom().insert(key@) && final(options)@[key@]@ == value@ && final(options)@.remove(key@) == old(options)@.remove(key@),
{
    if value.is_empty() {
        let _ = options.remove(key);
    } else {
        let owned = value.to_owned();
        options.insert(key, owned);
        assert(options@.remove(key@) =~= old(options)@.remove(key@));
    }
}

/// The value of an option, empty without one.
pub fn get_option(options: &TextMap<String>, key: &str) -> (r: String)
    ensures
        r@ == if options@.contains_key(key@) {
            options@[key@]@
        } else {
            ""@
        },
{
    match options.get(key) {
        Some(value) => value.clone(),
        None => "".to_owned(),
    }
}

/// The proxy to store: none where its address is empty.
pub fn stored_socks(value: &Socks5Server) -> (r: Option<Socks5Server>)
    ensures
        r == if value.proxy@.len() == 0 {
            None
        } else {
            Some(*value)
        },
{
    if value.proxy.as_str().is_empty() {
        return None;
    }
    Some(
        Socks5Server {
            proxy: value.proxy.clone(),
            username: value.username.clone(),
            password: value.password.clone(),
        },
    )
}

/// Whether a proxy is set.
pub fn get_proxy_status(socks: &Option<Socks5Server>) -> (r: bool)
    ensures
        r == (socks is Some),
{
    socks.is_some()
}

/// The proxy in an answer, else the own one.
pub fn socks_reply(reply: Option<Data>, own: &Option<Socks5Server>) -> (r: Option<Socks5Server>)
    ensures
        r == match reply {
            Some(Data::Socks(value)) => value,
            _ => *own,
        },
{
    if let Some(Data::Socks(value)) = reply {
        return value;
    }
    clone_socks(own)
}

/// How the network is reached: the proxy, and the choice for web sockets.
#[derive(Debug)]
pub struct AdoptedSocksWs {
    pub socks: Option<Socks5Server>,
    pub allow_websocket: String,
    /// The own copy has to follow.
    pub store: bool,
}

/// How the other process reaches the network; without an answer the own way.
pub fn socks_ws_reply(
    reply: Option<Data>,
    own_socks: &Option<Socks5Server>,
    own_allow_websocket: String,
) -> (r: AdoptedSocksWs)
    ensures
        match reply {
            Some(Data::SocksWs(Some((socks, allow_websocket)))) => r == (AdoptedSocksWs {
                socks,
                allow_websocket,
                store: true,
            }),
            _ => r == (AdoptedSocksWs {
                socks: *own_socks,
                allow_websocket: own_allow_websocket,
                store: false,
            }),
        },
{
    if let Some(Data::SocksWs(Some((socks, allow_websocket)))) = reply {
        return AdoptedSocksWs { socks, allow_websocket, store: true };
    }
    AdoptedSocksWs {
        socks: clone_socks(own_socks),
        allow_websocket: own_allow_websocket,
        store: false,
    }
}

/// The kind of network that the other process has found, and whether the own copy
/// has to follow; without an answer the own copy.
pub fn nat_type_reply(reply: Option<Data>, own: i32) -> (r: (i32, bool))
    ensures
        r == match reply {
            Some(Data::NatType(Some(kind))) => (kind, true),
            _ => (own, false),
        },
{
    match reply {
        Some(Data::NatType(Some(kind))) => (kind, true),
        _ => (own, false),
    }
}

/// The options of the other process, and whether the own copy has to follow; without
/// an answer the own copy.
pub fn options_reply(reply: Option<Data>, own: Vec<(String, String)>) -> (r: (
    Vec<(String, String)>,
    bool,
))
    ensures
        r == match reply {
            Some(Data::Options(Some(options))) => (options, true),
            _ => (own, false),
        },
{
    if let Some(Data::Options(Some(options))) = reply {
        return (options, true);
    }
    (own, false)
}

/// The number of forwarded ports in an answer.
pub fn port_forward_count_reply(reply: Option<Data>) -> (r: Result<usize, &'static str>)
    ensures
        match reply {
            Some(Data::PortForwardSessionCount(Some(count))) => r == Ok::<usize, &'static str>(
                count,
            ),
            _ => r matches Err(e) && e@ == "Failed to get port forward session count"@,
        },
{
    if let Some(Data::PortForwardSessionCount(Some(count))) = reply {
        return Ok(count);
    }
    Err("Failed to get port forward session count")
}

/// The codec settings in an answer.
pub fn hwcodec_reply(reply: Option<Data>) -> (r: Result<String, &'static str>)
    ensures
        match reply {
            Some(Data::HwCodecConfig(Some(value))) => r == Ok::<String, &'static str>(value),
            Some(Data::HwCodecConfig(None)) => r matches Err(e) && e@ == "hwcodec config is none"@,
            _ => r matches Err(e) && e@ == "failed to get hwcodec config"@,
        },
{
    match reply {
        Some(Data::HwCodecConfig(Some(value))) => Ok(value),
        Some(Data::HwCodecConfig(None)) => Err("hwcodec config is none"),
        _ => Err("failed to get hwcodec config"),
    }
}

/// The seconds to wait before each attempt to get the codec settings.
pub fn hwcodec_intervals(wait_sec: u64) -> (r: Vec<u64>)
    ensures
        r@ == seq![wait_sec, 3, 3, 6, 9],
{
    let mut intervals: Vec<u64> = Vec::new();
    intervals.push(wait_sec);
    intervals.push(3);
    intervals.push(3);
    intervals.push(6);
    intervals.push(9);
    assert(intervals@ =~= seq![wait_sec, 3, 3, 6, 9]);
    intervals
}

/// Whether the server is asked for the codecs of the hardware, once.
pub fn asks_for_hwcodec(enabled: bool, already_set: bool) -> (r: bool)
    ensures
        r == (enabled && !already_set),
{
    enabled && !already_set
}

/// Whether a client asks for the codecs in the background.
pub fn client_get_hwcodec_config_thread(installed: bool, enabled: bool, already_set: bool) -> (r:
    bool)
    ensures
        r == (installed && enabled && !already_set),
{
    installed && asks_for_hwcodec(enabled, already_set)
}

/// How often the codecs are reported at most.
pub const HWCODEC_REPORTS: usize = 5;

/// What follows a report of the codecs.
#[derive(Clone, Copy, Debug, PartialEq, Eq, Structural)]
pub enum ReportStep {
    Done,
    /// Wait for a second and report once more.
    Again {
        attempt: usize,
    },
    /// Wait for a second and report no more.
    GiveUp,
}

/// What follows the report with a number, counted from one.
pub open spec fn report_step(attempt: usize, sent: bool) -> ReportStep {
    if sent {
        ReportStep::Done
    } else if attempt == HWCODEC_REPORTS {
        ReportStep::GiveUp
    } else {
        ReportStep::Again { attempt: (attempt + 1) as usize }
    }
}

/// What follows the report with a number, counted from one.
pub fn hwcodec_process(attempt: usize, sent: bool) -> (r: ReportStep)
    requires
        1 <= attempt <= HWCODEC_REPORTS,
    ensures
        r == report_step(attempt, sent),
        r == (if sent {
            ReportStep::Done
        } else if attempt < HWCODEC_REPORTS {
            ReportStep::Again { attempt: (attempt + 1) as usize }
        } else {
            ReportStep::GiveUp
        }),
{
    if sent {
        ReportStep::Done
    } else if attempt < HWCODEC_REPORTS {
        ReportStep::Again { attempt: attempt + 1 }
    } else {
        ReportStep::GiveUp
    }
}

/// The screen cast token in an answer.
pub fn restore_token_reply(reply: Option<Data>) -> (r: Option<String>)
    ensures
        r == match reply {
            Some(Data::WaylandScreencastRestoreToken((_, token))) => Some(token),
            _ => None,
        },
{
    if let Some(Data::WaylandScreencastRestoreToken((_, token))) = reply {
        return Some(token);
    }
    None
}

/// Whether the screen cast token was cleared: the answer holds an empty one.
pub fn clear_wayland_screencast_restore_token(reply: Option<Data>) -> (r: bool)
    ensures
        r == (reply matches Some(Data::WaylandScreencastRestoreToken((_, token))) && token@.len()
            == 0),
{
    match restore_token_reply(reply) {
        Some(token) => token.as_str().is_empty(),
        None => false,
    }
}

/// The first answer to the question for terminal sessions, zero without any.
pub fn get_terminal_session_count(replies: &Vec<Option<usize>>) -> (r: usize)
    ensures
        (forall|k: int| 0 <= k < replies@.len() ==> #[trigger] replies@[k] is None) ==> r == 0,
        (exists|k: int| 0 <= k < replies@.len() && #[trigger] replies@[k] is Some) ==> exists|i: int|
            0 <= i < replies@.len() && #[trigger] replies@[i] == Some(r) && forall|k: int|
                0 <= k < i ==> #[trigger] replies@[k] is None,
{
    let mut i: usize = 0;
    while i < replies.len()
        invariant
            i <= replies@.len(),
            forall|k: int| 0 <= k < i ==> #[trigger] replies@[k] is None,
        decreases replies.len() - i,
    {
        if let Some(count) = replies[i] {
            assert(replies@[i as int] == Some(count));
            return count;
        }
        i = i + 1;
    }
    0
}

/// Whether a peer of the service's channel is authorized, given the user whose
/// processes the service accepts.
pub fn service_authorization_status(peer_uid: Option<u32>, active_uid: Option<u32>) -> (r: bool)
    ensures
        r == (peer_uid matches Some(uid) && (uid == 0 || active_uid == Some(uid))),
        r == crate::ipc::service_uid::may_use_service(peer_uid, active_uid),
{
    match peer_uid {
        Some(uid) => is_allowed_service_peer_uid(uid, active_uid),
        None => false,
    }
}

/// What is sent of recorded audio: nothing of silence, else all of it.
pub fn audio_packet(recorded: &Vec<u8>) -> (r: Vec<u8>)
    ensures
        r@ == if forall|i: int| 0 <= i < recorded@.len() ==> recorded@[i] == 0 {
            Seq::empty()
        } else {
            recorded@
        },
{
    let mut i: usize = 0;
    while i < recorded.len()
        invariant
            i <= recorded@.len(),
            forall|k: int| 0 <= k < i ==> recorded@[k] == 0,
        decreases recorded.len() - i,
    {
        if recorded[i] != 0 {
            let copy: Vec<u8> = recorded.clone();
            assert(copy@ =~= recorded@);
            return copy;
        }
        i = i + 1;
    }
    Vec::new()
}

/// The file that holds the number of the process behind a socket.
pub fn get_pid_file(ipc_path: &str) -> (r: String)
    ensures
        r@ == ipc_path@ + ".pid"@,
{
    let mut path: String = ipc_path.to_owned();
    path.append(".pid");
    path
}

/// The process that a pid file names, if it names one.
pub fn recorded_pid(content: &str) -> (r: Option<u64>)
    ensures
        match crate::text::bounded_number(content@, u64::MAX as nat) {
            Some(n) => if n > 0 {
                r == Some(n as u64)
            } else {
                r is None
            },
            None => r is None,
        },
{
    match parse_number(content, u64::MAX) {
        Some(pid) => {
            if pid > 0 {
                Some(pid)
            } else {
                None
            }
        },
        None => None,
    }
}

/// Whether the socket of an earlier process is removed: unless that process is
/// there, is the same program and answers.
pub fn removes_stale_socket(
    recorded_name: Option<String>,
    own_name: Option<String>,
    answers: bool,
) -> (r: bool)
    ensures
        r == !(recorded_name is Some && own_name is Some && recorded_name->0@ == own_name->0@
            && answers),
{
    match (recorded_name, own_name) {
        (Some(a), Some(b)) => !(same_text(a.as_str(), b.as_str()) && answers),
        _ => true,
    }
}

/// An option that was set is read back, and one that was set to nothing is gone.
pub proof fn law_option_is_read_back(
    before: Map<Seq<char>, String>,
    after: Map<Seq<char>, String>,
    key: Seq<char>,
    value: Seq<char>,
    other: Seq<char>,
)
    requires
        value.len() == 0 ==> after == before.remove(key),
        value.len() > 0 ==> after.dom() == before.dom().insert(key) && after[key]@ == value
            && after.remove(key) == before.remove(key),
        other != key,
    ensures
        after.contains_key(key) <==> value.len() > 0,
        value.len() > 0 ==> after[key]@ == value,
        after.contains_key(other) == before.contains_key(other),
        after.contains_key(other) ==> after[other] == before[other],
{
    if value.len() > 0 {
        assert(after.dom().contains(key));
        if after.contains_key(other) {
            assert(after.remove(key)[other] == before.remove(key)[other]);
        }
    }
}

/// A list of servers that one process writes with commas between them is read back by
/// the other, server by server.
pub proof fn law_servers_are_read_back(servers: Seq<Seq<char>>)
    requires
        servers.len() > 0,
        forall|i: int| 0 <= i < servers.len() ==> !(#[trigger] servers[i]).contains(','),
    ensures
        crate::text::split_pieces(crate::ipc::handler::joined(servers, ","@), ',') == servers,
    decreases servers.len(),
{
    reveal_strlit(",");
    let last = servers.last();
    assert(!servers[servers.len() - 1].contains(','));
    crate::text::law_unsplit_text_is_one_piece(last, ',');
    if servers.len() == 1 {
        assert(servers =~= seq![last]);
    } else {
        let front = servers.drop_last();
        assert forall|i: int| 0 <= i < front.len() implies !(#[trigger] front[i]).contains(',') by {
            assert(front[i] == servers[i]);
        }
        law_servers_are_read_back(front);
        let text = crate::ipc::handler::joined(front, ","@);
        crate::text::law_pieces_add_up(text, ',', last);
        assert(text + ","@ + last =~= text.push(',') + last);
        assert(front + seq![last] =~= servers);
    }
}

/// A code may be taken away; any other has at least four characters, all of which count
/// alike, and no more than are allowed.
pub proof fn law_lengths_of_codes(pin: Seq<char>, c: char, max_len: nat)
    ensures
        pin_fits(Seq::empty(), max_len),
        0 < pin.len() < 4 ==> !pin_fits(pin, max_len),
        pin.len() > 0 && pin.len() > max_len ==> !pin_fits(pin, max_len),
        pin.len() == 4 && max_len >= 4 ==> pin_fits(pin, max_len),
        pin.len() >= 4 && pin_fits(pin, max_len) ==> (pin_fits(pin.push(c), max_len) <==> pin.len()
            < max_len),
{
}

/// A report that was sent is the last one; one that was not is tried again, five times in
/// all.
pub proof fn law_reports_are_tried_five_times(attempt: usize, sent: bool)
    requires
        1 <= attempt <= 5,
    ensures
        report_step(attempt, sent) == ReportStep::Done <==> sent,
        report_step(attempt, sent) == ReportStep::GiveUp <==> !sent && attempt == 5,
        report_step(attempt, sent) matches ReportStep::Again { attempt: next } ==> next == attempt
            + 1 && next <= 5,
{
}

} // verus!
