//! Asking for a relay with a fresh authorization.
use crate::relay::validate_uuid;
use vstd::prelude::*;

verus! {

/// How often a relay is asked for.
pub const RELAY_ATTEMPTS: usize = 3;

/// Whom to reach, and through which rendezvous server.
#[derive(Debug)]
pub struct RelaySetup {
    pub peer: String,
    pub rendezvous_server: String,
    pub key: String,
    pub token: String,
    pub conn_type: i32,
    pub switch_code: String,
}

/// How addresses are translated on the way.
#[derive(Clone, Copy, Debug, PartialEq, Eq, Structural)]
pub enum NatType {
    Unknown,
    Asymmetric,
    Symmetric,
}

/// A request to be connected.
#[derive(Debug)]
pub struct PunchHoleRequest {
    pub id: String,
    pub token: String,
    pub licence_key: String,
    pub conn_type: i32,
    pub switch_code: String,
    pub version: String,
    pub force_relay: bool,
    pub nat_type: NatType,
}

/// Why a connection was refused.
#[derive(Clone, Copy, Debug, PartialEq, Eq, Structural)]
pub enum PunchFailure {
    IdNotExist,
    Offline,
    LicenseMismatch,
    LicenseOveruse,
    /// A reason that this version does not know.
    Unknown,
}

/// What the rendezvous server answers.
#[derive(Debug)]
pub enum RelayReply {
    RelayResponse { refuse_reason: String, relay_server: String, uuid: String },
    PunchHoleResponse {
        socket_addr: Vec<u8>,
        relay_server: String,
        pk: Vec<u8>,
        other_failure: String,
        failure: PunchFailure,
    },
    Other,
}

/// How to reach the peer.
#[derive(Debug)]
pub enum RelayStep {
    /// Meet the peer at a relay under an identifier.
    CreateRelay { uuid: String, relay_server: String, ipv4: bool },
    /// Ask the peer to come to a relay.
    RequestRelay { relay_server: String, secure: bool },
}

/// What comes after an attempt.
#[derive(Debug)]
pub enum RelayOutcome {
    Retry { attempt: usize },
    Step(RelayStep),
    Fail { error: String },
}

/// Whether the talk with the rendezvous server is encrypted: with a key, and
/// something to hide.
pub fn needs_secure_channel(setup: &RelaySetup) -> (r: bool)
    ensures
        r == (setup.key@.len() > 0 && (setup.token@.len() > 0 || setup.switch_code@.len() > 0)),
{
    !setup.key.as_str().is_empty() && (!setup.token.as_str().is_empty()
        || !setup.switch_code.as_str().is_empty())
}

/// The request for a relayed connection.
pub fn punch_request(setup: &RelaySetup, version: &str) -> (r: PunchHoleRequest)
    ensures
        r.id == setup.peer,
        r.token == setup.token,
        r.licence_key == setup.key,
        r.conn_type == setup.conn_type,
        r.switch_code == setup.switch_code,
        r.version@ == version@,
        r.force_relay,
        r.nat_type == NatType::Symmetric,
{
    PunchHoleRequest {
        id: setup.peer.clone(),
        token: setup.token.clone(),
        licence_key: setup.key.clone(),
        conn_type: setup.conn_type,
        switch_code: setup.switch_code.clone(),
        version: version.to_owned(),
        force_relay: true,
        nat_type: NatType::Symmetric,
    }
}

/// What is said about a refused connection.
pub open spec fn punch_error_text(other_failure: Seq<char>, failure: PunchFailure) -> Seq<char> {
    if other_failure.len() > 0 {
        other_failure
    } else {
        match failure {
            PunchFailure::IdNotExist => "ID does not exist"@,
            PunchFailure::Offline => "Remote desktop is offline"@,
            PunchFailure::LicenseMismatch => "Key mismatch"@,
            PunchFailure::LicenseOveruse => "Key overuse"@,
            PunchFailure::Unknown => "other punch hole failure"@,
        }
    }
}

/// Words a refused connection.
pub fn punch_error(other_failure: String, failure: PunchFailure) -> (r: String)
    ensures
        r@ == punch_error_text(other_failure@, failure),
{
    if !other_failure.as_str().is_empty() {
        return other_failure;
    }
    match failure {
        PunchFailure::IdNotExist => "ID does not exist".to_owned(),
        PunchFailure::Offline => "Remote desktop is offline".to_owned(),
        PunchFailure::LicenseMismatch => "Key mismatch".to_owned(),
        PunchFailure::LicenseOveruse => "Key overuse".to_owned(),
        PunchFailure::Unknown => "other punch hole failure".to_owned(),
    }
}

/// What a reply leads to.
pub open spec fn reply_leads_to(reply: RelayReply, ipv4: bool, r: Result<RelayStep, String>) -> bool {
    match reply {
        RelayReply::RelayResponse { refuse_reason, relay_server, uuid } => if refuse_reason@.len()
            > 0 {
            r == Err::<RelayStep, String>(refuse_reason)
        } else if relay_server@.len() == 0 {
            r matches Err(e) && e@ == "Missing relay address in forced relay response"@
        } else if exists|n: u128| #[trigger] crate::relay::is_relay_uuid(uuid@, n) {
            r == Ok::<RelayStep, String>(RelayStep::CreateRelay { uuid, relay_server, ipv4 })
        } else {
            r matches Err(e) && e@ == "Invalid relay UUID"@
        },
        RelayReply::PunchHoleResponse { socket_addr, relay_server, pk, other_failure, failure } =>
            if socket_addr@.len() == 0 {
            r matches Err(e) && e@ == punch_error_text(other_failure@, failure)
        } else if relay_server@.len() == 0 {
            r matches Err(e) && e@ == "Missing relay address in punch response"@
        } else {
            r == Ok::<RelayStep, String>(
                RelayStep::RequestRelay { relay_server, secure: pk@.len() > 0 },
            )
        },
        RelayReply::Other => r matches Err(e) && e@
            == "Unexpected message in forced relay response"@,
    }
}

/// Meets the peer at a relay, under an identifier that is checked before anything is
/// connected.
pub fn create_relay(uuid: String, relay_server: String, ipv4: bool) -> (r: Result<
    RelayStep,
    &'static str,
>)
    ensures
        r is Ok <==> exists|n: u128| #[trigger] crate::relay::is_relay_uuid(uuid@, n),
        r matches Ok(step) ==> step == (RelayStep::CreateRelay { uuid, relay_server, ipv4 }),
        r matches Err(e) ==> e@ == "Invalid relay UUID"@,
{
    match validate_uuid(uuid.as_str()) {
        Ok(()) => Ok(RelayStep::CreateRelay { uuid, relay_server, ipv4 }),
        Err(error) => Err(error),
    }
}

/// Reads how to go on from a reply.
pub fn finish_relay_request(reply: RelayReply, ipv4: bool) -> (r: Result<RelayStep, String>)
    ensures
        reply_leads_to(reply, ipv4, r),
{
    match reply {
        RelayReply::RelayResponse { refuse_reason, relay_server, uuid } => {
            if !refuse_reason.as_str().is_empty() {
                return Err(refuse_reason);
            }
            if relay_server.as_str().is_empty() {
                return Err("Missing relay address in forced relay response".to_owned());
            }
            match create_relay(uuid, relay_server, ipv4) {
                Ok(step) => Ok(step),
                Err(error) => Err(error.to_owned()),
            }
        },
        RelayReply::PunchHoleResponse { socket_addr, relay_server, pk, other_failure, failure } => {
            if socket_addr.len() == 0 {
                return Err(punch_error(other_failure, failure));
            }
            if relay_server.as_str().is_empty() {
                return Err("Missing relay address in punch response".to_owned());
            }
            Ok(RelayStep::RequestRelay { relay_server, secure: pk.len() > 0 })
        },
        RelayReply::Other => Err("Unexpected message in forced relay response".to_owned()),
    }
}

/// Whether a request is repeated behind an attempt, counted from one.
pub open spec fn asks_again(attempt: usize, replied: bool) -> bool {
    !replied && attempt < RELAY_ATTEMPTS
}

/// What comes after an attempt, counted from one: a reply decides, and without
/// one the request is repeated until all attempts are used.
pub fn request_relay_with_punch(attempt: usize, reply: Option<RelayReply>, ipv4: bool) -> (r:
    RelayOutcome)
    requires
        1 <= attempt <= RELAY_ATTEMPTS,
    ensures
        r is Retry <==> asks_again(attempt, reply is Some),
        match reply {
            Some(message) => match r {
                RelayOutcome::Step(step) => reply_leads_to(message, ipv4, Ok(step)),
                RelayOutcome::Fail { error } => reply_leads_to(message, ipv4, Err(error)),
                RelayOutcome::Retry { attempt } => false,
            },
            None => if attempt < RELAY_ATTEMPTS {
                r == (RelayOutcome::Retry { attempt: (attempt + 1) as usize })
            } else {
                r matches RelayOutcome::Fail { error } && error@ == "Timeout"@
            },
        },
{
    match reply {
        Some(message) => match finish_relay_request(message, ipv4) {
            Ok(step) => RelayOutcome::Step(step),
            Err(error) => RelayOutcome::Fail { error },
        },
        None => {
            if attempt < RELAY_ATTEMPTS {
                RelayOutcome::Retry { attempt: attempt + 1 }
            } else {
                RelayOutcome::Fail { error: "Timeout".to_owned() }
            }
        },
    }
}

/// No reply makes the peer be met under anything but the canonical form of a random
/// UUID, nor at a relay without an address.
pub proof fn law_relays_are_joined_under_valid_uuids(
    reply: RelayReply,
    ipv4: bool,
    uuid: String,
    relay_server: String,
    family: bool,
)
    requires
        reply_leads_to(
            reply,
            ipv4,
            Ok(RelayStep::CreateRelay { uuid, relay_server, ipv4: family }),
        ),
    ensures
        exists|n: u128| #[trigger] crate::relay::is_relay_uuid(uuid@, n),
        relay_server@.len() > 0,
        family == ipv4,
{
}

/// When a reply leads to the peer: it refuses nothing, names a relay, and gives a valid
/// identifier or an address of the peer.
pub proof fn law_when_a_reply_leads_on(reply: RelayReply, ipv4: bool, r: Result<RelayStep, String>)
    requires
        reply_leads_to(reply, ipv4, r),
    ensures
        r is Ok <==> match reply {
            RelayReply::RelayResponse { refuse_reason, relay_server, uuid } => refuse_reason@.len()
                == 0 && relay_server@.len() > 0 && exists|n: u128| #[trigger]
                crate::relay::is_relay_uuid(uuid@, n),
            RelayReply::PunchHoleResponse {
                socket_addr,
                relay_server,
                pk,
                other_failure,
                failure,
            } => socket_addr@.len() > 0 && relay_server@.len() > 0,
            RelayReply::Other => false,
        },
        reply matches RelayReply::RelayResponse { refuse_reason, relay_server, uuid } ==> (
        refuse_reason@.len() > 0 ==> r == Err::<RelayStep, String>(refuse_reason)),
        reply is PunchHoleResponse && r is Ok ==> (r->Ok_0 matches RelayStep::RequestRelay {
            relay_server,
            secure,
        } && relay_server == reply->PunchHoleResponse_relay_server && (secure <==> reply->pk@.len()
            > 0)),
        reply is RelayResponse && r is Ok ==> r->Ok_0 == (RelayStep::CreateRelay {
            uuid: reply->uuid,
            relay_server: reply->RelayResponse_relay_server,
            ipv4,
        }),
{
}

/// A reply leads to one thing only.
pub proof fn law_replies_are_unambiguous(
    reply: RelayReply,
    ipv4: bool,
    a: Result<RelayStep, String>,
    b: Result<RelayStep, String>,
)
    requires
        reply_leads_to(reply, ipv4, a),
        reply_leads_to(reply, ipv4, b),
    ensures
        a is Ok <==> b is Ok,
        a is Ok ==> a == b,
        a is Err ==> a->Err_0@ == b->Err_0@,
{
}

/// The words of the server come before the reason that it gives as a number.
pub proof fn law_refusals_in_words_come_first(words: Seq<char>, failure: PunchFailure)
    ensures
        words.len() > 0 ==> punch_error_text(words, failure) == words,
        words.len() == 0 ==> punch_error_text(words, PunchFailure::IdNotExist)
            == "ID does not exist"@ && punch_error_text(words, PunchFailure::Offline)
            == "Remote desktop is offline"@ && punch_error_text(
            words,
            PunchFailure::LicenseMismatch,
        ) == "Key mismatch"@ && punch_error_text(words, PunchFailure::LicenseOveruse)
            == "Key overuse"@ && punch_error_text(words, PunchFailure::Unknown)
            == "other punch hole failure"@,
{
}

/// A request is made three times at most, and never again once there was a reply.
pub proof fn law_requests_are_repeated_twice(attempt: usize)
    requires
        attempt >= 1,
    ensures
        !asks_again(attempt, true),
        asks_again(attempt, false) <==> attempt == 1 || attempt == 2,
{
}

} // verus!
