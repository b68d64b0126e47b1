//! Relay selection: which relay a controlled side may connect to for a peer, and
//! which messages of the rendezvous server it believes.
use crate::text::same_text;
use vstd::prelude::*;

verus! {

/// How long a relay that was offered to a peer stays selectable, in milliseconds.
pub const RELAY_SETUP_TIMEOUT_MS: u64 = 120_000;

/// An IP address; the number is the address in network order.
#[derive(Clone, Copy, Debug, PartialEq, Eq, Structural)]
pub enum IpAddr {
    V4(u32),
    V6(u128),
}

/// A socket address.
#[allow(inconsistent_fields)]
#[derive(Clone, Copy, Debug, PartialEq, Eq, Structural)]
pub enum SocketAddr {
    V4 { ip: u32, port: u16 },
    V6 { ip: u128, port: u16, flowinfo: u32, scope_id: u32 },
}

/// Where a datagram came from: an address, or a name that is not resolved yet.
#[derive(Debug)]
pub enum TargetAddr {
    Ip(SocketAddr),
    Domain(String, u16),
}

/// The IPv4 address that an IPv6 address carries as `::ffff:a.b.c.d`.
pub open spec fn mapped_v4(v6: u128) -> Option<u32> {
    if v6 as nat / 0x1_0000_0000 == 0xffff {
        Some((v6 as nat % 0x1_0000_0000) as u32)
    } else {
        None
    }
}

/// An address with IPv4-mapped IPv6 addresses written as IPv4.
pub open spec fn normalized_ip(ip: IpAddr) -> IpAddr {
    match ip {
        IpAddr::V6(v6) => match mapped_v4(v6) {
            Some(v4) => IpAddr::V4(v4),
            None => ip,
        },
        IpAddr::V4(_) => ip,
    }
}

fn normalize_ip(ip: IpAddr) -> (r: IpAddr)
    ensures
        r == normalized_ip(ip),
{
    match ip {
        IpAddr::V6(v6) => {
            if v6 / 0x1_0000_0000u128 == 0xffffu128 {
                IpAddr::V4((v6 % 0x1_0000_0000u128) as u32)
            } else {
                ip
            }
        },
        IpAddr::V4(_) => ip,
    }
}

impl SocketAddr {
    /// The address without the port.
    pub open spec fn spec_ip(self) -> IpAddr {
        match self {
            SocketAddr::V4 { ip, port } => IpAddr::V4(ip),
            SocketAddr::V6 { ip, port, flowinfo, scope_id } => IpAddr::V6(ip),
        }
    }

    /// The address without the port.
    pub fn ip(&self) -> (r: IpAddr)
        ensures
            r == self.spec_ip(),
    {
        match self {
            SocketAddr::V4 { ip, .. } => IpAddr::V4(*ip),
            SocketAddr::V6 { ip, .. } => IpAddr::V6(*ip),
        }
    }
}

/// One relay that was offered to a peer.
struct Selection {
    ip: IpAddr,
    relay: String,
    expires: u64,
}

impl Selection {
    spec fn key(self) -> (IpAddr, Seq<char>) {
        (self.ip, self.relay@)
    }
}

/// The relays that were selected for punch exchanges, each until it expires.
pub struct RelayRequests {
    selected: Vec<Selection>,
}

spec fn selections_map(s: Seq<Selection>) -> Map<(IpAddr, Seq<char>), u64>
    decreases s.len(),
{
    if s.len() == 0 {
        Map::empty()
    } else {
        selections_map(s.drop_last()).insert(s.last().key(), s.last().expires)
    }
}

spec fn distinct_keys(s: Seq<Selection>) -> bool {
    forall|i: int, j: int| 0 <= i < j < s.len() ==> (#[trigger] s[i]).key() != (#[trigger] s[j]).key()
}

/// The selections that have not expired.
pub open spec fn live_selections(
    m: Map<(IpAddr, Seq<char>), u64>,
    now: u64,
) -> Map<(IpAddr, Seq<char>), u64> {
    Map::new(|k: (IpAddr, Seq<char>)| m.contains_key(k) && now < m[k], |k: (IpAddr, Seq<char>)| m[k])
}

/// The selections after `relay` was offered to `peer`.
pub open spec fn remembered(
    m: Map<(IpAddr, Seq<char>), u64>,
    peer: SocketAddr,
    relay: Seq<char>,
    now: u64,
) -> Map<(IpAddr, Seq<char>), u64> {
    live_selections(m, now).insert(
        (normalized_ip(peer.spec_ip()), relay),
        (now + RELAY_SETUP_TIMEOUT_MS) as u64,
    )
}

/// `relay` was selected for `peer` and has not expired.
pub open spec fn selectable(
    m: Map<(IpAddr, Seq<char>), u64>,
    peer: SocketAddr,
    relay: Seq<char>,
    now: u64,
) -> bool {
    let key = (normalized_ip(peer.spec_ip()), relay);
    m.contains_key(key) && now < m[key]
}

proof fn lemma_map_entries(s: Seq<Selection>)
    requires
        distinct_keys(s),
    ensures
        forall|i: int|
            0 <= i < s.len() ==> selections_map(s).contains_key((#[trigger] s[i]).key())
                && selections_map(s)[s[i].key()] == s[i].expires,
        forall|k: (IpAddr, Seq<char>)| #[trigger]
            selections_map(s).contains_key(k) ==> exists|i: int|
                0 <= i < s.len() && (#[trigger] s[i]).key() == k,
    decreases s.len(),
{
    if s.len() > 0 {
        let t = s.drop_last();
        lemma_map_entries(t);
        assert forall|i: int| 0 <= i < s.len() implies selections_map(s).contains_key(
            (#[trigger] s[i]).key(),
        ) && selections_map(s)[s[i].key()] == s[i].expires by {
            if i < t.len() {
                assert(t[i] == s[i]);
            }
        }
        assert forall|k: (IpAddr, Seq<char>)| #[trigger]
            selections_map(s).contains_key(k) implies exists|i: int|
            0 <= i < s.len() && (#[trigger] s[i]).key() == k by {
            if k == s.last().key() {
                assert(s[s.len() - 1].key() == k);
            } else {
                assert(selections_map(t).contains_key(k));
                let i = choose|i: int| 0 <= i < t.len() && (#[trigger] t[i]).key() == k;
                assert(s[i] == t[i]);
            }
        }
    }
}

impl View for RelayRequests {
    type V = Map<(IpAddr, Seq<char>), u64>;

    closed spec fn view(&self) -> Map<(IpAddr, Seq<char>), u64> {
        selections_map(self.selected@)
    }
}

impl Default for RelayRequests {
    fn default() -> (r: Self)
        ensures
            r@ == Map::<(IpAddr, Seq<char>), u64>::empty(),
    {
        RelayRequests { selected: Vec::new() }
    }
}

impl RelayRequests {
    #[verifier::type_invariant]
    spec fn wf(self) -> bool {
        distinct_keys(self.selected@)
    }

    /// Drops what has expired and selects `relay` for `peer` from now on.
    pub fn remember(&mut self, peer: SocketAddr, relay: &str, now: u64)
        requires
            now + RELAY_SETUP_TIMEOUT_MS <= u64::MAX,
        ensures
            final(self)@ == remembered(old(self)@, peer, relay@, now),
            final(self)@.contains_key((normalized_ip(peer.spec_ip()), relay@)),
            final(self)@[(normalized_ip(peer.spec_ip()), relay@)] == now + 120_000,
            forall|k: (IpAddr, Seq<char>)|
                k != (normalized_ip(peer.spec_ip()), relay@) ==> (#[trigger] final(self)@.contains_key(
                    k,
                ) <==> old(self)@.contains_key(k) && now < old(self)@[k]),
            forall|k: (IpAddr, Seq<char>)|
                k != (normalized_ip(peer.spec_ip()), relay@) && #[trigger] final(self)@.contains_key(
                    k,
                ) ==> final(self)@[k] == old(self)@[k],
    {
        proof {
            use_type_invariant(&*self);
        }
        let ip = normalize_ip(peer.ip());
        let ghost key = (ip, relay@);
        let ghost entries = self.selected@;
        let mut kept: Vec<Selection> = Vec::new();
        let mut i: usize = 0;
        assert(selections_map(kept@) =~= live_selections(
            selections_map(entries.take(0)),
            now,
        ).remove(key));
        while i < self.selected.len()
            invariant
                self.selected@ == entries,
                distinct_keys(entries),
                key == (ip, relay@),
                i <= entries.len(),
                distinct_keys(kept@),
                forall|k: int| 0 <= k < kept.len() ==> (#[trigger] kept@[k]).key() != key,
                forall|k: int|
                    0 <= k < kept.len() ==> exists|j: int|
                        0 <= j < i && (#[trigger] entries[j]).key() == (#[trigger] kept@[k]).key(),
                selections_map(kept@) == live_selections(
                    selections_map(entries.take(i as int)),
                    now,
                ).remove(key),
            decreases entries.len() - i,
        {
            let ghost prefix = entries.take(i as int);
            proof {
                assert(entries.take(i + 1).drop_last() =~= prefix);
                lemma_map_entries(prefix);
                assert(!selections_map(prefix).contains_key(entries[i as int].key()));
            }
            let entry = &self.selected[i];
            let same = entry.ip == ip && same_text(entry.relay.as_str(), relay);
            if now < entry.expires && !same {
                let copy = Selection {
                    ip: entry.ip,
                    relay: entry.relay.clone(),
                    expires: entry.expires,
                };
                proof {
                    assert(copy == *entry);
                    assert(kept@.push(copy).drop_last() =~= kept@);
                    assert(entries[i as int].key() == copy.key());
                }
                kept.push(copy);
            }
            i = i + 1;
            assert(selections_map(kept@) =~= live_selections(
                selections_map(entries.take(i as int)),
                now,
            ).remove(key));
        }
        proof {
            assert(entries.take(i as int) =~= entries);
        }
        let added = Selection {
            ip,
            relay: relay.to_owned(),
            expires: now + RELAY_SETUP_TIMEOUT_MS,
        };
        assert(kept@.push(added).drop_last() =~= kept@);
        kept.push(added);
        assert(selections_map(kept@) =~= remembered(selections_map(entries), peer, relay@, now));
        self.selected = kept;
    }

    /// The relay to use when a peer asks for `relay`: that one if it was selected
    /// for the peer, else the only one that was.
    pub fn select(&self, peer: SocketAddr, relay: &str, now: u64) -> (r: Result<
        String,
        &'static str,
    >)
        ensures
            match r {
                Ok(chosen) => selectable(self@, peer, chosen@, now) && (chosen@ == relay@ || (
                !selectable(self@, peer, relay@, now) && forall|other: Seq<char>|
                    selectable(self@, peer, other, now) ==> other == chosen@)),
                Err(message) => !selectable(self@, peer, relay@, now) && ({
                    ||| message@ == "Relay address was not selected for this peer's punch exchange"@
                        && forall|other: Seq<char>| !selectable(self@, peer, other, now)
                    ||| message@ == "Relay request does not identify a unique selected relay"@
                        && exists|a: Seq<char>, b: Seq<char>|
                        a != b && selectable(self@, peer, a, now) && selectable(
                            self@,
                            peer,
                            b,
                            now,
                        )
                }),
            },
    {
        proof {
            use_type_invariant(self);
            lemma_map_entries(self.selected@);
        }
        let ip = normalize_ip(peer.ip());
        let mut first: Option<usize> = None;
        let mut second: Option<usize> = None;
        let mut i: usize = 0;
        while i < self.selected.len()
            invariant
                i <= self.selected.len(),
                ip == normalized_ip(peer.spec_ip()),
                distinct_keys(self.selected@),
                self@ == selections_map(self.selected@),
                forall|k: int|
                    0 <= k < self.selected.len() ==> self@.contains_key(
                        (#[trigger] self.selected@[k]).key(),
                    ) && self@[self.selected@[k].key()] == self.selected@[k].expires,
                first matches Some(a) ==> a < i && self.selected@[a as int].ip == ip && now
                    < self.selected@[a as int].expires,
                second matches Some(b) ==> first matches Some(a) && a < b < i
                    && self.selected@[b as int].ip == ip && now < self.selected@[b as int].expires,
                first is None ==> forall|k: int|
                    0 <= k < i ==> !((#[trigger] self.selected@[k]).ip == ip && now
                        < self.selected@[k].expires),
                first is Some && second is None ==> forall|k: int|
                    0 <= k < i && k != first->0 ==> !((#[trigger] self.selected@[k]).ip == ip && now
                        < self.selected@[k].expires),
                forall|k: int|
                    0 <= k < i && (#[trigger] self.selected@[k]).key() == (ip, relay@)
                        ==> self.selected@[k].expires <= now,
            decreases self.selected.len() - i,
        {
            let entry = &self.selected[i];
            if entry.ip == ip && now < entry.expires {
                if same_text(entry.relay.as_str(), relay) {
                    return Ok(relay.to_owned());
                }
                if first.is_none() {
                    first = Some(i);
                } else if second.is_none() {
                    second = Some(i);
                }
            }
            i = i + 1;
        }
        proof {
            if selectable(self@, peer, relay@, now) {
                let k = choose|k: int|
                    0 <= k < self.selected@.len() && (#[trigger] self.selected@[k]).key() == (
                        ip,
                        relay@,
                    );
                assert(self.selected@[k].expires <= now);
            }
        }
        match first {
            None => {
                proof {
                    assert forall|other: Seq<char>| !selectable(self@, peer, other, now) by {
                        if selectable(self@, peer, other, now) {
                            let k = choose|k: int|
                                0 <= k < self.selected@.len() && (
                                #[trigger] self.selected@[k]).key() == (ip, other);
                            assert(self.selected@[k].ip == ip);
                        }
                    }
                }
                Err("Relay address was not selected for this peer's punch exchange")
            },
            Some(a) => {
                if let Some(b) = second {
                    proof {
                        let x = self.selected@[a as int];
                        let y = self.selected@[b as int];
                        assert(x.key() != y.key());
                        assert(selectable(self@, peer, x.relay@, now));
                        assert(selectable(self@, peer, y.relay@, now));
                    }
                    return Err("Relay request does not identify a unique selected relay");
                }
                let chosen = self.selected[a].relay.clone();
                proof {
                    assert(self.selected@[a as int].key() == (ip, chosen@));
                    assert forall|other: Seq<char>|
                        selectable(self@, peer, other, now) implies other == chosen@ by {
                        let k = choose|k: int|
                            0 <= k < self.selected@.len() && (#[trigger] self.selected@[k]).key()
                                == (ip, other);
                        assert(self.selected@[k].ip == ip);
                    }
                }
                Ok(chosen)
            },
        }
    }
}

/// A relay that was offered to a peer can be selected for it until it expires,
/// whatever other addresses of the same peer it comes from.
pub proof fn law_remembered_is_selectable(
    m: Map<(IpAddr, Seq<char>), u64>,
    peer: SocketAddr,
    retry: SocketAddr,
    relay: Seq<char>,
    now: u64,
    later: u64,
)
    requires
        now + RELAY_SETUP_TIMEOUT_MS <= u64::MAX,
        normalized_ip(peer.spec_ip()) == normalized_ip(retry.spec_ip()),
    ensures
        selectable(remembered(m, peer, relay, now), retry, relay, later) <==> later < now
            + RELAY_SETUP_TIMEOUT_MS,
{
}

/// Offering a relay to one peer neither gives nor takes a live selection of
/// another address.
pub proof fn law_other_peers_keep_their_selections(
    m: Map<(IpAddr, Seq<char>), u64>,
    peer: SocketAddr,
    other: SocketAddr,
    relay: Seq<char>,
    wanted: Seq<char>,
    now: u64,
    later: u64,
)
    requires
        now <= later,
        now + RELAY_SETUP_TIMEOUT_MS <= u64::MAX,
        normalized_ip(peer.spec_ip()) != normalized_ip(other.spec_ip()),
    ensures
        selectable(remembered(m, peer, relay, now), other, wanted, later) == selectable(
            m,
            other,
            wanted,
            later,
        ),
{
}

/// Offering a relay to a peer leaves every other relay of that peer as selectable
/// as it was, at any time from the offer on.
pub proof fn law_offers_to_one_peer_add_up(
    m: Map<(IpAddr, Seq<char>), u64>,
    peer: SocketAddr,
    relay: Seq<char>,
    wanted: Seq<char>,
    now: u64,
    later: u64,
)
    requires
        relay != wanted,
        now <= later,
        now + RELAY_SETUP_TIMEOUT_MS <= u64::MAX,
    ensures
        selectable(remembered(m, peer, relay, now), peer, wanted, later) == selectable(
            m,
            peer,
            wanted,
            later,
        ),
{
}

/// Two relays that were offered to a peer can each be selected until two minutes
/// after their own offer, whichever came first.
pub proof fn law_each_offer_lasts_two_minutes(
    m: Map<(IpAddr, Seq<char>), u64>,
    peer: SocketAddr,
    first: Seq<char>,
    second: Seq<char>,
    now: u64,
    next: u64,
    later: u64,
)
    requires
        first != second,
        now <= next <= later,
        next + 120_000 <= u64::MAX,
    ensures
        ({
            let both = remembered(remembered(m, peer, first, now), peer, second, next);
            &&& selectable(both, peer, first, later) <==> later - now < 120_000
            &&& selectable(both, peer, second, later) <==> later - next < 120_000
        }),
{
}

/// Offering the same relay again only restarts its two minutes.
pub proof fn law_repeated_offer_restarts_the_time(
    m: Map<(IpAddr, Seq<char>), u64>,
    peer: SocketAddr,
    relay: Seq<char>,
    now: u64,
    next: u64,
)
    requires
        now <= next,
        next + 120_000 <= u64::MAX,
    ensures
        remembered(remembered(m, peer, relay, now), peer, relay, next) == remembered(
            m,
            peer,
            relay,
            next,
        ),
{
    assert(remembered(remembered(m, peer, relay, now), peer, relay, next) =~= remembered(
        m,
        peer,
        relay,
        next,
    ));
}

/// What is selectable for a peer hangs on its address alone, not on the port, and
/// is what was entered under that address for a time that is still to come.
pub proof fn law_selections_belong_to_addresses(
    m: Map<(IpAddr, Seq<char>), u64>,
    ip: u32,
    port: u16,
    other_port: u16,
    relay: Seq<char>,
    now: u64,
)
    ensures
        selectable(m, SocketAddr::V4 { ip, port }, relay, now) == selectable(
            m,
            SocketAddr::V4 { ip, port: other_port },
            relay,
            now,
        ),
        selectable(m, SocketAddr::V4 { ip, port }, relay, now) <==> (exists|until: u64|
            now < until && m.contains_pair((IpAddr::V4(ip), relay), until)),
{
    if selectable(m, SocketAddr::V4 { ip, port }, relay, now) {
        assert(m.contains_pair((IpAddr::V4(ip), relay), m[(IpAddr::V4(ip), relay)]));
    }
}

/// Two addresses are one peer only if they are equal or one is the IPv4-mapped
/// form of the other.
pub proof fn law_different_addresses_are_different_peers(a: IpAddr, b: IpAddr)
    ensures
        normalized_ip(a) == normalized_ip(b) <==> (a == b || match (a, b) {
            (IpAddr::V4(v4), IpAddr::V6(v6)) => v6 == 0xffff_0000_0000 + v4,
            (IpAddr::V6(v6), IpAddr::V4(v4)) => v6 == 0xffff_0000_0000 + v4,
            _ => false,
        }),
{
}

/// An IPv4 peer and its IPv4-mapped IPv6 form are one peer.
pub proof fn law_mapped_address_is_the_same_peer(v4: u32)
    ensures
        normalized_ip(IpAddr::V6((0xffff * 0x1_0000_0000 + v4) as u128)) == normalized_ip(
            IpAddr::V4(v4),
        ),
{
}

/// What `uuid::Uuid::parse_str` reads from a text, as a number in network order.
pub uninterp spec fn parsed_uuid(s: Seq<char>) -> Option<u128>;

/// The character at position `i` of the hyphenated form of a UUID.
pub open spec fn hyphenated_char(n: u128, i: int) -> char {
    if i == 8 || i == 13 || i == 18 || i == 23 {
        '-'
    } else {
        let hyphens: int = if i < 8 {
            0
        } else if i < 13 {
            1
        } else if i < 18 {
            2
        } else if i < 23 {
            3
        } else {
            4
        };
        crate::text::hex_digit(((n >> ((4 * (31 - (i - hyphens))) as u128)) & 0xf) as nat)
    }
}

/// The hyphenated lower-case form of a UUID.
pub open spec fn hyphenated(n: u128) -> Seq<char> {
    Seq::new(36, |i: int| hyphenated_char(n, i))
}

/// The version number of a UUID.
pub open spec fn uuid_version(n: u128) -> u128 {
    (n >> 76u128) & 0xf
}

/// The two leading variant bits of a UUID.
pub open spec fn uuid_variant_bits(n: u128) -> u128 {
    (n >> 62u128) & 0x3
}

/// `uuid::Uuid::parse_str` reads a UUID in one of its textual forms. Which texts
/// it reads is only named, but for the hyphenated form of a UUID, which it
/// reads back.
#[verifier::external_body]
fn parse_uuid(value: &str) -> (r: Option<u128>)
    ensures
        r == parsed_uuid(value@),
        forall|n: u128| value@ == #[trigger] hyphenated(n) ==> r == Some(n),
{
    match uuid::Uuid::parse_str(value) {
        Ok(uuid) => Some(uuid.as_u128()),
        Err(_) => None,
    }
}

/// `uuid::Uuid::get_version` gives `Random` for version number four.
#[verifier::external_body]
fn uuid_is_random(n: u128) -> (r: bool)
    ensures
        r == (uuid_version(n) == 4),
{
    matches!(uuid::Uuid::from_u128(n).get_version(), Some(uuid::Version::Random))
}

/// `uuid::Uuid::get_variant` gives `RFC4122` for the variant bits `10`.
#[verifier::external_body]
fn uuid_is_rfc4122(n: u128) -> (r: bool)
    ensures
        r == (uuid_variant_bits(n) == 2),
{
    matches!(uuid::Uuid::from_u128(n).get_variant(), uuid::Variant::RFC4122)
}

/// `uuid::Uuid::hyphenated` writes 32 lower-case hexadecimal digits in groups of
/// 8, 4, 4, 4 and 12 with hyphens between them.
#[verifier::external_body]
fn hyphenated_text(n: u128) -> (r: String)
    ensures
        r@ == hyphenated(n),
{
    uuid::Uuid::from_u128(n).hyphenated().to_string()
}

/// `value` is the canonical form of the random UUID `n`.
pub open spec fn is_relay_uuid(value: Seq<char>, n: u128) -> bool {
    value == hyphenated(n) && uuid_version(n) == 4 && uuid_variant_bits(n) == 2
}

/// Of the canonical forms of UUIDs, those of 36 characters with the digit 4 behind
/// the second hyphen and one of 8, 9, a and b behind the third are accepted, and no
/// others.
pub proof fn law_relay_uuids_are_random(value: Seq<char>, n: u128)
    requires
        value == hyphenated(n),
    ensures
        value.len() == 36,
        value[8] == '-' && value[13] == '-' && value[18] == '-' && value[23] == '-',
        is_relay_uuid(value, n) <==> value[14] == '4' && (value[19] == '8' || value[19] == '9'
            || value[19] == 'a' || value[19] == 'b'),
{
    assert(((n >> 62u128) & 0x3 == 2) == (8 <= ((n >> 60u128) & 0xf) && ((n >> 60u128) & 0xf)
        <= 11)) by (bit_vector);
    assert((n >> 76u128) & 0xf <= 15) by (bit_vector);
    assert((n >> 60u128) & 0xf <= 15) by (bit_vector);
    assert(value[14] == crate::text::hex_digit(((n >> 76u128) & 0xf) as nat));
    assert(value[19] == crate::text::hex_digit(((n >> 60u128) & 0xf) as nat));
}

/// Accepts the canonical hyphenated form of a random UUID and nothing else.
pub fn validate_uuid(value: &str) -> (r: Result<(), &'static str>)
    ensures
        r is Ok <==> exists|n: u128| #[trigger] is_relay_uuid(value@, n),
        r matches Err(message) ==> message@ == "Invalid relay UUID"@,
{
    match parse_uuid(value) {
        None => {
            Err("Invalid relay UUID")
        },
        Some(n) => {
            let canonical = hyphenated_text(n);
            if !uuid_is_random(n) || !uuid_is_rfc4122(n) || !same_text(canonical.as_str(), value) {
                proof {
                    assert forall|m: u128| !#[trigger] is_relay_uuid(value@, m) by {
                        if is_relay_uuid(value@, m) {
                            assert(value@ == hyphenated(m));
                        }
                    }
                }
                return Err("Invalid relay UUID");
            }
            assert(is_relay_uuid(value@, n));
            Ok(())
        },
    }
}

/// A socket address with the IPv6 forms that carry an IPv4 address written as
/// IPv4; the loopback address stays as it is.
pub open spec fn as_v4(addr: SocketAddr) -> SocketAddr {
    match addr {
        SocketAddr::V6 { ip, port, flowinfo, scope_id } => if ip != 1 && (ip as nat / 0x1_0000_0000
            == 0 || ip as nat / 0x1_0000_0000 == 0xffff) {
            SocketAddr::V4 { ip: (ip as nat % 0x1_0000_0000) as u32, port }
        } else {
            addr
        },
        SocketAddr::V4 { ip, port } => addr,
    }
}

/// Writes an IPv6 address that carries an IPv4 address as IPv4.
pub fn try_into_v4(addr: SocketAddr) -> (r: SocketAddr)
    ensures
        r == as_v4(addr),
{
    match addr {
        SocketAddr::V6 { ip, port, .. } => {
            let high: u128 = ip / 0x1_0000_0000u128;
            if ip != 1u128 && (high == 0u128 || high == 0xffffu128) {
                SocketAddr::V4 { ip: (ip % 0x1_0000_0000u128) as u32, port }
            } else {
                addr
            }
        },
        SocketAddr::V4 { .. } => addr,
    }
}

/// Writing an address as IPv4 keeps its port, leaves every IPv4 address and every
/// IPv6 address that carries none as it is, and gives the carried address of one
/// that does.
pub proof fn law_ports_and_plain_addresses_are_kept(
    ip: u32,
    v6: u128,
    port: u16,
    flowinfo: u32,
    scope_id: u32,
)
    ensures
        as_v4(SocketAddr::V4 { ip, port }) == (SocketAddr::V4 { ip, port }),
        as_v4(
            SocketAddr::V6 { ip: (0xffff_0000_0000 + ip) as u128, port, flowinfo, scope_id },
        ) == (SocketAddr::V4 { ip, port }),
        ip != 1 ==> as_v4(SocketAddr::V6 { ip: ip as u128, port, flowinfo, scope_id }) == (
        SocketAddr::V4 { ip, port }),
        v6 == 1 || 0xffff_ffff < v6 < 0xffff_0000_0000 || 0xffff_ffff_ffff < v6 ==> as_v4(
            SocketAddr::V6 { ip: v6, port, flowinfo, scope_id },
        ) == (SocketAddr::V6 { ip: v6, port, flowinfo, scope_id }),
{
}

/// Whether a datagram came from the configured rendezvous server.
pub fn is_rendezvous_source(source: &TargetAddr, expected: &TargetAddr) -> (r: bool)
    ensures
        r <==> (source matches TargetAddr::Ip(a) && expected matches TargetAddr::Ip(b) && as_v4(*a)
            == as_v4(*b)),
{
    match (source, expected) {
        (TargetAddr::Ip(a), TargetAddr::Ip(b)) => try_into_v4(*a) == try_into_v4(*b),
        _ => false,
    }
}

/// The hyphenated form of a UUID holds its 32 hexadecimal digits from the first to the
/// last, in groups of eight, thrice four, and twelve.
pub proof fn law_digits_of_a_uuid(n: u128, i: int)
    ensures
        0 <= i < 8 ==> hyphenated(n)[i] == crate::text::hex_digit(
            ((n >> ((4 * (31 - i)) as u128)) & 0xf) as nat,
        ),
        9 <= i < 13 ==> hyphenated(n)[i] == crate::text::hex_digit(
            ((n >> ((4 * (32 - i)) as u128)) & 0xf) as nat,
        ),
        14 <= i < 18 ==> hyphenated(n)[i] == crate::text::hex_digit(
            ((n >> ((4 * (33 - i)) as u128)) & 0xf) as nat,
        ),
        19 <= i < 23 ==> hyphenated(n)[i] == crate::text::hex_digit(
            ((n >> ((4 * (34 - i)) as u128)) & 0xf) as nat,
        ),
        24 <= i < 36 ==> hyphenated(n)[i] == crate::text::hex_digit(
            ((n >> ((4 * (35 - i)) as u128)) & 0xf) as nat,
        ),
        hyphenated(n).len() == 36,
{
}

} // verus!
