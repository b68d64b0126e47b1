//! Which user's processes the service talks to.
use crate::text::{chars_of, parse_number, starts_with, text_of, trim};
use vstd::prelude::*;

verus! {

/// How long a user id that was seen active is believed, in seconds.
pub const ACTIVE_UID_CACHE_TTL_SECS: u64 = 300;

/// The time between two warnings about an unknown active user, in seconds.
pub const ACTIVE_UID_WARN_INTERVAL_SECS: u64 = 60;

/// Whether a peer may use the service; one that is not known may not.
pub open spec fn may_use_service(peer_uid: Option<u32>, active_uid: Option<u32>) -> bool {
    peer_uid is Some && (peer_uid == Some(0u32) || peer_uid == active_uid)
}

/// Whether a peer may use the service: the superuser and the active user may.
pub fn is_allowed_service_peer_uid(peer_uid: u32, active_uid: Option<u32>) -> (r: bool)
    ensures
        r == (peer_uid == 0 || active_uid == Some(peer_uid)),
        r == may_use_service(Some(peer_uid), active_uid),
{
    if peer_uid == 0 {
        return true;
    }
    match active_uid {
        Some(uid) => uid == peer_uid,
        None => false,
    }
}

/// The active user: the reported one, else the owner of the console.
pub fn resolve_active_uid(reported_uid: Option<u32>, console_uid: Option<u32>) -> (r: Option<u32>)
    ensures
        r == if reported_uid is Some {
            reported_uid
        } else {
            console_uid
        },
{
    if reported_uid.is_some() {
        reported_uid
    } else {
        console_uid
    }
}

/// A list with a user at its end, unless it is the superuser or in the list.
pub open spec fn with_uid(list: Seq<u32>, uid: Option<u32>) -> Seq<u32> {
    match uid {
        Some(u) => if u != 0 && !list.contains(u) {
            list.push(u)
        } else {
            list
        },
        None => list,
    }
}

/// A list with each of some users added.
pub open spec fn with_uids(list: Seq<u32>, uids: Seq<u32>) -> Seq<u32>
    decreases uids.len(),
{
    if uids.len() == 0 {
        list
    } else {
        with_uid(with_uids(list, uids.drop_last()), Some(uids.last()))
    }
}

/// Adds a user to a list, unless it is the superuser or in the list.
pub fn push_candidate_uid(candidates: &mut Vec<u32>, uid: Option<u32>)
    ensures
        final(candidates)@ == with_uid(old(candidates)@, uid),
{
    if let Some(u) = uid {
        if u == 0 {
            return;
        }
        let mut i: usize = 0;
        while i < candidates.len()
            invariant
                candidates@ == old(candidates)@,
                uid == Some(u),
                i <= candidates.len(),
                forall|k: int| 0 <= k < i ==> candidates@[k] != u,
            decreases candidates.len() - i,
        {
            if candidates[i] == u {
                assert(candidates@.contains(u));
                return;
            }
            i = i + 1;
        }
        candidates.push(u);
    }
}

/// The users whose processes may know the terminal sessions: without superuser
/// rights only the own user, else the active, the expected and the discovered
/// ones, and the superuser last.
pub open spec fn count_candidates(
    effective_uid: u32,
    active_uid: Option<u32>,
    expected_uid: Option<u32>,
    discovered_uids: Seq<u32>,
) -> Seq<u32> {
    if effective_uid != 0 {
        seq![effective_uid]
    } else {
        with_uids(with_uid(with_uid(Seq::empty(), active_uid), expected_uid), discovered_uids).push(
            0,
        )
    }
}

/// The users whose processes are asked for their terminal sessions.
pub fn terminal_count_candidate_uids_policy(
    effective_uid: u32,
    active_uid: Option<u32>,
    expected_uid: Option<u32>,
    discovered_uids: &[u32],
) -> (r: Vec<u32>)
    ensures
        r@ == count_candidates(effective_uid, active_uid, expected_uid, discovered_uids@),
{
    let mut candidates: Vec<u32> = Vec::new();
    if effective_uid != 0 {
        candidates.push(effective_uid);
        assert(candidates@ =~= seq![effective_uid]);
        return candidates;
    }
    push_candidate_uid(&mut candidates, active_uid);
    push_candidate_uid(&mut candidates, expected_uid);
    let ghost known = candidates@;
    let mut i: usize = 0;
    assert(with_uids(known, discovered_uids@.take(0)) == known);
    while i < discovered_uids.len()
        invariant
            i <= discovered_uids.len(),
            candidates@ == with_uids(known, discovered_uids@.take(i as int)),
        decreases discovered_uids.len() - i,
    {
        assert(discovered_uids@.take(i + 1).drop_last() =~= discovered_uids@.take(i as int));
        push_candidate_uid(&mut candidates, Some(discovered_uids[i]));
        i = i + 1;
    }
    assert(discovered_uids@.take(i as int) =~= discovered_uids@);
    candidates.push(0);
    candidates
}

/// Whether sockets have to be searched for: only the superuser does, and only
/// where no user is known.
pub fn should_discover_terminal_socket_uids(
    effective_uid: u32,
    active_uid: Option<u32>,
    expected_uid: Option<u32>,
) -> (r: bool)
    ensures
        r == (effective_uid == 0 && active_uid is None && expected_uid is None),
{
    effective_uid == 0 && active_uid.is_none() && expected_uid.is_none()
}

/// The candidates to ask, where `discovered_uids` is what a search found; it is
/// left aside where no search is due.
pub fn terminal_count_candidate_uids(
    uids: &ServiceUids,
    effective_uid: u32,
    active_uid: Option<u32>,
    discovered_uids: &[u32],
) -> (r: Vec<u32>)
    ensures
        r@ == count_candidates(
            effective_uid,
            active_uid,
            uids.expected(),
            if effective_uid == 0 && active_uid is None && uids.expected() is None {
                discovered_uids@
            } else {
                Seq::empty()
            },
        ),
{
    let expected_uid = expected_service_peer_uid(uids);
    if should_discover_terminal_socket_uids(effective_uid, active_uid, expected_uid) {
        terminal_count_candidate_uids_policy(
            effective_uid,
            active_uid,
            expected_uid,
            discovered_uids,
        )
    } else {
        let none: Vec<u32> = Vec::new();
        let r = terminal_count_candidate_uids_policy(
            effective_uid,
            active_uid,
            expected_uid,
            none.as_slice(),
        );
        assert(none@ =~= Seq::<u32>::empty());
        r
    }
}

/// A directory entry, and whether a socket is in it.
#[derive(Debug)]
pub struct SocketDir {
    pub name: String,
    pub has_ipc: bool,
}

/// The user that a directory of sockets belongs to.
pub open spec fn socket_dir_uid(prefix: Seq<char>, dir: SocketDir) -> Option<u32> {
    if prefix.is_prefix_of(dir.name@) && dir.has_ipc {
        match crate::text::bounded_number(dir.name@.skip(prefix.len() as int), u32::MAX as nat) {
            Some(n) => Some(n as u32),
            None => None,
        }
    } else {
        None
    }
}

/// The users with a socket directory, each once.
pub open spec fn socket_uids(prefix: Seq<char>, dirs: Seq<SocketDir>) -> Seq<u32>
    decreases dirs.len(),
{
    if dirs.len() == 0 {
        Seq::empty()
    } else {
        with_uid(socket_uids(prefix, dirs.drop_last()), socket_dir_uid(prefix, dirs.last()))
    }
}

/// Finds the users whose processes listen, from the entries of the directory for
/// temporary files.
pub fn discover_terminal_socket_uids(app_name: &str, dirs: &Vec<SocketDir>) -> (r: Vec<u32>)
    ensures
        r@ == socket_uids(app_name@ + "-"@, dirs@),
{
    let mut prefix: String = app_name.to_owned();
    prefix.append("-");
    let prefix_chars = chars_of(prefix.as_str());
    let mut found: Vec<u32> = Vec::new();
    let mut i: usize = 0;
    while i < dirs.len()
        invariant
            prefix@ == app_name@ + "-"@,
            prefix_chars@ == prefix@,
            i <= dirs.len(),
            found@ == socket_uids(prefix@, dirs@.take(i as int)),
        decreases dirs.len() - i,
    {
        assert(dirs@.take(i + 1).drop_last() =~= dirs@.take(i as int));
        let dir = &dirs[i];
        if starts_with(dir.name.as_str(), prefix.as_str()) && dir.has_ipc {
            let chars = chars_of(dir.name.as_str());
            let number = text_of(&chars, prefix_chars.len(), chars.len());
            assert(number@ =~= dir.name@.skip(prefix@.len() as int));
            if let Some(n) = parse_number(number.as_str(), u32::MAX as u64) {
                push_candidate_uid(&mut found, Some(n as u32));
            }
        }
        i = i + 1;
    }
    assert(dirs@.take(i as int) =~= dirs@);
    found
}

/// What is known of the users of the service. Zero stands for nobody.
#[derive(Clone, Copy, Debug)]
pub struct ServiceUids {
    pub last_active_uid: u32,
    pub last_active_uid_at: u64,
    pub last_warn_at: u64,
    pub expected_peer_uid: u32,
}

impl Default for ServiceUids {
    fn default() -> (r: Self)
        ensures
            r == (ServiceUids {
                last_active_uid: 0,
                last_active_uid_at: 0,
                last_warn_at: 0,
                expected_peer_uid: 0,
            }),
    {
        ServiceUids {
            last_active_uid: 0,
            last_active_uid_at: 0,
            last_warn_at: 0,
            expected_peer_uid: 0,
        }
    }
}

impl ServiceUids {
    /// The user that the service is told to expect.
    pub open spec fn expected(self) -> Option<u32> {
        if self.expected_peer_uid == 0 {
            None
        } else {
            Some(self.expected_peer_uid)
        }
    }

    /// The user that was seen active, while that is recent.
    pub open spec fn cached(self, now: u64) -> Option<u32> {
        if self.last_active_uid != 0 && now - self.last_active_uid_at <= ACTIVE_UID_CACHE_TTL_SECS {
            Some(self.last_active_uid)
        } else {
            None
        }
    }

    /// The state after a user was seen active.
    pub open spec fn remembering(self, uid: u32, now: u64) -> ServiceUids {
        if uid == 0 {
            self
        } else {
            ServiceUids { last_active_uid: uid, last_active_uid_at: now, ..self }
        }
    }

    /// Whether an unknown active user is worth a warning again.
    pub open spec fn may_warn(self, now: u64) -> bool {
        now - self.last_warn_at >= ACTIVE_UID_WARN_INTERVAL_SECS
    }

    /// The state after the active user could not be told.
    pub open spec fn warned(self, now: u64) -> ServiceUids {
        if self.may_warn(now) {
            ServiceUids { last_warn_at: now, ..self }
        } else {
            self
        }
    }
}

/// Remembers that a user was seen active.
pub fn remember_active_uid(uids: &mut ServiceUids, uid: u32, now: u64)
    ensures
        *final(uids) == old(uids).remembering(uid, now),
{
    if uid == 0 {
        return;
    }
    uids.last_active_uid = uid;
    uids.last_active_uid_at = now;
}

/// The user that was seen active, while that is recent.
pub fn cached_active_uid(uids: &ServiceUids, now: u64) -> (r: Option<u32>)
    ensures
        r == uids.cached(now),
{
    if uids.last_active_uid == 0 {
        return None;
    }
    if now.saturating_sub(uids.last_active_uid_at) > ACTIVE_UID_CACHE_TTL_SECS {
        return None;
    }
    Some(uids.last_active_uid)
}

/// Sets the user that the service expects. Another user than before makes what
/// was seen obsolete.
pub fn set_expected_service_peer_uid(uids: &mut ServiceUids, uid: Option<u32>)
    ensures
        final(uids).expected_peer_uid == (match uid {
            Some(u) => u,
            None => 0,
        }),
        final(uids).last_warn_at == old(uids).last_warn_at,
        final(uids).expected_peer_uid == old(uids).expected_peer_uid ==> *final(uids) == *old(uids),
        final(uids).expected_peer_uid != old(uids).expected_peer_uid ==> final(uids).last_active_uid == 0 && final(uids).last_active_uid_at == 0,
{
    let normalized: u32 = match uid {
        Some(u) => u,
        None => 0,
    };
    let previous: u32 = uids.expected_peer_uid;
    uids.expected_peer_uid = normalized;
    if previous != normalized {
        uids.last_active_uid = 0;
        uids.last_active_uid_at = 0;
    }
}

/// The user that the service expects.
pub fn expected_service_peer_uid(uids: &ServiceUids) -> (r: Option<u32>)
    ensures
        r == uids.expected(),
{
    if uids.expected_peer_uid == 0 {
        None
    } else {
        Some(uids.expected_peer_uid)
    }
}

/// A message about an active user that could not be told.
#[derive(Debug)]
pub struct UidFailure {
    /// Whether it is a warning, or only worth noting.
    pub warn: bool,
    pub text: String,
}

/// What is said about a report of the active user that is no number.
pub open spec fn uid_failure_text(raw_uid: Seq<char>) -> Seq<char> {
    let t = crate::text::trimmed(raw_uid);
    if t.len() == 0 {
        "Failed to resolve active user uid on linux: active uid is empty"@
    } else {
        "Failed to parse active user uid on linux: '"@ + t + "'"@
    }
}

/// Words a failure to tell the active user, as a warning at most once in a while.
pub fn log_active_uid_resolution_failure(uids: &mut ServiceUids, raw_uid: &str, now: u64) -> (r:
    UidFailure)
    ensures
        r.warn == old(uids).may_warn(now),
        r.text@ == uid_failure_text(raw_uid@),
        *final(uids) == old(uids).warned(now),
{
    let warn = now.saturating_sub(uids.last_warn_at) >= ACTIVE_UID_WARN_INTERVAL_SECS;
    if warn {
        uids.last_warn_at = now;
    }
    let trimmed = trim(raw_uid);
    if trimmed.as_str().is_empty() {
        return UidFailure {
            warn,
            text: "Failed to resolve active user uid on linux: active uid is empty".to_owned(),
        };
    }
    let mut text: String = "Failed to parse active user uid on linux: '".to_owned();
    text.append(trimmed.as_str());
    text.append("'");
    UidFailure { warn, text }
}

/// The user that a report names.
pub open spec fn reported_uid(raw_uid: Seq<char>) -> Option<u32> {
    match crate::text::bounded_number(crate::text::trimmed(raw_uid), u32::MAX as nat) {
        Some(n) => Some(n as u32),
        None => None,
    }
}

fn parse_uid(raw_uid: &str) -> (r: Option<u32>)
    ensures
        r == reported_uid(raw_uid@),
{
    let trimmed = trim(raw_uid);
    match parse_number(trimmed.as_str(), u32::MAX as u64) {
        Some(n) => Some(n as u32),
        None => None,
    }
}

/// The active user as reported, without falling back on what was seen before.
pub fn active_uid_strict(uids: &mut ServiceUids, raw_uid: &str, now: u64) -> (r: (
    Option<u32>,
    Option<UidFailure>,
))
    ensures
        r.0 == reported_uid(raw_uid@),
        r.1 is Some <==> r.0 is None,
        r.1 matches Some(failure) ==> failure.warn == old(uids).may_warn(now) && failure.text@
            == uid_failure_text(raw_uid@),
        *final(uids) == (match reported_uid(raw_uid@) {
            Some(uid) => old(uids).remembering(uid, now),
            None => old(uids).warned(now),
        }),
{
    if let Some(uid) = parse_uid(raw_uid) {
        remember_active_uid(uids, uid, now);
        return (resolve_active_uid(Some(uid), None), None);
    }
    let failure = log_active_uid_resolution_failure(uids, raw_uid, now);
    (None, Some(failure))
}

/// The active user as reported, else the one that was seen recently.
pub fn active_uid(uids: &mut ServiceUids, raw_uid: &str, now: u64) -> (r: (
    Option<u32>,
    Option<UidFailure>,
))
    ensures
        r.0 == (match reported_uid(raw_uid@) {
            Some(uid) => Some(uid),
            None => old(uids).cached(now),
        }),
        r.1 is Some <==> r.0 is None,
        r.1 matches Some(failure) ==> failure.warn == old(uids).may_warn(now) && failure.text@
            == uid_failure_text(raw_uid@),
        *final(uids) == (match reported_uid(raw_uid@) {
            Some(uid) => old(uids).remembering(uid, now),
            None => if old(uids).cached(now) is Some {
                *old(uids)
            } else {
                old(uids).warned(now)
            },
        }),
{
    if let Some(uid) = parse_uid(raw_uid) {
        remember_active_uid(uids, uid, now);
        return (resolve_active_uid(Some(uid), None), None);
    }
    if let Some(uid) = cached_active_uid(uids, now) {
        return (Some(uid), None);
    }
    let failure = log_active_uid_resolution_failure(uids, raw_uid, now);
    (None, Some(failure))
}

/// The user that requests are held against: the one that is reported active, else the
/// one that the service expects, else the one that was seen active a short while ago.
pub open spec fn authorized_uid(uids: ServiceUids, raw_uid: Seq<char>, now: u64) -> Option<u32> {
    match (reported_uid(raw_uid), uids.expected(), uids.cached(now)) {
        (Some(uid), _, _) => Some(uid),
        (None, Some(uid), _) => Some(uid),
        (None, None, seen) => seen,
    }
}

/// The user whose processes the service accepts, and whether that is a fallback:
/// the reported active user, else the expected one, else the one that was seen
/// recently.
pub fn resolve_service_auth_active_uid(uids: &mut ServiceUids, raw_uid: &str, now: u64) -> (r: (
    Option<u32>,
    bool,
))
    ensures
        r.0 == authorized_uid(*old(uids), raw_uid@, now),
        r.1 == (reported_uid(raw_uid@) is None && r.0 is Some),
        match reported_uid(raw_uid@) {
            Some(uid) => r == (Some(uid), false) && *final(uids) == old(uids).remembering(uid, now),
            None => {
                let fallback = if old(uids).expected() is Some {
                    old(uids).expected()
                } else {
                    old(uids).cached(now)
                };
                &&& r == (fallback, fallback is Some)
                &&& *final(uids) == old(uids).warned(now)
            },
        },
{
    let (strict_uid, _) = active_uid_strict(uids, raw_uid, now);
    if strict_uid.is_some() {
        return (strict_uid, false);
    }
    let expected = expected_service_peer_uid(uids);
    let fallback_uid = if expected.is_some() {
        expected
    } else {
        cached_active_uid(uids, now)
    };
    (fallback_uid, fallback_uid.is_some())
}

proof fn lemma_with_uid(list: Seq<u32>, uid: Option<u32>)
    requires
        list.no_duplicates(),
        !list.contains(0),
    ensures
        with_uid(list, uid).no_duplicates(),
        !with_uid(list, uid).contains(0),
{
}

proof fn lemma_with_uids(list: Seq<u32>, uids: Seq<u32>)
    requires
        list.no_duplicates(),
        !list.contains(0),
    ensures
        with_uids(list, uids).no_duplicates(),
        !with_uids(list, uids).contains(0),
    decreases uids.len(),
{
    if uids.len() > 0 {
        lemma_with_uids(list, uids.drop_last());
        lemma_with_uid(with_uids(list, uids.drop_last()), Some(uids.last()));
    }
}

/// Nobody is asked twice; with superuser rights the superuser is asked last and
/// is always asked.
pub proof fn law_count_candidates_are_distinct(
    effective_uid: u32,
    active_uid: Option<u32>,
    expected_uid: Option<u32>,
    discovered_uids: Seq<u32>,
)
    ensures
        count_candidates(
            effective_uid,
            active_uid,
            expected_uid,
            discovered_uids,
        ).no_duplicates(),
        count_candidates(effective_uid, active_uid, expected_uid, discovered_uids).last()
            == effective_uid,
{
    if effective_uid == 0 {
        let none = Seq::<u32>::empty();
        lemma_with_uid(none, active_uid);
        lemma_with_uid(with_uid(none, active_uid), expected_uid);
        lemma_with_uids(with_uid(with_uid(none, active_uid), expected_uid), discovered_uids);
    }
}

/// After the expected user changes, nobody else is taken for the active one
/// without being reported.
pub proof fn law_new_expected_user_drops_the_cache(before: ServiceUids, after: ServiceUids, now: u64)
    requires
        after.expected_peer_uid != before.expected_peer_uid,
        after.last_active_uid == 0,
    ensures
        after.cached(now) is None,
{
}

proof fn lemma_with_uid_contains(list: Seq<u32>, uid: Option<u32>)
    ensures
        list.is_prefix_of(with_uid(list, uid)),
        uid is Some && uid->0 != 0 ==> with_uid(list, uid).contains(uid->0),
        forall|u: u32| list.contains(u) ==> #[trigger] with_uid(list, uid).contains(u),
{
    let longer = with_uid(list, uid);
    assert(longer.subrange(0, list.len() as int) =~= list);
    if uid is Some && uid->0 != 0 && !list.contains(uid->0) {
        assert(longer[list.len() as int] == uid->0);
    }
    assert forall|u: u32| list.contains(u) implies #[trigger] longer.contains(u) by {
        let k = choose|k: int| 0 <= k < list.len() && list[k] == u;
        assert(longer[k] == u);
    }
}

proof fn lemma_with_uids_contains(list: Seq<u32>, uids: Seq<u32>)
    ensures
        list.is_prefix_of(with_uids(list, uids)),
        forall|i: int|
            0 <= i < uids.len() && #[trigger] uids[i] != 0 ==> with_uids(list, uids).contains(
                uids[i],
            ),
        forall|u: u32| list.contains(u) ==> #[trigger] with_uids(list, uids).contains(u),
        forall|u: u32| #[trigger]
            with_uids(list, uids).contains(u) ==> list.contains(u) || uids.contains(u),
    decreases uids.len(),
{
    if uids.len() > 0 {
        let front = uids.drop_last();
        let before = with_uids(list, front);
        let all = with_uids(list, uids);
        lemma_with_uids_contains(list, front);
        lemma_with_uid_contains(before, Some(uids.last()));
        assert(all.subrange(0, list.len() as int) =~= before.subrange(0, list.len() as int));
        assert forall|i: int| 0 <= i < uids.len() && #[trigger] uids[i] != 0 implies all.contains(
            uids[i],
        ) by {
            if i < front.len() {
                assert(front[i] == uids[i]);
                assert(before.contains(uids[i]));
            }
        }
        assert forall|u: u32| list.contains(u) implies #[trigger] all.contains(u) by {
            assert(before.contains(u));
        }
        assert forall|u: u32| #[trigger] all.contains(u) implies list.contains(u) || uids.contains(
            u,
        ) by {
            let k = choose|k: int| 0 <= k < all.len() && all[k] == u;
            if k < before.len() {
                assert(before[k] == u);
                assert(before.contains(u));
                if front.contains(u) {
                    let j = choose|j: int| 0 <= j < front.len() && front[j] == u;
                    assert(uids[j] == u);
                }
            } else {
                assert(uids[uids.len() - 1] == u);
            }
        }
    } else {
        assert(list.subrange(0, list.len() as int) =~= list);
    }
}

/// Without superuser rights only the own user is asked. With them the active user is
/// asked first, the expected one next, and every one that was found is asked, but no
/// others and the superuser only at the end.
pub proof fn law_whom_the_service_asks(
    effective_uid: u32,
    active_uid: Option<u32>,
    expected_uid: Option<u32>,
    discovered_uids: Seq<u32>,
    i: int,
)
    ensures
        effective_uid != 0 ==> count_candidates(
            effective_uid,
            active_uid,
            expected_uid,
            discovered_uids,
        ) == seq![effective_uid],
        effective_uid == 0 ==> ({
            let list = count_candidates(0, active_uid, expected_uid, discovered_uids);
            &&& active_uid is Some && active_uid->0 != 0 ==> list[0] == active_uid->0
            &&& expected_uid is Some && expected_uid->0 != 0 ==> list.contains(expected_uid->0)
                && (list[0] == expected_uid->0 || list[1] == expected_uid->0)
            &&& 0 <= i < discovered_uids.len() && discovered_uids[i] != 0 ==> list.contains(
                discovered_uids[i],
            )
            &&& 0 <= i < list.len() - 1 ==> list[i] != 0 && (active_uid == Some(list[i])
                || expected_uid == Some(list[i]) || discovered_uids.contains(list[i]))
        }),
{
    if effective_uid == 0 {
        let none = Seq::<u32>::empty();
        let one = with_uid(none, active_uid);
        let two = with_uid(one, expected_uid);
        let three = with_uids(two, discovered_uids);
        let list = count_candidates(0, active_uid, expected_uid, discovered_uids);
        assert(list == three.push(0));
        lemma_with_uid_contains(none, active_uid);
        lemma_with_uid_contains(one, expected_uid);
        lemma_with_uids_contains(two, discovered_uids);
        lemma_with_uid(none, active_uid);
        lemma_with_uid(one, expected_uid);
        lemma_with_uids(two, discovered_uids);
        if two.len() > 0 {
            assert(three.subrange(0, two.len() as int)[0] == two[0]);
            assert(list[0] == two[0]);
        }
        if two.len() > 1 {
            assert(three.subrange(0, two.len() as int)[1] == two[1]);
            assert(list[1] == two[1]);
        }
        if expected_uid is Some && expected_uid->0 != 0 {
            assert(two.contains(expected_uid->0));
            assert(one.len() <= 1);
            assert(two[0] == expected_uid->0 || two[1] == expected_uid->0);
        }
        if 0 <= i < discovered_uids.len() && discovered_uids[i] != 0 {
            assert(three.contains(discovered_uids[i]));
            let k = choose|k: int| 0 <= k < three.len() && three[k] == discovered_uids[i];
            assert(list[k] == discovered_uids[i]);
        }
        if 0 <= i < list.len() - 1 {
            assert(list[i] == three[i]);
            assert(three.contains(three[i]));
            if two.contains(three[i]) {
                let k = choose|k: int| 0 <= k < two.len() && two[k] == three[i];
                assert(two[k] == three[i]);
            }
        }
    }
}

/// A directory belongs to the user whose number stands behind the prefix, if there is a
/// socket in it; one without a socket, or of another name, to nobody.
pub proof fn law_socket_directories_name_their_users(prefix: Seq<char>, dir: SocketDir, uid: u32)
    ensures
        dir.has_ipc && dir.name@ == prefix + crate::text::decimal(uid as nat) ==> socket_dir_uid(
            prefix,
            dir,
        ) == Some(uid),
        !dir.has_ipc ==> socket_dir_uid(prefix, dir) is None,
        !prefix.is_prefix_of(dir.name@) ==> socket_dir_uid(prefix, dir) is None,
        socket_dir_uid(prefix, dir) is Some ==> crate::text::number_value(
            dir.name@.skip(prefix.len() as int),
        ) == Some(socket_dir_uid(prefix, dir)->0 as nat),
{
    if dir.name@ == prefix + crate::text::decimal(uid as nat) {
        crate::text::law_decimal_round_trip(uid as nat);
        assert(dir.name@.subrange(0, prefix.len() as int) =~= prefix);
        assert(dir.name@.skip(prefix.len() as int) =~= crate::text::decimal(uid as nat));
    }
}

/// Every user but the superuser with a socket directory is found, each once.
pub proof fn law_users_with_sockets_are_found(prefix: Seq<char>, dirs: Seq<SocketDir>, i: int)
    ensures
        socket_uids(prefix, dirs).no_duplicates(),
        !socket_uids(prefix, dirs).contains(0),
        0 <= i < dirs.len() && socket_dir_uid(prefix, dirs[i]) is Some && socket_dir_uid(
            prefix,
            dirs[i],
        )->0 != 0 ==> socket_uids(prefix, dirs).contains(socket_dir_uid(prefix, dirs[i])->0),
    decreases dirs.len(),
{
    if dirs.len() > 0 {
        let front = dirs.drop_last();
        law_users_with_sockets_are_found(prefix, front, i);
        lemma_with_uid(socket_uids(prefix, front), socket_dir_uid(prefix, dirs.last()));
        lemma_with_uid_contains(socket_uids(prefix, front), socket_dir_uid(prefix, dirs.last()));
        if 0 <= i < front.len() {
            assert(front[i] == dirs[i]);
        }
    }
}

/// A user that was seen active is believed for five minutes and no longer; the
/// superuser is never remembered.
pub proof fn law_seen_users_are_believed_for_a_while(
    uids: ServiceUids,
    uid: u32,
    now: u64,
    later: u64,
)
    requires
        now <= later,
    ensures
        uid != 0 ==> (uids.remembering(uid, now).cached(later) == (if later - now <= 300 {
            Some(uid)
        } else {
            None
        })),
        uids.remembering(0, now) == uids,
        uids.remembering(uid, now).expected() == uids.expected(),
        uids.remembering(uid, now).last_warn_at == uids.last_warn_at,
        uids.expected_peer_uid != 0 ==> uids.expected() == Some(uids.expected_peer_uid),
        uids.expected_peer_uid == 0 ==> uids.expected() is None,
{
}

/// A warning is given at most once a minute, and changes nothing about who is known.
pub proof fn law_warnings_are_a_minute_apart(uids: ServiceUids, now: u64, later: u64)
    requires
        now <= later,
    ensures
        uids.may_warn(now) ==> (uids.warned(now).may_warn(later) <==> later - now >= 60),
        !uids.may_warn(now) ==> uids.warned(now) == uids,
        uids.may_warn(now) <==> now - uids.last_warn_at >= 60,
        uids.warned(now).cached(later) == uids.cached(later),
        uids.warned(now).expected() == uids.expected(),
{
}

/// A report names the user whose number it is, with or without white space around it;
/// a number that no user can have names nobody.
pub proof fn law_reports_name_users(raw_uid: Seq<char>, n: nat)
    requires
        crate::text::trimmed(raw_uid) == crate::text::decimal(n),
    ensures
        n <= u32::MAX ==> reported_uid(raw_uid) == Some(n as u32),
        n > u32::MAX ==> reported_uid(raw_uid) is None,
{
    crate::text::law_decimal_round_trip(n);
}

/// What is said of a report that names nobody: that it is empty, where there is nothing
/// but white space, and what it held else.
pub proof fn law_failures_quote_the_report(raw_uid: Seq<char>)
    ensures
        crate::text::trimmed(raw_uid).len() == 0 ==> uid_failure_text(raw_uid)
            == "Failed to resolve active user uid on linux: active uid is empty"@,
        crate::text::trimmed(raw_uid).len() > 0 ==> (crate::text::trimmed(raw_uid)
            + "'"@).is_suffix_of(uid_failure_text(raw_uid)),
{
    let t = crate::text::trimmed(raw_uid);
    let text = uid_failure_text(raw_uid);
    let quoted = t + "'"@;
    if t.len() > 0 {
        assert(text.subrange(text.len() - quoted.len(), text.len() as int) =~= quoted);
    }
}

/// A report decides over what was known before it, what the service expects over what was
/// seen; what was seen counts only for as long as it is recent, and nobody else counts.
pub proof fn law_who_requests_are_held_against(uids: ServiceUids, raw_uid: Seq<char>, now: u64)
    ensures
        reported_uid(raw_uid) is Some ==> authorized_uid(uids, raw_uid, now) == reported_uid(
            raw_uid,
        ),
        reported_uid(raw_uid) is None && uids.expected_peer_uid != 0 ==> authorized_uid(
            uids,
            raw_uid,
            now,
        ) == Some(uids.expected_peer_uid),
        reported_uid(raw_uid) is None && uids.expected_peer_uid == 0 ==> authorized_uid(
            uids,
            raw_uid,
            now,
        ) == uids.cached(now),
        authorized_uid(uids, raw_uid, now) is None <==> reported_uid(raw_uid) is None
            && uids.expected_peer_uid == 0 && (uids.last_active_uid == 0 || now
            > uids.last_active_uid_at + ACTIVE_UID_CACHE_TTL_SECS),
{
}

/// The superuser may always use the service, and besides it the active user alone; while
/// nobody is active, and of a peer that is not known, nobody else is let in.
pub proof fn law_who_may_use_the_service(peer: u32, active: u32, active_uid: Option<u32>)
    ensures
        may_use_service(Some(0), active_uid),
        may_use_service(Some(active), Some(active)),
        may_use_service(Some(peer), Some(active)) ==> peer == 0 || peer == active,
        may_use_service(Some(peer), None) <==> peer == 0,
        !may_use_service(None, active_uid),
{
}

} // verus!
