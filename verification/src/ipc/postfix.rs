//! Names of the service's sockets, and the order in which they are tried.
use crate::text::{chars_of, decimal_text, list_contains, same_text, starts_with, trim};
use vstd::prelude::*;

verus! {

/// The name of the service's socket where nothing else is configured.
pub const POSTFIX_SERVICE: &'static str = "_service";

/// The environment variable that names the service's socket.
pub const ENV_SERVICE_IPC_POSTFIX: &'static str = "RUSTDESK_SERVICE_IPC_POSTFIX";

/// A socket of the service: the default name, or that name, an underscore and
/// anything else.
pub open spec fn names_service(postfix: Seq<char>) -> bool {
    postfix == POSTFIX_SERVICE@ || "_service_"@.is_prefix_of(postfix)
}

/// Whether a socket belongs to the service.
pub fn is_service_ipc_postfix(postfix: &str) -> (r: bool)
    ensures
        r == names_service(postfix@),
{
    same_text(postfix, POSTFIX_SERVICE) || starts_with(postfix, "_service_")
}

/// An underscore, an ASCII letter or an ASCII digit.
pub open spec fn safe_char(c: char) -> bool {
    c == '_' || 'a' <= c <= 'z' || 'A' <= c <= 'Z' || '0' <= c <= '9'
}

/// A configured name, if it names a socket of the service and nothing else.
pub open spec fn normalized_postfix(postfix: Seq<char>) -> Option<Seq<char>> {
    let t = crate::text::trimmed(postfix);
    if names_service(t) && (forall|i: int| 0 <= i < t.len() ==> #[trigger] safe_char(t[i])) {
        Some(t)
    } else {
        None
    }
}

/// Trims a configured name and accepts it if it names a socket of the service
/// with safe characters only.
pub fn normalize_service_ipc_postfix(postfix: &str) -> (r: Option<String>)
    ensures
        crate::text::text_view(r) == normalized_postfix(postfix@),
{
    let normalized = trim(postfix);
    let chars = chars_of(normalized.as_str());
    let mut i: usize = 0;
    while i < chars.len()
        invariant
            chars@ == normalized@,
            normalized@ == crate::text::trimmed(postfix@),
            i <= chars.len(),
            forall|k: int| 0 <= k < i ==> #[trigger] safe_char(normalized@[k]),
        decreases chars.len() - i,
    {
        let c = chars[i];
        let safe = c == '_' || ('a' <= c && c <= 'z') || ('A' <= c && c <= 'Z') || ('0' <= c && c
            <= '9');
        if !safe {
            assert(!safe_char(normalized@[i as int]));
            return None;
        }
        i = i + 1;
    }
    if is_service_ipc_postfix(normalized.as_str()) {
        Some(normalized)
    } else {
        None
    }
}

/// A list with an entry at its end, unless it is in the list already.
pub open spec fn with_entry(list: Seq<Seq<char>>, entry: Seq<char>) -> Seq<Seq<char>> {
    if list.contains(entry) {
        list
    } else {
        list.push(entry)
    }
}

/// A list with a configured name at its end, if it is usable and new.
pub open spec fn with_configured(list: Seq<Seq<char>>, name: Option<Seq<char>>) -> Seq<Seq<char>> {
    match name {
        Some(n) => match normalized_postfix(n) {
            Some(p) => with_entry(list, p),
            None => list,
        },
        None => list,
    }
}

/// The names to try: that of the environment, that of the metadata file, and the
/// default one.
pub open spec fn candidates(
    env_postfix: Option<Seq<char>>,
    metadata_postfix: Option<Seq<char>>,
) -> Seq<Seq<char>> {
    with_entry(
        with_configured(with_configured(Seq::empty(), env_postfix), metadata_postfix),
        POSTFIX_SERVICE@,
    )
}

fn push_entry(list: &mut Vec<String>, entry: String)
    ensures
        crate::text::texts(final(list)@) == with_entry(crate::text::texts(old(list)@), entry@),
{
    if !list_contains(list, entry.as_str()) {
        proof {
            crate::text::lemma_texts_push(list@, entry);
        }
        list.push(entry);
    }
}

/// The names to try for the service's socket, without repetition.
pub fn build_service_ipc_postfix_candidates(
    env_postfix: Option<String>,
    metadata_postfix: Option<String>,
) -> (r: Vec<String>)
    ensures
        crate::text::texts(r@) == candidates(
            crate::text::text_view(env_postfix),
            crate::text::text_view(metadata_postfix),
        ),
{
    let mut list: Vec<String> = Vec::new();
    assert(crate::text::texts(list@) =~= Seq::<Seq<char>>::empty());
    if let Some(env) = env_postfix {
        if let Some(name) = normalize_service_ipc_postfix(env.as_str()) {
            push_entry(&mut list, name);
        }
    }
    if let Some(metadata) = metadata_postfix {
        if let Some(name) = normalize_service_ipc_postfix(metadata.as_str()) {
            push_entry(&mut list, name);
        }
    }
    push_entry(&mut list, POSTFIX_SERVICE.to_owned());
    list
}

/// The first entry of a list that is among the live ones, else the default.
pub open spec fn first_live(list: Seq<Seq<char>>, live: Seq<Seq<char>>) -> Seq<char>
    decreases list.len(),
{
    if list.len() == 0 {
        POSTFIX_SERVICE@
    } else if live.contains(list[0]) {
        list[0]
    } else {
        first_live(list.drop_first(), live)
    }
}

/// The name of the service's socket: the first candidate whose socket is there,
/// else the default. `live` lists the names whose sockets are there.
pub fn resolve_service_ipc_postfix(
    env_postfix: Option<String>,
    metadata_postfix: Option<String>,
    live: &Vec<String>,
) -> (r: String)
    ensures
        r@ == first_live(
            candidates(
                crate::text::text_view(env_postfix),
                crate::text::text_view(metadata_postfix),
            ),
            crate::text::texts(live@),
        ),
{
    let list = build_service_ipc_postfix_candidates(env_postfix, metadata_postfix);
    let ghost names = crate::text::texts(list@);
    let ghost alive = crate::text::texts(live@);
    let mut i: usize = 0;
    assert(names.skip(0) =~= names);
    while i < list.len()
        invariant
            i <= list.len(),
            names == crate::text::texts(list@),
            names == candidates(
                crate::text::text_view(env_postfix),
                crate::text::text_view(metadata_postfix),
            ),
            alive == crate::text::texts(live@),
            first_live(names, alive) == first_live(names.skip(i as int), alive),
        decreases list.len() - i,
    {
        assert(names.skip(i as int)[0] == list@[i as int]@);
        if list_contains(live, list[i].as_str()) {
            assert(alive.contains(names.skip(i as int)[0]));
            let name = list[i].clone();
            return name;
        }
        assert(names.skip(i as int).drop_first() =~= names.skip(i + 1));
        i = i + 1;
    }
    POSTFIX_SERVICE.to_owned()
}

/// A list with the entries whose sockets are there first, each part in order.
pub open spec fn ready_first(list: Seq<Seq<char>>, live: Seq<Seq<char>>) -> Seq<Seq<char>> {
    list.filter(|p: Seq<char>| live.contains(p)) + list.filter(|p: Seq<char>| !live.contains(p))
}

/// Orders the names so that those whose sockets are there come first.
pub fn ordered_service_ipc_postfix_candidates(list: &Vec<String>, live: &Vec<String>) -> (r: Vec<
    String,
>)
    ensures
        crate::text::texts(r@) == ready_first(
            crate::text::texts(list@),
            crate::text::texts(live@),
        ),
{
    let ghost names = crate::text::texts(list@);
    let ghost alive = crate::text::texts(live@);
    let ghost is_ready = |p: Seq<char>| alive.contains(p);
    let ghost is_stale = |p: Seq<char>| !alive.contains(p);
    let mut ready: Vec<String> = Vec::new();
    let mut stale: Vec<String> = Vec::new();
    let mut i: usize = 0;
    proof {
        reveal(Seq::filter);
        assert(crate::text::texts(ready@) =~= names.take(0).filter(is_ready));
        assert(crate::text::texts(stale@) =~= names.take(0).filter(is_stale));
    }
    while i < list.len()
        invariant
            i <= list.len(),
            names == crate::text::texts(list@),
            alive == crate::text::texts(live@),
            is_ready == (|p: Seq<char>| alive.contains(p)),
            is_stale == (|p: Seq<char>| !alive.contains(p)),
            crate::text::texts(ready@) == names.take(i as int).filter(is_ready),
            crate::text::texts(stale@) == names.take(i as int).filter(is_stale),
        decreases list.len() - i,
    {
        proof {
            reveal(Seq::filter);
            assert(names.take(i + 1).drop_last() =~= names.take(i as int));
            assert(names.take(i + 1).last() == list@[i as int]@);
            crate::text::lemma_texts_push(ready@, list@[i as int]);
            crate::text::lemma_texts_push(stale@, list@[i as int]);
        }
        if list_contains(live, list[i].as_str()) {
            ready.push(list[i].clone());
        } else {
            stale.push(list[i].clone());
        }
        i = i + 1;
    }
    assert(names.take(i as int) =~= names);
    let ghost first = ready@;
    let ghost last = stale@;
    ready.append(&mut stale);
    assert(crate::text::texts(ready@) =~= crate::text::texts(first) + crate::text::texts(last));
    ready
}

/// The time for one of the attempts that are left: an even share of the time
/// that is left, at least a millisecond of it.
pub open spec fn attempt_timeout(remaining_ms: nat, attempts_left: nat) -> nat {
    if remaining_ms == 0 {
        0
    } else if attempts_left <= 1 {
        remaining_ms
    } else if remaining_ms / attempts_left < 1 {
        1
    } else {
        remaining_ms / attempts_left
    }
}

/// The time for the next attempt, in milliseconds.
pub fn connect_service_attempt_timeout(remaining_ms: u64, attempts_left: usize) -> (r: u64)
    ensures
        r == attempt_timeout(remaining_ms as nat, attempts_left as nat),
{
    if remaining_ms == 0 {
        return 0;
    }
    if attempts_left <= 1 {
        return remaining_ms;
    }
    let share: u64 = remaining_ms / attempts_left as u64;
    if share < 1 {
        1
    } else {
        share
    }
}

/// Connecting to the service: one candidate after the other, within a time.
#[derive(Debug)]
pub struct ServiceConnect {
    pub candidates: Vec<String>,
    pub index: usize,
    pub timeout_ms: u64,
    pub last_error: Option<String>,
}

/// What to do to reach the service.
#[derive(Debug)]
pub enum ConnectStep {
    /// Try the socket of that name for that time.
    Attempt { postfix: String, timeout_ms: u64 },
    Fail { error: String },
}

impl ServiceConnect {
    /// The next attempt, given the time since the start; the caller returns the
    /// connection if it succeeds, and reports the error if not.
    pub fn next_attempt(&mut self, elapsed_ms: u64) -> (r: ConnectStep)
        requires
            old(self).index <= old(self).candidates.len(),
        ensures
            final(self).candidates == old(self).candidates,
            final(self).timeout_ms == old(self).timeout_ms,
            final(self).last_error == old(self).last_error,
            final(self).index <= final(self).candidates.len(),
            match r {
                ConnectStep::Attempt { postfix, timeout_ms } => {
                    &&& old(self).index < old(self).candidates.len()
                    &&& elapsed_ms < old(self).timeout_ms
                    &&& postfix@ == old(self).candidates@[old(self).index as int]@
                    &&& timeout_ms == attempt_timeout(
                        (old(self).timeout_ms - elapsed_ms) as nat,
                        (old(self).candidates.len() - old(self).index) as nat,
                    )
                    &&& final(self).index == old(self).index + 1
                },
                ConnectStep::Fail { error } => {
                    &&& old(self).index == old(self).candidates.len() || elapsed_ms >= old(self).timeout_ms
                    &&& final(self).index == old(self).index
                    &&& error@ == if old(self).candidates.len() == 0 {
                        "No service ipc postfix candidates available"@
                    } else {
                        match old(self).last_error {
                            Some(e) => e@,
                            None => "Timed out while connecting to service ipc candidates"@,
                        }
                    }
                },
            },
    {
        if self.candidates.len() == 0 {
            return ConnectStep::Fail {
                error: "No service ipc postfix candidates available".to_owned(),
            };
        }
        let remaining_ms: u64 = self.timeout_ms.saturating_sub(elapsed_ms);
        if self.index < self.candidates.len() && remaining_ms != 0 {
            let attempts_left: usize = self.candidates.len() - self.index;
            let timeout_ms: u64 = connect_service_attempt_timeout(remaining_ms, attempts_left);
            let postfix = self.candidates[self.index].clone();
            self.index = self.index + 1;
            return ConnectStep::Attempt { postfix, timeout_ms };
        }
        let error = match &self.last_error {
            Some(e) => e.clone(),
            None => "Timed out while connecting to service ipc candidates".to_owned(),
        };
        ConnectStep::Fail { error }
    }

    /// Keeps the error of an attempt.
    pub fn attempt_failed(&mut self, error: String)
        ensures
            *final(self) == (ServiceConnect { last_error: Some(error), ..*old(self) }),
    {
        self.last_error = Some(error);
    }
}

/// What the metadata file says about a socket name: the name and a line feed.
pub fn service_ipc_metadata(postfix: &str) -> (r: Result<String, String>)
    ensures
        match r {
            Ok(content) => normalized_postfix(postfix@) matches Some(p) && content@ == p.push('\n'),
            Err(e) => normalized_postfix(postfix@) is None && e@
                == "invalid service ipc postfix: "@ + postfix@,
        },
{
    match normalize_service_ipc_postfix(postfix) {
        Some(mut name) => {
            let ghost p = name@;
            name.append("\n");
            proof {
                reveal_strlit("\n");
                assert(p + "\n"@ =~= p.push('\n'));
            }
            Ok(name)
        },
        None => {
            let mut text: String = "invalid service ipc postfix: ".to_owned();
            text.append(postfix);
            Err(text)
        },
    }
}

/// Where a user's process listens.
pub fn linux_ipc_path_for_uid(app_name: &str, uid: u32, postfix: &str) -> (r: String)
    ensures
        r@ == "/tmp/"@ + app_name@ + "-"@ + crate::text::decimal(uid as nat) + "/ipc"@ + postfix@,
{
    let mut path: String = "/tmp/".to_owned();
    path.append(app_name);
    path.append("-");
    let number = decimal_text(uid as u64);
    path.append(number.as_str());
    path.append("/ipc");
    path.append(postfix);
    path
}

proof fn lemma_with_entry(list: Seq<Seq<char>>, entry: Seq<char>)
    requires
        list.no_duplicates(),
    ensures
        with_entry(list, entry).no_duplicates(),
        with_entry(list, entry).contains(entry),
        forall|x: Seq<char>|
            list.contains(x) ==> #[trigger] with_entry(list, entry).contains(x),
        forall|x: Seq<char>| #[trigger]
            with_entry(list, entry).contains(x) ==> list.contains(x) || x == entry,
{
    if !list.contains(entry) {
        let longer = list.push(entry);
        assert(longer[list.len() as int] == entry);
        assert forall|x: Seq<char>| list.contains(x) implies #[trigger] longer.contains(x) by {
            let k = choose|k: int| 0 <= k < list.len() && list[k] == x;
            assert(longer[k] == x);
        }
    }
}

/// The candidates hold no name twice, hold the default name, and hold only names
/// of the service.
pub proof fn law_candidates_are_distinct_service_names(
    env_postfix: Option<Seq<char>>,
    metadata_postfix: Option<Seq<char>>,
)
    ensures
        candidates(env_postfix, metadata_postfix).no_duplicates(),
        candidates(env_postfix, metadata_postfix).contains(POSTFIX_SERVICE@),
        forall|p: Seq<char>| #[trigger]
            candidates(env_postfix, metadata_postfix).contains(p) ==> names_service(p),
{
    let none = Seq::<Seq<char>>::empty();
    let one = with_configured(none, env_postfix);
    let two = with_configured(one, metadata_postfix);
    if let Some(e) = env_postfix {
        if let Some(p) = normalized_postfix(e) {
            lemma_with_entry(none, p);
        }
    }
    if let Some(m) = metadata_postfix {
        if let Some(p) = normalized_postfix(m) {
            lemma_with_entry(one, p);
        }
    }
    lemma_with_entry(two, POSTFIX_SERVICE@);
}

/// The name that is resolved is always one of the candidates.
pub proof fn law_resolved_name_is_a_candidate(
    env_postfix: Option<Seq<char>>,
    metadata_postfix: Option<Seq<char>>,
    live: Seq<Seq<char>>,
)
    ensures
        candidates(env_postfix, metadata_postfix).contains(
            first_live(candidates(env_postfix, metadata_postfix), live),
        ),
{
    law_candidates_are_distinct_service_names(env_postfix, metadata_postfix);
    lemma_first_live(candidates(env_postfix, metadata_postfix), live);
}

proof fn lemma_first_live(list: Seq<Seq<char>>, live: Seq<Seq<char>>)
    ensures
        first_live(list, live) == POSTFIX_SERVICE@ || list.contains(first_live(list, live)),
    decreases list.len(),
{
    if list.len() > 0 && !live.contains(list[0]) {
        let rest = list.drop_first();
        lemma_first_live(rest, live);
        if rest.contains(first_live(rest, live)) {
            let k = choose|k: int| 0 <= k < rest.len() && rest[k] == first_live(rest, live);
            assert(list[k + 1] == first_live(list, live));
        }
    }
}

/// An attempt never gets more time than is left, and gets some while any is left.
pub proof fn law_attempt_stays_within_the_time(remaining_ms: nat, attempts_left: nat)
    ensures
        attempt_timeout(remaining_ms, attempts_left) <= remaining_ms,
        remaining_ms > 0 ==> attempt_timeout(remaining_ms, attempts_left) > 0,
{
    if attempts_left > 1 {
        vstd::arithmetic::div_mod::lemma_div_is_ordered_by_denominator(
            remaining_ms as int,
            1,
            attempts_left as int,
        );
    }
}

/// Behind the default name of the service's socket stands nothing, or an underscore
/// and anything; no other name is the service's.
pub proof fn law_service_names(postfix: Seq<char>, rest: Seq<char>)
    ensures
        names_service("_service"@ + rest) <==> rest.len() == 0 || rest[0] == '_',
        names_service(postfix) ==> postfix.len() >= 8 && postfix.take(8) == "_service"@,
{
    reveal_strlit("_service");
    reveal_strlit("_service_");
    let name = "_service"@ + rest;
    if rest.len() == 0 {
        assert(name =~= "_service"@);
    } else {
        assert(name[8] == rest[0]);
        if rest[0] == '_' {
            assert(name.subrange(0, 9) =~= "_service_"@);
        }
        if "_service_"@.is_prefix_of(name) {
            assert(name.subrange(0, 9)[8] == '_');
        }
    }
    if names_service(postfix) {
        if "_service_"@.is_prefix_of(postfix) {
            assert(postfix.subrange(0, 9) =~= "_service_"@);
            assert(postfix.take(8) =~= postfix.subrange(0, 9).take(8));
        }
        assert(postfix.take(8) =~= "_service"@);
    }
}

/// A configured name is used as it is, without the white space around it, exactly where
/// it is the service's and made of ASCII letters, digits and underscores.
pub proof fn law_usable_names(postfix: Seq<char>)
    ensures
        normalized_postfix(postfix) is Some ==> normalized_postfix(postfix)
            == Some(crate::text::trimmed(postfix)),
        normalized_postfix(postfix) is Some <==> names_service(crate::text::trimmed(postfix)) && (
        forall|i: int|
            0 <= i < crate::text::trimmed(postfix).len() ==> ({
                let c = #[trigger] crate::text::trimmed(postfix)[i];
                'a' <= c <= 'z' || 'A' <= c <= 'Z' || '0' <= c <= '9' || c == '_'
            })),
{
    let t = crate::text::trimmed(postfix);
    if normalized_postfix(postfix) is Some {
        assert forall|i: int| 0 <= i < t.len() implies ({
            let c = #[trigger] t[i];
            'a' <= c <= 'z' || 'A' <= c <= 'Z' || '0' <= c <= '9' || c == '_'
        }) by {
            assert(safe_char(t[i]));
        }
    }
}

/// The name of the environment is tried first, that of the metadata file next, and the
/// default one last; a name that is not usable is left out, and none is tried twice.
pub proof fn law_order_of_candidates(
    env_postfix: Option<Seq<char>>,
    metadata_postfix: Option<Seq<char>>,
    first: Seq<char>,
    second: Seq<char>,
)
    requires
        env_postfix is Some ==> (normalized_postfix(env_postfix->0) matches Some(p) ==> p == first),
        metadata_postfix is Some ==> (normalized_postfix(metadata_postfix->0) matches Some(p) ==> p
            == second),
        first != second && first != "_service"@ && second != "_service"@,
    ensures
        ({
            let env = env_postfix is Some && normalized_postfix(env_postfix->0) is Some;
            let metadata = metadata_postfix is Some && normalized_postfix(metadata_postfix->0)
                is Some;
            let list = candidates(env_postfix, metadata_postfix);
            &&& env && metadata ==> list == seq![first, second, "_service"@]
            &&& env && !metadata ==> list == seq![first, "_service"@]
            &&& !env && metadata ==> list == seq![second, "_service"@]
            &&& !env && !metadata ==> list == seq!["_service"@]
        }),
{
    let none = Seq::<Seq<char>>::empty();
    let one = with_configured(none, env_postfix);
    let two = with_configured(one, metadata_postfix);
    assert(none.push(first) =~= seq![first]);
    assert(none.push(second) =~= seq![second]);
    assert(seq![first].push(second) =~= seq![first, second]);
    let list = candidates(env_postfix, metadata_postfix);
    assert(list == with_entry(two, "_service"@));
    assert(two.push("_service"@).len() == two.len() + 1);
    assert(!two.contains("_service"@)) by {
        assert(two =~= seq![first, second] || two =~= seq![first] || two =~= seq![second] || two
            =~= none);
    }
    assert(list =~= two.push("_service"@));
}

/// The resolved name is the first one whose socket is there; the default name stands in
/// only where none is.
pub proof fn law_first_live_name_wins(list: Seq<Seq<char>>, live: Seq<Seq<char>>)
    ensures
        (exists|i: int|
            0 <= i < list.len() && live.contains(#[trigger] list[i]) && list[i] == first_live(
                list,
                live,
            ) && (forall|j: int| 0 <= j < i ==> !live.contains(#[trigger] list[j]))) || (first_live(
            list,
            live,
        ) == "_service"@ && (forall|j: int|
            0 <= j < list.len() ==> !live.contains(#[trigger] list[j]))),
    decreases list.len(),
{
    if list.len() > 0 {
        if live.contains(list[0]) {
            assert(list[0] == first_live(list, live));
        } else {
            let rest = list.drop_first();
            law_first_live_name_wins(rest, live);
            if exists|i: int|
                0 <= i < rest.len() && live.contains(#[trigger] rest[i]) && rest[i] == first_live(
                    rest,
                    live,
                ) && (forall|j: int| 0 <= j < i ==> !live.contains(#[trigger] rest[j])) {
                let i = choose|i: int|
                    0 <= i < rest.len() && live.contains(#[trigger] rest[i]) && rest[i]
                        == first_live(rest, live) && (forall|j: int|
                        0 <= j < i ==> !live.contains(#[trigger] rest[j]));
                assert(list[i + 1] == rest[i]);
                assert forall|j: int| 0 <= j < i + 1 implies !live.contains(#[trigger] list[j]) by {
                    if j > 0 {
                        assert(rest[j - 1] == list[j]);
                    }
                }
            } else {
                assert forall|j: int| 0 <= j < list.len() implies !live.contains(
                    #[trigger] list[j],
                ) by {
                    if j > 0 {
                        assert(rest[j - 1] == list[j]);
                    }
                }
            }
        }
    }
}

/// Putting those whose sockets are there first takes no name away and adds none: one
/// more name that is there stands behind the others that are, and one that is not
/// stands at the end.
pub proof fn law_live_names_come_first(
    list: Seq<Seq<char>>,
    name: Seq<char>,
    live: Seq<Seq<char>>,
)
    ensures
        ready_first(Seq::empty(), live).len() == 0,
        ({
            let ready = list.filter(|p: Seq<char>| live.contains(p));
            let stale = list.filter(|p: Seq<char>| !live.contains(p));
            &&& ready_first(list, live) == ready + stale
            &&& live.contains(name) ==> ready_first(list.push(name), live) == ready.push(name)
                + stale
            &&& !live.contains(name) ==> ready_first(list.push(name), live) == ready_first(
                list,
                live,
            ).push(name)
        }),
        ready_first(list.push(name), live).len() == ready_first(list, live).len() + 1,
{
    reveal(Seq::filter);
    assert(list.push(name).drop_last() =~= list);
    let ready = list.filter(|p: Seq<char>| live.contains(p));
    let stale = list.filter(|p: Seq<char>| !live.contains(p));
    assert(ready + stale.push(name) =~= (ready + stale).push(name));
}

/// The time that is left is shared evenly: the last attempt gets all of it, and with
/// more to come each gets its part, but not less than a millisecond.
pub proof fn law_time_is_shared_evenly(remaining_ms: nat, attempts_left: nat)
    ensures
        attempts_left <= 1 ==> attempt_timeout(remaining_ms, attempts_left) == remaining_ms,
        attempts_left > 1 && remaining_ms >= attempts_left ==> attempts_left * attempt_timeout(
            remaining_ms,
            attempts_left,
        ) <= remaining_ms < attempts_left * (attempt_timeout(remaining_ms, attempts_left) + 1),
        attempts_left > 1 && 0 < remaining_ms < attempts_left ==> attempt_timeout(
            remaining_ms,
            attempts_left,
        ) == 1,
{
    if attempts_left > 1 {
        let q = remaining_ms / attempts_left;
        vstd::arithmetic::div_mod::lemma_fundamental_div_mod(
            remaining_ms as int,
            attempts_left as int,
        );
        assert(attempts_left * (q + 1) == attempts_left * q + attempts_left) by (nonlinear_arith);
        if remaining_ms >= attempts_left {
            assert(q >= 1) by (nonlinear_arith)
                requires
                    remaining_ms >= attempts_left,
                    remaining_ms == attempts_left * q + remaining_ms % attempts_left,
                    remaining_ms % attempts_left < attempts_left,
                    attempts_left > 1,
            ;
        } else {
            assert(q == 0) by (nonlinear_arith)
                requires
                    remaining_ms < attempts_left,
                    remaining_ms == attempts_left * q + remaining_ms % attempts_left,
                    remaining_ms % attempts_left >= 0,
                    attempts_left > 1,
                    q >= 0,
            ;
        }
    }
}

} // verus!
