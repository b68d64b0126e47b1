//! Who is logged in, and what runs in their sessions.
use crate::file_path::same_path;
use crate::text::{contains_text, lines, parse_number, same_text, split_words, trim};
use vstd::prelude::*;

verus! {

/// The third word of the first line that has one.
pub open spec fn third_word(list: Seq<Seq<char>>) -> Seq<char>
    decreases list.len(),
{
    if list.len() == 0 {
        Seq::empty()
    } else if crate::text::words(list[0]).len() > 2 {
        crate::text::words(list[0])[2]
    } else {
        third_word(list.drop_first())
    }
}

/// The user who owns the console, as a listing of it tells; without a listing the
/// empty text.
pub fn get_active_user(listing: Option<String>) -> (r: String)
    ensures
        r@ == match listing {
            Some(text) => third_word(crate::text::line_texts(text@)),
            None => Seq::empty(),
        },
{
    let text = match listing {
        Some(text) => text,
        None => {
            return String::new();
        },
    };
    let list = lines(text.as_str());
    let ghost all = crate::text::line_texts(text@);
    let mut i: usize = 0;
    assert(all.skip(0) =~= all);
    while i < list.len()
        invariant
            all == crate::text::texts(list@),
            all == crate::text::line_texts(text@),
            listing == Some(text),
            i <= list.len(),
            third_word(all) == third_word(all.skip(i as int)),
        decreases list.len() - i,
    {
        assert(all.skip(i as int)[0] == list@[i as int]@);
        let parts = split_words(list[i].as_str());
        assert(crate::text::texts(parts@).len() == parts.len());
        if parts.len() > 2 {
            assert(crate::text::texts(parts@)[2] == parts@[2]@);
            return parts[2].clone();
        }
        assert(all.skip(i as int).drop_first() =~= all.skip(i + 1));
        i = i + 1;
    }
    assert(all.skip(all.len() as int) =~= Seq::<Seq<char>>::empty());
    String::new()
}

/// The user that a line of a listing of sessions names first.
pub fn session_user(line: &str) -> (r: Option<String>)
    ensures
        match r {
            Some(user) => crate::text::words(line@).len() > 0 && user@ == crate::text::words(
                line@,
            )[0],
            None => crate::text::words(line@).len() == 0,
        },
{
    let parts = split_words(line);
    assert(crate::text::texts(parts@).len() == parts.len());
    if parts.len() == 0 {
        return None;
    }
    assert(crate::text::texts(parts@)[0] == parts@[0]@);
    Some(parts[0].clone())
}

/// The number of a user, as a report of it tells with white space around it.
pub fn session_uid(report: &str) -> (r: Option<u32>)
    ensures
        match crate::text::bounded_number(crate::text::trimmed(report@), u32::MAX as nat) {
            Some(n) => r == Some(n as u32),
            None => r is None,
        },
{
    let text = trim(report);
    match parse_number(text.as_str(), u32::MAX as u64) {
        Some(n) => Some(n as u32),
        None => None,
    }
}

/// The number of the console's owner, where the whole text is a number.
pub fn console_uid(owner: &str) -> (r: Option<u32>)
    ensures
        match crate::text::bounded_number(owner@, u32::MAX as nat) {
            Some(n) => r == Some(n as u32),
            None => r is None,
        },
{
    match parse_number(owner, u32::MAX as u64) {
        Some(n) => Some(n as u32),
        None => None,
    }
}

/// The domain of a user's session.
pub fn gui_domain(uid: u32) -> (r: String)
    ensures
        r@ == "gui/"@ + crate::text::decimal(uid as nat),
{
    let mut domain: String = "gui/".to_owned();
    let number = crate::text::decimal_text(uid as u64);
    domain.append(number.as_str());
    domain
}

/// Numbers in rising order, each once.
pub open spec fn rising(list: Seq<u32>) -> bool {
    forall|i: int, j: int| 0 <= i < j < list.len() ==> list[i] < list[j]
}

fn add_uid(list: Vec<u32>, uid: u32) -> (r: Vec<u32>)
    requires
        rising(list@),
    ensures
        rising(r@),
        r@.to_set() == list@.to_set().insert(uid),
{
    let mut at: usize = 0;
    while at < list.len() && list[at] < uid
        invariant
            rising(list@),
            at <= list.len(),
            forall|k: int| 0 <= k < at ==> list@[k] < uid,
        decreases list.len() - at,
    {
        at = at + 1;
    }
    if at < list.len() && list[at] == uid {
        proof {
            assert(list@.contains(list@[at as int]));
            assert(list@.to_set() =~= list@.to_set().insert(uid));
        }
        return list;
    }
    let ghost before = list@;
    let mut out = list;
    out.insert(at, uid);
    proof {
        let set = before.to_set().insert(uid);
        assert forall|x: u32| out@.to_set().contains(x) == set.contains(x) by {
            if out@.contains(x) {
                let i = choose|i: int| 0 <= i < out@.len() && out@[i] == x;
                if i < at {
                    assert(before.contains(before[i]));
                } else if i > at {
                    assert(before.contains(before[i - 1]));
                }
            }
            if before.contains(x) {
                let i = choose|i: int| 0 <= i < before.len() && before[i] == x;
                if i < at {
                    assert(out@[i] == x);
                } else {
                    assert(out@[i + 1] == x);
                }
            }
            assert(out@[at as int] == uid);
        }
        assert(out@.to_set() =~= set);
    }
    out
}

/// The owner of the console, and whether there is a session of that user.
#[derive(Clone, Copy, Debug, PartialEq, Eq, Structural)]
pub struct ConsoleOwner {
    pub uid: u32,
    pub has_domain: bool,
}

/// The users with a session: those found, and the owner of the console where it
/// has a session or is the login window's. Where there is none, the login window.
pub open spec fn logged_in(found: Set<u32>, owner: Option<ConsoleOwner>) -> Set<u32> {
    let with_owner = match owner {
        Some(o) => if o.uid == 0 || o.has_domain {
            found.insert(o.uid)
        } else {
            found
        },
        None => found,
    };
    if with_owner == Set::<u32>::empty() {
        with_owner.insert(0)
    } else {
        with_owner
    }
}

/// The users with a session, in rising order. `found` holds those whose session
/// was found, in any order.
pub fn get_logged_in_uids(found: &Vec<u32>, owner: Option<ConsoleOwner>) -> (r: Vec<u32>)
    ensures
        rising(r@),
        r@.len() > 0,
        r@.to_set() == logged_in(found@.to_set(), owner),
{
    let mut uids: Vec<u32> = Vec::new();
    assert(found@.take(0).to_set() =~= Set::<u32>::empty());
    assert(uids@.to_set() =~= Set::<u32>::empty());
    let mut i: usize = 0;
    while i < found.len()
        invariant
            i <= found.len(),
            rising(uids@),
            uids@.to_set() == found@.take(i as int).to_set(),
        decreases found.len() - i,
    {
        proof {
            let part = found@.take(i as int);
            let next = found@.take(i + 1);
            assert(next =~= part.push(found@[i as int]));
            assert forall|x: u32| next.to_set().contains(x) == part.to_set().insert(
                found@[i as int],
            ).contains(x) by {
                if next.contains(x) {
                    let k = choose|k: int| 0 <= k < next.len() && next[k] == x;
                    if k < i {
                        assert(part[k] == x);
                    }
                }
                if part.contains(x) {
                    let k = choose|k: int| 0 <= k < part.len() && part[k] == x;
                    assert(next[k] == x);
                }
                assert(next[i as int] == found@[i as int]);
            }
            assert(next.to_set() =~= part.to_set().insert(found@[i as int]));
        }
        uids = add_uid(uids, found[i]);
        i = i + 1;
    }
    assert(found@.take(found@.len() as int) =~= found@);
    if let Some(o) = owner {
        if o.uid == 0 || o.has_domain {
            uids = add_uid(uids, o.uid);
        }
    }
    if uids.len() == 0 {
        assert(uids@.to_set() =~= Set::<u32>::empty());
        uids = add_uid(uids, 0);
        proof {
            assert(uids@.to_set().contains(0));
        }
        return uids;
    }
    proof {
        assert(uids@.to_set().contains(uids@[0]));
    }
    uids
}

/// The numbers of users with single spaces between them.
pub open spec fn spaced(list: Seq<u32>) -> Seq<char>
    decreases list.len(),
{
    if list.len() == 0 {
        Seq::empty()
    } else if list.len() == 1 {
        crate::text::decimal(list[0] as nat)
    } else {
        spaced(list.drop_last()) + " "@ + crate::text::decimal(list.last() as nat)
    }
}

/// Writes the numbers of users with single spaces between them.
pub fn uid_list(uids: &Vec<u32>) -> (r: String)
    ensures
        r@ == spaced(uids@),
{
    let mut out: String = String::new();
    let mut i: usize = 0;
    while i < uids.len()
        invariant
            i <= uids.len(),
            out@ == spaced(uids@.take(i as int)),
        decreases uids.len() - i,
    {
        let ghost next = uids@.take(i + 1);
        assert(next.drop_last() =~= uids@.take(i as int));
        let number = crate::text::decimal_text(uids[i] as u64);
        if i > 0 {
            out.append(" ");
            out.append(number.as_str());
        } else {
            out = number;
        }
        i = i + 1;
    }
    assert(uids@.take(uids@.len() as int) =~= uids@);
    out
}

/// The characters of a list of users are digits and spaces, so that it holds
/// nothing that a shell would take for more than words.
pub proof fn law_uid_list_is_plain(list: Seq<u32>)
    ensures
        forall|i: int|
            0 <= i < spaced(list).len() ==> #[trigger] spaced(list)[i] == ' ' || '0' <= spaced(
                list,
            )[i] <= '9',
    decreases list.len(),
{
    reveal_strlit(" ");
    if list.len() == 1 {
        lemma_decimal_is_plain(list[0] as nat);
    } else if list.len() > 1 {
        law_uid_list_is_plain(list.drop_last());
        lemma_decimal_is_plain(list.last() as nat);
        let front = spaced(list.drop_last());
        let number = crate::text::decimal(list.last() as nat);
        assert(spaced(list) == front + " "@ + number);
        assert forall|i: int| 0 <= i < spaced(list).len() implies #[trigger] spaced(list)[i] == ' '
            || '0' <= spaced(list)[i] <= '9' by {
            if i < front.len() {
                assert(spaced(list)[i] == front[i]);
            } else if i > front.len() {
                assert(spaced(list)[i] == number[i - front.len() - 1]);
            }
        }
    }
}

proof fn lemma_decimal_is_plain(n: nat)
    ensures
        forall|i: int|
            0 <= i < crate::text::decimal(n).len() ==> '0' <= #[trigger] crate::text::decimal(n)[i]
                <= '9',
    decreases n,
{
    let d = crate::text::decimal(n);
    if n < 10 {
        assert(d[0] == crate::text::digit(n));
    } else {
        lemma_decimal_is_plain(n / 10);
        let front = crate::text::decimal(n / 10);
        assert(d == front.push(crate::text::digit(n % 10)));
        assert forall|i: int| 0 <= i < d.len() implies '0' <= #[trigger] d[i] <= '9' by {
            if i < front.len() {
                assert(d[i] == front[i]);
            }
        }
    }
}

/// The home directory of the console's owner, where there is one.
pub fn get_active_user_home(username: &str) -> (r: Option<String>)
    ensures
        match r {
            Some(home) => username@.len() > 0 && home@ == "/Users/"@ + username@,
            None => username@.len() == 0,
        },
{
    if username.is_empty() {
        return None;
    }
    let mut home: String = "/Users/".to_owned();
    home.append(username);
    Some(home)
}

/// Whether nobody has logged in yet: root owns the console.
pub fn is_prelogin(active_userid: &str) -> (r: bool)
    ensures
        r == (active_userid@ == "0"@),
{
    same_text(active_userid, "0")
}

/// Whether the process runs as the administrator.
pub fn is_root(username: &str) -> (r: bool)
    ensures
        r == (username@ == "root"@),
{
    same_text(username, "root")
}

/// Whether the screen is locked, as the registry of devices tells; without a
/// report it is taken to be unlocked.
pub fn is_locked(report: Option<String>) -> (r: bool)
    ensures
        r == (report matches Some(text) && (crate::text::occurs_in(
            text@,
            "\"CGSSessionScreenIsLocked\"=Yes"@,
        ) || crate::text::occurs_in(text@, "\"CGSSessionScreenIsLocked\"=true"@))),
{
    match report {
        Some(text) => contains_text(text.as_str(), "\"CGSSessionScreenIsLocked\"=Yes")
            || contains_text(text.as_str(), "\"CGSSessionScreenIsLocked\"=true"),
        None => false,
    }
}

/// A running process.
#[derive(Debug)]
pub struct RunningProcess {
    pub pid: u32,
    pub cmd: Vec<String>,
    /// The program's file, links resolved, where that is known.
    pub exe: Option<String>,
    pub start_time: i64,
}

impl RunningProcess {
    /// The process is a server run from the program at a path.
    pub open spec fn serves(self, path: Seq<char>) -> bool {
        &&& self.cmd@.len() > 1
        &&& self.cmd@[1]@ == "--server"@
        &&& self.exe matches Some(exe) && crate::file_path::same_path_names(exe@, path)
    }
}

/// When a process was started, where it is a server run from the program at a
/// path.
pub fn get_server_start_time_of(p: &RunningProcess, path: &str) -> (r: Option<i64>)
    ensures
        r == if p.serves(path@) {
            Some(p.start_time)
        } else {
            None::<i64>
        },
{
    if p.cmd.len() <= 1 {
        return None;
    }
    if !same_text(p.cmd[1].as_str(), "--server") {
        return None;
    }
    match &p.exe {
        Some(exe) => {
            if same_path(exe.as_str(), path) {
                Some(p.start_time)
            } else {
                None
            }
        },
        None => None,
    }
}

/// The first server that runs from the program at a path: when it was started,
/// and its number.
pub fn get_server_start_time(processes: &Vec<RunningProcess>, path: &str) -> (r: Option<(i64, u32)>)
    ensures
        match r {
            Some((time, pid)) => exists|i: int|
                0 <= i < processes@.len() && (#[trigger] processes@[i]).serves(path@)
                    && processes@[i].start_time == time && processes@[i].pid == pid && (forall|
                    k: int,
                | 0 <= k < i ==> !(#[trigger] processes@[k]).serves(path@)),
            None => forall|k: int|
                0 <= k < processes@.len() ==> !(#[trigger] processes@[k]).serves(path@),
        },
{
    let mut i: usize = 0;
    while i < processes.len()
        invariant
            i <= processes.len(),
            forall|k: int| 0 <= k < i ==> !(#[trigger] processes@[k]).serves(path@),
        decreases processes.len() - i,
    {
        if let Some(time) = get_server_start_time_of(&processes[i], path) {
            assert(processes@[i as int].serves(path@));
            return Some((time, processes[i].pid));
        }
        i = i + 1;
    }
    None
}

/// The console belongs to who stands third in the first line with three words; lines
/// with fewer say nothing.
pub proof fn law_first_full_line_names_the_owner(list: Seq<Seq<char>>, k: int)
    requires
        forall|i: int| 0 <= i < k && i < list.len() ==> crate::text::words(#[trigger] list[i]).len()
            < 3,
        0 <= k <= list.len(),
        k < list.len() ==> crate::text::words(list[k]).len() >= 3,
    ensures
        k < list.len() ==> third_word(list) == crate::text::words(list[k])[2],
        k == list.len() ==> third_word(list).len() == 0,
    decreases list.len(),
{
    if k > 0 {
        assert(crate::text::words(list[0]).len() < 3);
        let rest = list.drop_first();
        assert forall|i: int| 0 <= i < k - 1 && i < rest.len() implies crate::text::words(
            #[trigger] rest[i],
        ).len() < 3 by {
            assert(rest[i] == list[i + 1]);
        }
        law_first_full_line_names_the_owner(rest, k - 1);
    }
}

/// Who is found has a session; the owner of the console has one too if it is the login
/// window's or there is a domain of it; the login window has one where nobody else has.
pub proof fn law_who_is_logged_in(found: Set<u32>, owner: Option<ConsoleOwner>, uid: u32)
    ensures
        found.contains(uid) ==> logged_in(found, owner).contains(uid),
        logged_in(found, owner).contains(uid) && uid != 0 ==> found.contains(uid) || (
        owner matches Some(o) && o.uid == uid && o.has_domain),
        owner matches Some(o) ==> (o.has_domain ==> logged_in(found, owner).contains(o.uid)),
        owner matches Some(o) ==> (o.uid == 0 ==> logged_in(found, owner).contains(0)),
        logged_in(found, owner).contains(0) && !found.contains(0) ==> (owner matches Some(o)
            && o.uid == 0) || found == Set::<u32>::empty(),
        found == Set::<u32>::empty() && owner is None ==> logged_in(found, owner).contains(0),
        logged_in(found, owner) != Set::<u32>::empty(),
{
    if owner is Some {
        assert(found.insert(owner->0.uid).contains(owner->0.uid));
    }
    assert(logged_in(found, owner).contains(0) || logged_in(found, owner) != Set::<u32>::empty());
}

/// The words of a list of users are their numbers, in the same order.
pub proof fn law_uid_list_is_read_back(list: Seq<u32>)
    ensures
        crate::text::words(spaced(list)) == list.map_values(
            |uid: u32| crate::text::decimal(uid as nat),
        ),
    decreases list.len(),
{
    let read = list.map_values(|uid: u32| crate::text::decimal(uid as nat));
    if list.len() == 0 {
        assert(spaced(list) =~= Seq::<char>::empty());
        assert(crate::text::words(spaced(list)) =~= read);
    } else {
        let number = crate::text::decimal(list.last() as nat);
        lemma_decimal_is_plain(list.last() as nat);
        crate::text::law_decimal_has_no_leading_zero(list.last() as nat);
        assert forall|i: int| 0 <= i < number.len() implies !crate::text::white_space(
            #[trigger] number[i],
        ) by {
            crate::text::law_ascii_white_space(number[i]);
        }
        crate::text::law_ascii_white_space(' ');
        let front = list.drop_last();
        law_uid_list_is_read_back(front);
        crate::text::law_words_are_parted_by_white_space(spaced(front), ' ', number);
        reveal_strlit(" ");
        if list.len() == 1 {
            assert(crate::text::words(spaced(list)) =~= read);
        } else {
            assert(spaced(list) =~= spaced(front).push(' ') + number);
            assert(crate::text::words(spaced(list)) =~= read);
        }
    }
}

/// A process counts as a server of a program by its second word and by the file that
/// it was started from, whatever else it was told.
pub proof fn law_what_makes_a_server(p: RunningProcess, q: RunningProcess, path: Seq<char>)
    requires
        p.cmd@.len() > 1 && q.cmd@.len() > 1,
        p.cmd@[1]@ == q.cmd@[1]@,
        p.exe is Some <==> q.exe is Some,
        p.exe is Some ==> p.exe->0@ == q.exe->0@,
    ensures
        p.serves(path) == q.serves(path),
        p.serves(path) ==> p.cmd@[1]@ == "--server"@ && p.exe is Some,
        p.cmd@[1]@ == "--server"@ && p.exe is Some && p.exe->0@ == path ==> p.serves(path),
{
}

} // verus!
