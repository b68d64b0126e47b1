//! Displays, their resolutions, and what can be seen on them.
use crate::text::{decimal_text, parse_number, same_text};
use vstd::prelude::*;

verus! {

/// How many resolutions are listed before the narrow ones are left out.
pub const MANY_RESOLUTIONS: usize = 15;

/// The least width that stays listed among many resolutions.
pub const LEAST_WIDTH: i32 = 800;

/// A size of a display.
#[derive(Clone, Copy, Debug, PartialEq, Eq, Structural)]
pub struct Resolution {
    pub width: i32,
    pub height: i32,
}

/// The first size comes before the second one in a list: it is wider, or as wide
/// and higher.
pub open spec fn before(a: Resolution, b: Resolution) -> bool {
    a.width > b.width || (a.width == b.width && a.height > b.height)
}

/// Sizes from the largest to the smallest, each once.
pub open spec fn falling(list: Seq<Resolution>) -> bool {
    forall|i: int, j: int| 0 <= i < j < list.len() ==> before(#[trigger] list[i], #[trigger] list[j])
}

/// The sizes that stay in a list.
pub open spec fn wide() -> spec_fn(Resolution) -> bool {
    |r: Resolution| r.width >= LEAST_WIDTH
}

fn comes_before(a: Resolution, b: Resolution) -> (r: bool)
    ensures
        r == before(a, b),
{
    a.width > b.width || (a.width == b.width && a.height > b.height)
}

fn add_resolution(list: Vec<Resolution>, size: Resolution) -> (r: Vec<Resolution>)
    requires
        falling(list@),
    ensures
        falling(r@),
        r@.to_set() == list@.to_set().insert(size),
        r@.len() <= list@.len() + 1,
{
    let mut at: usize = 0;
    while at < list.len() && comes_before(list[at], size)
        invariant
            falling(list@),
            at <= list.len(),
            forall|k: int| 0 <= k < at ==> before(#[trigger] list@[k], size),
        decreases list.len() - at,
    {
        at = at + 1;
    }
    if at < list.len() && list[at] == size {
        proof {
            assert(list@.contains(list@[at as int]));
            assert(list@.to_set() =~= list@.to_set().insert(size));
        }
        return list;
    }
    let ghost old_list = list@;
    let mut out = list;
    out.insert(at, size);
    proof {
        assert forall|i: int, j: int| 0 <= i < j < out@.len() implies before(
            #[trigger] out@[i],
            #[trigger] out@[j],
        ) by {
            if at < old_list.len() {
                assert(before(size, old_list[at as int]));
            }
            if i < at && j > at {
                assert(before(old_list[i], old_list[j - 1]));
            } else if i > at {
                assert(before(old_list[i - 1], old_list[j - 1]));
            } else if i == at && j - 1 > at {
                assert(before(old_list[at as int], old_list[j - 1]));
            } else if j < at {
                assert(before(old_list[i], old_list[j]));
            }
        }
        let set = old_list.to_set().insert(size);
        assert forall|x: Resolution| out@.to_set().contains(x) == set.contains(x) by {
            if out@.contains(x) {
                let i = choose|i: int| 0 <= i < out@.len() && out@[i] == x;
                if i < at {
                    assert(old_list.contains(old_list[i]));
                } else if i > at {
                    assert(old_list.contains(old_list[i - 1]));
                }
            }
            if old_list.contains(x) {
                let i = choose|i: int| 0 <= i < old_list.len() && old_list[i] == x;
                if i < at {
                    assert(out@[i] == x);
                } else {
                    assert(out@[i + 1] == x);
                }
            }
            assert(out@[at as int] == size);
        }
        assert(out@.to_set() =~= set);
    }
    out
}

/// A list of sizes is what the sizes of a display come to.
pub open spec fn listed(sizes: Seq<Resolution>, list: Seq<Resolution>) -> bool {
    exists|all: Seq<Resolution>|
        falling(all) && #[trigger] all.to_set() == sizes.to_set() && list == if all.len()
            > MANY_RESOLUTIONS {
            all.filter(wide())
        } else {
            all
        }
}

/// The sizes of a display, from the largest to the smallest and each once. Where
/// there are many, those that are narrow are left out.
pub fn resolutions(sizes: &Vec<Resolution>) -> (r: Vec<Resolution>)
    ensures
        listed(sizes@, r@),
{
    let mut all: Vec<Resolution> = Vec::new();
    assert(sizes@.take(0).to_set() =~= Set::<Resolution>::empty());
    assert(all@.to_set() =~= Set::<Resolution>::empty());
    let mut i: usize = 0;
    while i < sizes.len()
        invariant
            i <= sizes.len(),
            falling(all@),
            all@.to_set() == sizes@.take(i as int).to_set(),
        decreases sizes.len() - i,
    {
        proof {
            let part = sizes@.take(i as int);
            let next = sizes@.take(i + 1);
            assert forall|x: Resolution| next.to_set().contains(x) == part.to_set().insert(
                sizes@[i as int],
            ).contains(x) by {
                if next.contains(x) {
                    let k = choose|k: int| 0 <= k < next.len() && next[k] == x;
                    if k < i {
                        assert(part[k] == x);
                    }
                }
                if part.contains(x) {
                    let k = choose|k: int| 0 <= k < part.len() && part[k] == x;
                    assert(next[k] == x);
                }
                assert(next[i as int] == sizes@[i as int]);
            }
            assert(next.to_set() =~= part.to_set().insert(sizes@[i as int]));
        }
        all = add_resolution(all, sizes[i]);
        i = i + 1;
    }
    assert(sizes@.take(sizes@.len() as int) =~= sizes@);
    if all.len() <= MANY_RESOLUTIONS {
        return all;
    }
    let mut kept: Vec<Resolution> = Vec::new();
    let mut j: usize = 0;
    assert(all@.take(0).filter(wide()) =~= Seq::<Resolution>::empty()) by {
        reveal(Seq::filter);
    }
    while j < all.len()
        invariant
            j <= all.len(),
            kept@ == all@.take(j as int).filter(wide()),
        decreases all.len() - j,
    {
        proof {
            assert(all@.take(j + 1).drop_last() =~= all@.take(j as int));
            reveal(Seq::filter);
        }
        if all[j].width >= LEAST_WIDTH {
            kept.push(all[j]);
        }
        j = j + 1;
    }
    assert(all@.take(all@.len() as int) =~= all@);
    kept
}

/// There is only one way to list the sizes of a display.
pub proof fn law_one_list(sizes: Seq<Resolution>, a: Seq<Resolution>, b: Seq<Resolution>)
    requires
        listed(sizes, a),
        listed(sizes, b),
    ensures
        a == b,
{
    let all_a = choose|all: Seq<Resolution>|
        falling(all) && #[trigger] all.to_set() == sizes.to_set() && a == if all.len()
            > MANY_RESOLUTIONS {
            all.filter(wide())
        } else {
            all
        };
    let all_b = choose|all: Seq<Resolution>|
        falling(all) && #[trigger] all.to_set() == sizes.to_set() && b == if all.len()
            > MANY_RESOLUTIONS {
            all.filter(wide())
        } else {
            all
        };
    lemma_falling_is_unique(all_a, all_b);
}

proof fn lemma_falling_is_unique(a: Seq<Resolution>, b: Seq<Resolution>)
    requires
        falling(a),
        falling(b),
        a.to_set() == b.to_set(),
    ensures
        a == b,
    decreases a.len(),
{
    if a.len() == 0 {
        if b.len() > 0 {
            assert(b.to_set().contains(b[0]));
            assert(a.to_set().contains(b[0]));
        }
        assert(a =~= b);
    } else {
        assert(a.to_set().contains(a[0]));
        assert(b.contains(a[0]));
        assert(b.len() > 0);
        assert(b.to_set().contains(b[0]));
        assert(a.contains(b[0]));
        assert(a[0] == b[0]);
        let ra = a.drop_first();
        let rb = b.drop_first();
        assert forall|i: int, j: int| 0 <= i < j < ra.len() implies before(
            #[trigger] ra[i],
            #[trigger] ra[j],
        ) by {
            assert(before(a[i + 1], a[j + 1]));
        }
        assert forall|i: int, j: int| 0 <= i < j < rb.len() implies before(
            #[trigger] rb[i],
            #[trigger] rb[j],
        ) by {
            assert(before(b[i + 1], b[j + 1]));
        }
        assert forall|x: Resolution| ra.to_set().contains(x) == rb.to_set().contains(x) by {
            if ra.contains(x) {
                let i = choose|i: int| 0 <= i < ra.len() && ra[i] == x;
                assert(before(a[0], a[i + 1]));
                assert(a.to_set().contains(a[i + 1]));
                assert(b.contains(x));
                let k = choose|k: int| 0 <= k < b.len() && b[k] == x;
                assert(rb[k - 1] == x);
            }
            if rb.contains(x) {
                let i = choose|i: int| 0 <= i < rb.len() && rb[i] == x;
                assert(before(b[0], b[i + 1]));
                assert(b.to_set().contains(b[i + 1]));
                assert(a.contains(x));
                let k = choose|k: int| 0 <= k < a.len() && a[k] == x;
                assert(ra[k - 1] == x);
            }
        }
        assert(ra.to_set() =~= rb.to_set());
        lemma_falling_is_unique(ra, rb);
        assert(a =~= seq![a[0]] + ra);
        assert(b =~= seq![b[0]] + rb);
    }
}

/// The number of a display, where its name is one.
pub fn display_number(name: &str) -> (r: Option<u32>)
    ensures
        match crate::text::bounded_number(name@, u32::MAX as nat) {
            Some(n) => r == Some(n as u32),
            None => r is None,
        },
{
    match parse_number(name, u32::MAX as u64) {
        Some(n) => Some(n as u32),
        None => None,
    }
}

/// The place of the display of a number among displays that are named by theirs.
pub fn get_focused_display(names: &Vec<String>, focused: u32) -> (r: Option<usize>)
    ensures
        match r {
            Some(i) => i < names@.len() && names@[i as int]@ == crate::text::decimal(
                focused as nat,
            ) && (forall|k: int|
                0 <= k < i ==> (#[trigger] names@[k])@ != crate::text::decimal(focused as nat)),
            None => forall|k: int|
                0 <= k < names@.len() ==> (#[trigger] names@[k])@ != crate::text::decimal(
                    focused as nat,
                ),
        },
{
    let wanted = decimal_text(focused as u64);
    let mut i: usize = 0;
    while i < names.len()
        invariant
            wanted@ == crate::text::decimal(focused as nat),
            i <= names.len(),
            forall|k: int| 0 <= k < i ==> (#[trigger] names@[k])@ != wanted@,
        decreases names.len() - i,
    {
        if same_text(names[i].as_str(), wanted.as_str()) {
            return Some(i);
        }
        i = i + 1;
    }
    None
}

/// Whether the mouse moves the cursor: it does not while the cursor is held in a
/// rectangle, whichever it is.
pub fn clip_cursor(rect: Option<(i32, i32, i32, i32)>) -> (associate: bool)
    ensures
        associate == (rect is None),
{
    rect.is_none()
}

/// A window on the screen.
#[derive(Debug)]
pub struct ScreenWindow {
    /// Its title can be read.
    pub named: bool,
    /// The process that owns it.
    pub pid: i32,
    /// The file name of the owner's program, where the owner can be looked at.
    pub owner: Option<String>,
}

impl ScreenWindow {
    /// The title is one that can be read only with the right to record the screen:
    /// that of another program than this one and the Dock.
    pub open spec fn shows_permission(self, our_pid: i32) -> bool {
        &&& self.named
        &&& self.pid != our_pid
        &&& self.owner matches Some(name) && name@ != "Dock"@
    }
}

/// Whether the screen can be recorded, as the titles on it tell.
pub fn unsafe_is_can_screen_recording(windows: &Vec<ScreenWindow>, our_pid: i32) -> (r: bool)
    ensures
        r == exists|i: int|
            0 <= i < windows@.len() && (#[trigger] windows@[i]).shows_permission(our_pid),
{
    let mut i: usize = 0;
    while i < windows.len()
        invariant
            i <= windows.len(),
            forall|k: int| 0 <= k < i ==> !(#[trigger] windows@[k]).shows_permission(our_pid),
        decreases windows.len() - i,
    {
        let window = &windows[i];
        let foreign = match &window.owner {
            Some(name) => !same_text(name.as_str(), "Dock"),
            None => false,
        };
        if window.named && window.pid != our_pid && foreign {
            assert(windows@[i as int].shows_permission(our_pid));
            return true;
        }
        i = i + 1;
    }
    false
}

/// Whether the screen can be recorded, and whether a first recording is started so
/// that the user is asked for it.
#[derive(Clone, Copy, Debug, PartialEq, Eq, Structural)]
pub struct ScreenRecording {
    pub allowed: bool,
    pub start_capture: bool,
}

/// Whether the screen can be recorded: what a system with a way to ask says, else
/// what the windows show. Only such another system is given a first recording.
pub fn is_can_screen_recording(
    asked: Option<bool>,
    windows: &Vec<ScreenWindow>,
    our_pid: i32,
    prompt: bool,
) -> (r: ScreenRecording)
    ensures
        match asked {
            Some(answer) => r == (ScreenRecording { allowed: answer, start_capture: false }),
            None => {
                &&& r.allowed == exists|i: int|
                    0 <= i < windows@.len() && (#[trigger] windows@[i]).shows_permission(our_pid)
                &&& r.start_capture == (!r.allowed && prompt)
            },
        },
{
    match asked {
        Some(allowed) => ScreenRecording { allowed, start_capture: false },
        None => {
            let allowed = unsafe_is_can_screen_recording(windows, our_pid);
            ScreenRecording { allowed, start_capture: !allowed && prompt }
        },
    }
}

/// Why the resolution of a display is not known or not changed.
#[derive(Clone, Copy, Debug, PartialEq, Eq, Structural)]
pub enum ResolutionError {
    /// The name is no number of a display.
    NoNumber,
    /// The system refused.
    Refused,
}

impl ResolutionError {
    /// What is said where a resolution could not be read. A name that is no number
    /// is left to who reads the number.
    pub fn reading_text(self) -> (r: Option<&'static str>)
        ensures
            match r {
                Some(text) => self == ResolutionError::Refused && text@ == "MacGetMode failed"@,
                None => self == ResolutionError::NoNumber,
            },
    {
        match self {
            ResolutionError::NoNumber => None,
            ResolutionError::Refused => Some("MacGetMode failed"),
        }
    }

    /// What is said where a resolution could not be changed. A name that is no number
    /// is left to who reads the number.
    pub fn changing_text(self) -> (r: Option<&'static str>)
        ensures
            match r {
                Some(text) => self == ResolutionError::Refused && text@ == "MacSetMode failed"@,
                None => self == ResolutionError::NoNumber,
            },
    {
        match self {
            ResolutionError::NoNumber => None,
            ResolutionError::Refused => Some("MacSetMode failed"),
        }
    }
}

/// The resolution of a display, by what the system tells of it.
pub fn current_resolution(name: &str, mode: Option<Resolution>) -> (r: Result<
    Resolution,
    ResolutionError,
>)
    ensures
        r == (if crate::text::bounded_number(name@, u32::MAX as nat) is None {
            Err(ResolutionError::NoNumber)
        } else {
            match mode {
                Some(size) => Ok(size),
                None => Err(ResolutionError::Refused),
            }
        }),
{
    if display_number(name).is_none() {
        return Err(ResolutionError::NoNumber);
    }
    match mode {
        Some(size) => Ok(size),
        None => Err(ResolutionError::Refused),
    }
}

/// Whether the resolution of a display was changed.
pub fn change_resolution_directly(name: &str, changed: bool) -> (r: Result<(), ResolutionError>)
    ensures
        r == (if crate::text::bounded_number(name@, u32::MAX as nat) is None {
            Err(ResolutionError::NoNumber)
        } else if changed {
            Ok(())
        } else {
            Err(ResolutionError::Refused)
        }),
{
    if display_number(name).is_none() {
        return Err(ResolutionError::NoNumber);
    }
    if changed {
        Ok(())
    } else {
        Err(ResolutionError::Refused)
    }
}

/// The longest time between the clicks of a double click, in milliseconds.
pub fn get_double_click_time() -> (r: u32)
    ensures
        r == 500,
{
    500
}

/// Blocking the input of the user at the screen always succeeds: nothing is done.
pub fn block_input(_block: bool) -> (r: (bool, String))
    ensures
        r.0 && r.1@ == ""@,
{
    (true, "".to_owned())
}

/// The cursor that was looked at last, by the number that changes with it.
#[derive(Clone, Copy, Debug, PartialEq, Eq, Structural)]
pub struct CursorSeed {
    pub latest: i32,
}

impl CursorSeed {
    /// Whether the cursor has changed since it was looked at last, which it counts
    /// as from now on.
    pub fn changed(&mut self, seed: i32) -> (r: bool)
        ensures
            r == (old(self).latest != seed),
            final(self).latest == seed,
    {
        if seed == self.latest {
            return false;
        }
        self.latest = seed;
        true
    }

    /// Forgets the cursor, so that the next one counts as changed.
    pub fn reset_input_cache(&mut self)
        ensures
            final(self).latest == 0,
    {
        self.latest = 0;
    }
}

/// The sizes of a display are listed from the widest to the narrowest, the higher of
/// two equally wide ones first. Each that the display has is listed, but for those
/// narrower than 800 where there are more than 15 different ones.
pub proof fn law_listed_sizes(sizes: Seq<Resolution>, list: Seq<Resolution>, size: Resolution)
    requires
        listed(sizes, list),
    ensures
        list.contains(size) <==> sizes.contains(size) && (sizes.to_set().len() <= 15 || size.width
            >= 800),
        forall|i: int, j: int|
            0 <= i < j < list.len() ==> (#[trigger] list[i]).width > (#[trigger] list[j]).width || (
            list[i].width == list[j].width && list[i].height > list[j].height),
{
    let all = choose|all: Seq<Resolution>|
        falling(all) && #[trigger] all.to_set() == sizes.to_set() && list == if all.len()
            > MANY_RESOLUTIONS {
            all.filter(wide())
        } else {
            all
        };
    assert(all.no_duplicates()) by {
        assert forall|i: int, j: int|
            0 <= i < all.len() && 0 <= j < all.len() && i != j implies all[i] != all[j] by {
            if i < j {
                assert(before(all[i], all[j]));
            } else {
                assert(before(all[j], all[i]));
            }
        }
    }
    all.unique_seq_to_set();
    assert(all.contains(size) == all.to_set().contains(size));
    assert(sizes.contains(size) == sizes.to_set().contains(size));
    if all.len() > MANY_RESOLUTIONS {
        lemma_filtered(all, size);
    }
    assert forall|i: int, j: int| 0 <= i < j < list.len() implies (#[trigger] list[i]).width > (
    #[trigger] list[j]).width || (list[i].width == list[j].width && list[i].height
        > list[j].height) by {
        assert(before(list[i], list[j]));
    }
}

proof fn lemma_filtered(all: Seq<Resolution>, size: Resolution)
    requires
        falling(all),
    ensures
        falling(all.filter(wide())),
        all.filter(wide()).contains(size) <==> all.contains(size) && size.width >= LEAST_WIDTH,
    decreases all.len(),
{
    reveal(Seq::filter);
    let kept = all.filter(wide());
    if all.len() > 0 {
        let front = all.drop_last();
        let last = all.last();
        assert forall|i: int, j: int| 0 <= i < j < front.len() implies before(
            #[trigger] front[i],
            #[trigger] front[j],
        ) by {
            assert(before(all[i], all[j]));
        }
        lemma_filtered(front, size);
        let before_it = front.filter(wide());
        assert(kept == if wide()(last) {
            before_it.push(last)
        } else {
            before_it
        });
        assert(all =~= front.push(last));
        if wide()(last) {
            assert forall|i: int, j: int| 0 <= i < j < kept.len() implies before(
                #[trigger] kept[i],
                #[trigger] kept[j],
            ) by {
                if j < before_it.len() {
                    assert(before(before_it[i], before_it[j]));
                } else {
                    lemma_filtered(front, before_it[i]);
                    assert(before_it.contains(before_it[i]));
                    let k = choose|k: int| 0 <= k < front.len() && front[k] == before_it[i];
                    assert(before(all[k], all[all.len() - 1]));
                }
            }
            assert(kept.last() == last);
            if before_it.contains(size) {
                let k = choose|k: int| 0 <= k < before_it.len() && before_it[k] == size;
                assert(kept[k] == size);
            }
            if size == last {
                assert(kept[kept.len() - 1] == size);
            }
            if kept.contains(size) && size != last {
                let k = choose|k: int| 0 <= k < kept.len() && kept[k] == size;
                assert(before_it[k] == size);
            }
        }
        if all.contains(size) && size != last {
            let k = choose|k: int| 0 <= k < all.len() && all[k] == size;
            assert(front[k] == size);
        }
        if front.contains(size) {
            let k = choose|k: int| 0 <= k < front.len() && front[k] == size;
            assert(all[k] == size);
        }
        assert(all[all.len() - 1] == last);
    }
}

/// A window tells something of the right to record only by a readable title, and never
/// one of this program or of the Dock, nor one whose owner is unknown.
pub proof fn law_which_windows_show_the_right(window: ScreenWindow, our_pid: i32, name: String)
    ensures
        !window.named || window.pid == our_pid || window.owner is None
            ==> !window.shows_permission(our_pid),
        window.owner == Some(name) && name@ == "Dock"@ ==> !window.shows_permission(our_pid),
        window.named && window.pid != our_pid && window.owner == Some(name) && name@ != "Dock"@
            ==> window.shows_permission(our_pid),
{
}

} // verus!
