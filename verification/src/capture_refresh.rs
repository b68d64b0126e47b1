//! Which pictures a window asks for when the displays of the peer change.
use std::collections::HashMap;
use vstd::prelude::*;

verus! {

broadcast use vstd::std_specs::hash::group_hash_axioms;

/// A window and the displays that it shows.
#[derive(Debug)]
pub struct WindowDisplays {
    pub session_id: u128,
    pub displays: Vec<usize>,
}

/// The picture of a display, as windows read it.
#[derive(Debug)]
pub struct RgbaData {
    pub data: Vec<u8>,
    /// A window may be reading the pixels.
    pub valid: bool,
    /// A new picture is asked for once the pixels have been read.
    pub refresh_on_ack: bool,
}

/// What is asked of the peer: which displays to capture, and of which to send a
/// new picture now.
#[derive(Debug)]
pub struct CaptureRefresh {
    pub capture: Vec<i32>,
    pub refresh: Vec<i32>,
}

/// The numbers below a bound.
pub open spec fn below(count: nat) -> Seq<usize> {
    Seq::new(count, |i: int| i as usize)
}

/// The numbers below a bound, as they are sent.
pub open spec fn sent_below(count: nat) -> Seq<i32> {
    Seq::new(count, |i: int| i as i32)
}

/// The displays to capture: all of them, as far as their count can be sent.
pub open spec fn captured(count: usize) -> Seq<i32> {
    if count as i32 > 0 {
        sent_below((count as i32) as nat)
    } else {
        Seq::empty()
    }
}

/// Another window shows the first display alone, and so reads its pixels.
pub open spec fn other_reader(windows: Seq<WindowDisplays>, session_id: u128) -> bool {
    exists|i: int|
        0 <= i < windows.len() && (#[trigger] windows[i]).session_id != session_id
            && windows[i].displays@ == seq![0usize]
}

/// The picture of the first display after the displays changed: with one display and
/// no other reader the pixels are free; with another reader of valid pixels a new
/// picture waits until they have been read.
pub open spec fn refreshed(rgba: RgbaData, count: nat, other: bool) -> RgbaData {
    let valid = rgba.valid && !(count == 1 && !other);
    RgbaData { data: rgba.data, valid, refresh_on_ack: count == 1 && valid }
}

/// The pictures after the displays changed.
pub open spec fn after_change(
    rgbas: Map<usize, RgbaData>,
    count: nat,
    other: bool,
) -> Map<usize, RgbaData> {
    if rgbas.contains_key(0) {
        rgbas.insert(0, refreshed(rgbas[0], count, other))
    } else {
        rgbas
    }
}

/// A new picture of a display waits until the old one has been read.
pub open spec fn waits(rgbas: Map<usize, RgbaData>, display: usize) -> bool {
    rgbas.contains_key(display) && rgbas[display].refresh_on_ack
}

/// The pictures once that of a display has been read.
pub open spec fn acknowledged(rgbas: Map<usize, RgbaData>, display: usize) -> Map<
    usize,
    RgbaData,
> {
    if rgbas.contains_key(display) {
        rgbas.insert(display, RgbaData { refresh_on_ack: false, ..rgbas[display] })
    } else {
        rgbas
    }
}

/// The display that is asked for a new picture once its picture has been read.
pub open spec fn asked(rgbas: Map<usize, RgbaData>, display: usize) -> Option<i32> {
    if waits(rgbas, display) {
        Some(display as i32)
    } else {
        None
    }
}

fn numbers_below(count: usize) -> (r: Vec<usize>)
    ensures
        r@ == below(count as nat),
{
    let mut out: Vec<usize> = Vec::new();
    let mut i: usize = 0;
    while i < count
        invariant
            i <= count,
            out@ == below(i as nat),
        decreases count - i,
    {
        out.push(i);
        i = i + 1;
        assert(out@ =~= below(i as nat));
    }
    out
}

fn sent_numbers_below(count: usize) -> (r: Vec<i32>)
    ensures
        r@ == sent_below(count as nat),
{
    let mut out: Vec<i32> = Vec::new();
    let mut i: usize = 0;
    while i < count
        invariant
            i <= count,
            out@ == sent_below(i as nat),
        decreases count - i,
    {
        out.push(#[verifier::truncate] (i as i32));
        i = i + 1;
        assert(out@ =~= sent_below(i as nat));
    }
    out
}

fn captured_numbers(count: usize) -> (r: Vec<i32>)
    ensures
        r@ == captured(count),
{
    let bound: i32 = #[verifier::truncate] (count as i32);
    let mut out: Vec<i32> = Vec::new();
    let mut i: i32 = 0;
    while i < bound
        invariant
            0 <= i,
            i <= bound || i == 0,
            out@ == sent_below(i as nat),
        decreases bound - i,
    {
        out.push(i);
        i = i + 1;
        assert(out@ =~= sent_below(i as nat));
    }
    assert(out@ =~= captured(count));
    out
}

fn find_window(windows: &Vec<WindowDisplays>, session_id: u128) -> (r: Option<usize>)
    ensures
        match r {
            Some(i) => i < windows@.len() && windows@[i as int].session_id == session_id
                && forall|k: int| 0 <= k < i ==> (#[trigger] windows@[k]).session_id != session_id,
            None => forall|k: int|
                0 <= k < windows@.len() ==> (#[trigger] windows@[k]).session_id != session_id,
        },
{
    let mut i: usize = 0;
    while i < windows.len()
        invariant
            i <= windows@.len(),
            forall|k: int| 0 <= k < i ==> (#[trigger] windows@[k]).session_id != session_id,
        decreases windows.len() - i,
    {
        if windows[i].session_id == session_id {
            return Some(i);
        }
        i = i + 1;
    }
    None
}

fn has_other_reader(windows: &Vec<WindowDisplays>, session_id: u128) -> (r: bool)
    ensures
        r == other_reader(windows@, session_id),
{
    let mut i: usize = 0;
    while i < windows.len()
        invariant
            i <= windows@.len(),
            forall|k: int|
                0 <= k < i ==> !((#[trigger] windows@[k]).session_id != session_id
                    && windows@[k].displays@ == seq![0usize]),
        decreases windows.len() - i,
    {
        let w = &windows[i];
        if w.session_id != session_id && w.displays.len() == 1 && w.displays[0] == 0 {
            assert(w.displays@ =~= seq![0usize]);
            assert(windows@[i as int].session_id != session_id);
            return true;
        }
        i = i + 1;
    }
    false
}

/// Makes a window show all displays that the peer has now, and says what to ask
/// the peer for. Pixels of the first display that another window may be reading
/// stay; the new picture then waits. A window that is not there changes nothing.
pub fn refresh_capture(
    windows: &mut Vec<WindowDisplays>,
    rgbas: &mut HashMap<usize, RgbaData>,
    session_id: u128,
    count: usize,
) -> (r: Option<CaptureRefresh>)
    ensures
        (forall|k: int|
            0 <= k < old(windows)@.len() ==> (#[trigger] old(windows)@[k]).session_id
                != session_id) ==> r is None && *final(windows) == *old(windows) && final(rgbas)@
            == old(rgbas)@,
        (exists|k: int|
            0 <= k < old(windows)@.len() && (#[trigger] old(windows)@[k]).session_id
                == session_id) ==> {
            &&& r matches Some(ask)
            &&& ask.capture@ == captured(count)
            &&& final(windows)@.len() == old(windows)@.len()
            &&& exists|i: int|
                0 <= i < old(windows)@.len() && (#[trigger] old(windows)@[i]).session_id
                    == session_id && final(windows)@[i].session_id == session_id
                    && final(windows)@[i].displays@ == below(count as nat) && (forall|k: int|
                    0 <= k < i ==> (#[trigger] old(windows)@[k]).session_id != session_id)
                    && final(windows)@ == old(windows)@.update(i, final(windows)@[i])
            &&& final(rgbas)@ == after_change(
                old(rgbas)@,
                count as nat,
                other_reader(old(windows)@, session_id),
            )
            &&& ask.refresh@ == if waits(final(rgbas)@, 0) {
                Seq::empty()
            } else {
                sent_below(count as nat)
            }
        },
{
    match find_window(windows, session_id) {
        None => None,
        Some(at) => {
            let other = has_other_reader(windows, session_id);
            let shown = WindowDisplays { session_id, displays: numbers_below(count) };
            windows.set(at, shown);
            assert(old(windows)@[at as int].session_id == session_id);
            let mut wait = false;
            if let Some(rgba) = rgbas.remove(&0) {
                let valid = rgba.valid && !(count == 1 && !other);
                let refresh_on_ack = count == 1 && valid;
                wait = refresh_on_ack;
                rgbas.insert(0, RgbaData { data: rgba.data, valid, refresh_on_ack });
            }
            assert(rgbas@ =~= after_change(
                old(rgbas)@,
                count as nat,
                other_reader(old(windows)@, session_id),
            ));
            let refresh: Vec<i32> = if wait {
                Vec::new()
            } else {
                sent_numbers_below(count)
            };
            Some(CaptureRefresh { capture: captured_numbers(count), refresh })
        },
    }
}

/// The display to ask a new picture of, once its pixels have been read, if one was
/// waiting.
pub fn refresh_after_rgba(rgbas: &mut HashMap<usize, RgbaData>, display: usize) -> (r: Option<i32>)
    ensures
        final(rgbas)@ == acknowledged(old(rgbas)@, display),
        r == asked(old(rgbas)@, display),
{
    let mut pending = false;
    if let Some(rgba) = rgbas.remove(&display) {
        pending = rgba.refresh_on_ack;
        rgbas.insert(
            display,
            RgbaData { data: rgba.data, valid: rgba.valid, refresh_on_ack: false },
        );
    }
    assert(rgbas@ =~= acknowledged(old(rgbas)@, display));
    if pending {
        Some(#[verifier::truncate] (display as i32))
    } else {
        None
    }
}

/// A new picture that waited is asked for exactly once: by the first time that the
/// old one was read, and not by the next. Nothing is asked for where none waited.
/// What the pictures hold, and who may be reading them, stays.
pub proof fn law_waiting_picture_is_asked_once(rgbas: Map<usize, RgbaData>, display: usize)
    ensures
        asked(rgbas, display) == (if waits(rgbas, display) {
            Some(display as i32)
        } else {
            None
        }),
        !waits(acknowledged(rgbas, display), display),
        asked(acknowledged(rgbas, display), display) is None,
        acknowledged(acknowledged(rgbas, display), display) == acknowledged(rgbas, display),
        acknowledged(rgbas, display).dom() == rgbas.dom(),
        forall|other: usize| #[trigger]
            rgbas.contains_key(other) ==> acknowledged(rgbas, display)[other].data
                == rgbas[other].data && acknowledged(rgbas, display)[other].valid
                == rgbas[other].valid,
        forall|other: usize|
            other != display && #[trigger] rgbas.contains_key(other) ==> acknowledged(
                rgbas,
                display,
            )[other] == rgbas[other],
{
    assert(acknowledged(rgbas, display).dom() =~= rgbas.dom());
    assert(acknowledged(acknowledged(rgbas, display), display) =~= acknowledged(rgbas, display));
}

/// A change of the displays leaves the pixels of every picture as they are. A new
/// picture waits only for another window that may be reading the only display, and
/// its pixels then stay valid.
pub proof fn law_borrowed_pixels_stay(rgbas: Map<usize, RgbaData>, count: nat, other: bool)
    ensures
        after_change(rgbas, count, other).dom() == rgbas.dom(),
        forall|display: usize| #[trigger]
            rgbas.contains_key(display) ==> after_change(rgbas, count, other)[display].data
                == rgbas[display].data,
        waits(after_change(rgbas, count, other), 0) <==> count == 1 && other
            && rgbas.contains_key(0) && rgbas[0].valid,
        waits(after_change(rgbas, count, other), 0) ==> after_change(rgbas, count, other)[0].valid,
{
    assert(after_change(rgbas, count, other).dom() =~= rgbas.dom());
}

/// With `count` displays, the displays from zero up to the last one are shown, captured
/// and asked for, each once and in their order.
pub proof fn law_all_displays_are_asked_for(count: usize, i: int)
    requires
        count <= i32::MAX,
        0 <= i < count,
    ensures
        below(count as nat).len() == count && below(count as nat)[i] == i,
        sent_below(count as nat).len() == count && sent_below(count as nat)[i] == i,
        captured(count) == sent_below(count as nat),
        captured(0).len() == 0,
{
}

/// A window counts as another reader only if it is another one and shows the first
/// display and nothing else.
pub proof fn law_who_reads_the_first_display(
    a: Seq<WindowDisplays>,
    window: WindowDisplays,
    b: Seq<WindowDisplays>,
    session_id: u128,
)
    ensures
        other_reader(a + seq![window] + b, session_id) <==> other_reader(a + b, session_id) || (
        window.session_id != session_id && window.displays@.len() == 1 && window.displays@[0] == 0),
        !other_reader(Seq::empty(), session_id),
{
    let whole = a + seq![window] + b;
    let rest = a + b;
    assert(whole[a.len() as int] == window);
    assert(window.displays@.len() == 1 && window.displays@[0] == 0 <==> window.displays@
        =~= seq![0usize]);
    if other_reader(whole, session_id) {
        let i = choose|i: int|
            0 <= i < whole.len() && (#[trigger] whole[i]).session_id != session_id
                && whole[i].displays@ == seq![0usize];
        if i < a.len() {
            assert(rest[i] == whole[i]);
        } else if i > a.len() {
            assert(rest[i - 1] == whole[i]);
        }
    }
    if other_reader(rest, session_id) {
        let i = choose|i: int|
            0 <= i < rest.len() && (#[trigger] rest[i]).session_id != session_id
                && rest[i].displays@ == seq![0usize];
        if i < a.len() {
            assert(whole[i] == rest[i]);
        } else {
            assert(whole[i + 1] == rest[i]);
        }
    }
}

/// Pixels of the first display are freed only where it is the only display and nobody
/// else reads it; the pictures of other displays stay as they are.
pub proof fn law_when_pixels_are_freed(rgbas: Map<usize, RgbaData>, count: nat, other: bool)
    ensures
        rgbas.contains_key(0) && rgbas[0].valid ==> (after_change(rgbas, count, other)[0].valid
            <==> count != 1 || other),
        rgbas.contains_key(0) && !rgbas[0].valid ==> !after_change(rgbas, count, other)[0].valid,
        forall|display: usize|
            display != 0 && #[trigger] rgbas.contains_key(display) ==> after_change(
                rgbas,
                count,
                other,
            )[display] == rgbas[display],
        forall|display: usize|
            waits(rgbas, display) <==> #[trigger] rgbas.contains_key(display)
                && rgbas[display].refresh_on_ack,
{
}

} // verus!
