//! Virtual input devices of Linux.
use crate::text::{chars_of, lines, list_contains, starts_with};
use vstd::prelude::*;

verus! {

/// The space for the name of a device, with its end mark.
pub const UINPUT_MAX_NAME_SIZE: usize = 80;

/// One event: its type, its code and its value.
#[derive(Clone, Copy, Debug, PartialEq, Eq, Structural)]
pub struct InputEvent {
    pub kind: u16,
    pub code: u16,
    pub value: i32,
}

/// The event that ends a frame.
pub open spec fn syn_report() -> InputEvent {
    InputEvent { kind: 0, code: 0, value: 0 }
}

/// A text is a prefix and at least one decimal digit.
pub open spec fn numbered(name: Seq<char>, prefix: Seq<char>) -> bool {
    &&& prefix.is_prefix_of(name)
    &&& name.len() > prefix.len()
    &&& forall|i: int| prefix.len() <= i < name.len() ==> '0' <= #[trigger] name[i] <= '9'
}

fn is_numbered(name: &str, prefix: &str) -> (r: bool)
    ensures
        r == numbered(name@, prefix@),
{
    if !starts_with(name, prefix) {
        return false;
    }
    let chars = chars_of(name);
    let head = chars_of(prefix);
    if chars.len() == head.len() {
        return false;
    }
    let mut i: usize = head.len();
    while i < chars.len()
        invariant
            chars@ == name@,
            head@ == prefix@,
            head.len() <= i <= chars.len(),
            forall|k: int| prefix@.len() <= k < i ==> '0' <= #[trigger] name@[k] <= '9',
        decreases chars.len() - i,
    {
        if !('0' <= chars[i] && chars[i] <= '9') {
            assert(!('0' <= name@[i as int] <= '9'));
            return false;
        }
        i = i + 1;
    }
    true
}

/// Checks the name that the system gave a device.
pub fn check_sysname(sysname: &str) -> (r: Result<(), String>)
    ensures
        r is Ok <==> numbered(sysname@, "input"@),
        r matches Err(e) ==> e@ == "unexpected uinput sysname: "@ + sysname@,
{
    if is_numbered(sysname, "input") {
        return Ok(());
    }
    let mut text: String = "unexpected uinput sysname: ".to_owned();
    text.append(sysname);
    Err(text)
}

/// The length of the text in a buffer: up to the first zero byte.
pub fn sysname_length(buffer: &[u8]) -> (r: usize)
    ensures
        r <= buffer@.len(),
        forall|i: int| 0 <= i < r ==> buffer@[i] != 0,
        r < buffer@.len() ==> buffer@[r as int] == 0,
{
    let mut i: usize = 0;
    while i < buffer.len()
        invariant
            i <= buffer@.len(),
            forall|k: int| 0 <= k < i ==> buffer@[k] != 0,
        decreases buffer.len() - i,
    {
        if buffer[i] == 0 {
            return i;
        }
        i = i + 1;
    }
    i
}

/// The first entry of a device's directory that names its events.
pub fn find_event_name(names: &Vec<String>) -> (r: Option<String>)
    ensures
        match r {
            Some(name) => exists|i: int|
                0 <= i < names@.len() && #[trigger] names@[i]@ == name@ && numbered(
                    name@,
                    "event"@,
                ) && forall|k: int| 0 <= k < i ==> !numbered(#[trigger] names@[k]@, "event"@),
            None => forall|k: int|
                0 <= k < names@.len() ==> !numbered(#[trigger] names@[k]@, "event"@),
        },
{
    let mut i: usize = 0;
    while i < names.len()
        invariant
            i <= names@.len(),
            forall|k: int| 0 <= k < i ==> !numbered(#[trigger] names@[k]@, "event"@),
        decreases names.len() - i,
    {
        if is_numbered(names[i].as_str(), "event") {
            let name = names[i].clone();
            assert(names@[i as int]@ == name@);
            return Some(name);
        }
        i = i + 1;
    }
    None
}

/// Whether the device database calls a device a touchpad: one of its lines says
/// exactly that.
pub fn udev_data_is_touchpad(data: &str) -> (r: bool)
    ensures
        r == crate::text::line_texts(data@).contains("E:ID_INPUT_TOUCHPAD=1"@),
{
    let list = lines(data);
    list_contains(&list, "E:ID_INPUT_TOUCHPAD=1")
}

/// The name field of a device: the name, and zeros up to its fixed length.
pub fn device_name_field(name: &[u8]) -> (r: Result<Vec<u8>, &'static str>)
    ensures
        match r {
            Ok(field) => name@.len() < UINPUT_MAX_NAME_SIZE && field@ == name@ + Seq::new(
                (UINPUT_MAX_NAME_SIZE - name@.len()) as nat,
                |i: int| 0u8,
            ),
            Err(e) => name@.len() >= UINPUT_MAX_NAME_SIZE && e@
                == "uinput device name is too long"@,
        },
{
    if name.len() >= UINPUT_MAX_NAME_SIZE {
        return Err("uinput device name is too long");
    }
    let mut field: Vec<u8> = Vec::new();
    field.extend_from_slice(name);
    assert(field@ =~= name@ + Seq::new(0, |i: int| 0u8));
    while field.len() < UINPUT_MAX_NAME_SIZE
        invariant
            name@.len() <= field@.len() <= UINPUT_MAX_NAME_SIZE,
            field@ == name@ + Seq::new((field@.len() - name@.len()) as nat, |i: int| 0u8),
        decreases UINPUT_MAX_NAME_SIZE - field.len(),
    {
        field.push(0);
        assert(field@ =~= name@ + Seq::new((field@.len() - name@.len()) as nat, |i: int| 0u8));
    }
    Ok(field)
}

/// A frame of events: the events, and the one that ends the frame.
pub fn event_frame(events: &[InputEvent]) -> (r: Vec<InputEvent>)
    ensures
        r@ == events@.push(syn_report()),
{
    let mut frame: Vec<InputEvent> = Vec::new();
    frame.extend_from_slice(events);
    assert(frame@ =~= events@);
    frame.push(InputEvent { kind: 0, code: 0, value: 0 });
    frame
}

/// The file of the device database for a device number.
pub fn udev_data_path(device_number: &str) -> (r: String)
    ensures
        r@ == "/run/udev/data/c"@ + crate::text::trimmed(device_number@),
{
    let mut path: String = "/run/udev/data/c".to_owned();
    let number = crate::text::trim(device_number);
    path.append(number.as_str());
    path
}

/// A name is numbered where a decimal number stands behind the prefix and nothing else.
pub proof fn law_numbered_names_end_in_digits(prefix: Seq<char>, rest: Seq<char>, n: nat)
    ensures
        numbered(prefix + rest, prefix) <==> rest.len() > 0 && forall|i: int|
            0 <= i < rest.len() ==> '0' <= #[trigger] rest[i] <= '9',
        numbered(prefix + crate::text::decimal(n), prefix),
{
    let name = prefix + rest;
    assert(name.subrange(0, prefix.len() as int) =~= prefix);
    assert forall|i: int| 0 <= i < rest.len() implies name[prefix.len() + i]
        == #[trigger] rest[i] by {}
    if numbered(name, prefix) {
        assert forall|i: int| 0 <= i < rest.len() implies '0' <= #[trigger] rest[i] <= '9' by {
            assert('0' <= name[prefix.len() + i] <= '9');
        }
    }
    if forall|i: int| 0 <= i < rest.len() ==> '0' <= #[trigger] rest[i] <= '9' {
        assert forall|i: int| prefix.len() <= i < name.len() implies '0' <= #[trigger] name[i]
            <= '9' by {
            assert(name[i] == rest[i - prefix.len()]);
        }
    }
    let digits = crate::text::decimal(n);
    let shown = prefix + digits;
    crate::text::law_decimal_has_no_leading_zero(n);
    assert(shown.subrange(0, prefix.len() as int) =~= prefix);
    assert forall|i: int| prefix.len() <= i < shown.len() implies '0' <= #[trigger] shown[i]
        <= '9' by {
        assert(shown[i] == digits[i - prefix.len()]);
    }
}

/// The event that ends a frame is all zeros.
pub proof fn law_frames_end_with_zeros()
    ensures
        syn_report().kind == 0 && syn_report().code == 0 && syn_report().value == 0,
{
}

/// A name is numbered only behind its own prefix.
pub proof fn law_numbered_names_begin_with_the_prefix(name: Seq<char>, prefix: Seq<char>)
    requires
        numbered(name, prefix),
    ensures
        name.len() > prefix.len(),
        name == prefix + name.skip(prefix.len() as int),
        '0' <= name.last() <= '9',
{
    assert(name.subrange(0, prefix.len() as int) == prefix);
    assert(name =~= prefix + name.skip(prefix.len() as int));
}

} // verus!
