//! Unpacking an update into a directory that nobody else can write to.
use crate::text::{chars_of, ends_with, hex_text, same_text, text_of};
use crate::text_map::TextMap;
use vstd::prelude::*;

verus! {

/// How often a name for the directory is tried.
pub const CREATE_ATTEMPTS: usize = 16;

pub const RANDOM_BYTE_COUNT: usize = 16;

pub const UPDATE_DIR_PREFIX: &'static str = "RustDeskUpdate-";

/// Who may use the directory.
pub const UPDATE_DIR_SDDL: &'static str = "O:BAG:BAD:P(A;OICI;FA;;;SY)(A;OICI;FA;;;BA)";

/// The attribute of files that stand for others.
pub const FILE_ATTRIBUTE_REPARSE_POINT: u32 = 0x400;

/// A character between the parts of a path.
pub open spec fn separator(c: char) -> bool {
    c == '/' || c == '\\'
}

/// A character that no file name may hold.
pub open spec fn forbidden(c: char) -> bool {
    ||| (c as u32) < 0x20
    ||| 0x7f <= (c as u32) <= 0x9f
    ||| c == '<'
    ||| c == '>'
    ||| c == ':'
    ||| c == '"'
    ||| c == '/'
    ||| c == '\\'
    ||| c == '|'
    ||| c == '?'
    ||| c == '*'
}

fn is_forbidden(c: char) -> (r: bool)
    ensures
        r == forbidden(c),
{
    let code: u32 = c as u32;
    code < 0x20 || (0x7f <= code && code <= 0x9f) || c == '<' || c == '>' || c == ':' || c == '"'
        || c == '/' || c == '\\' || c == '|' || c == '?' || c == '*'
}

/// The upper-case form of an ASCII letter.
pub open spec fn ascii_upper(c: char) -> char {
    if 'a' <= c <= 'z' {
        (c as u8 - 32) as char
    } else {
        c
    }
}

/// The part of a name before its first dot.
pub open spec fn before_dot(s: Seq<char>) -> Seq<char>
    decreases s.len(),
{
    if s.len() == 0 || s[0] == '.' {
        Seq::empty()
    } else {
        seq![s[0]] + before_dot(s.drop_first())
    }
}

/// A text without the spaces at its end.
pub open spec fn without_end_spaces(s: Seq<char>) -> Seq<char>
    decreases s.len(),
{
    if s.len() > 0 && s.last() == ' ' {
        without_end_spaces(s.drop_last())
    } else {
        s
    }
}

/// What is left of a name that decides whether it names a device.
pub open spec fn device_stem(name: Seq<char>) -> Seq<char> {
    without_end_spaces(before_dot(name)).map_values(|c: char| ascii_upper(c))
}

/// The numbers of devices that have numbers.
pub open spec fn device_number(c: char) -> bool {
    '1' <= c <= '9' || c == '\u{b9}' || c == '\u{b2}' || c == '\u{b3}'
}

/// The upper-case name of a device.
pub open spec fn reserved_device_name(stem: Seq<char>) -> bool {
    ||| stem == "CON"@
    ||| stem == "PRN"@
    ||| stem == "AUX"@
    ||| stem == "NUL"@
    ||| stem == "CLOCK$"@
    ||| stem == "CONIN$"@
    ||| stem == "CONOUT$"@
    ||| stem.len() == 4 && device_number(stem[3]) && (stem.take(3) == "COM"@ || stem.take(3)
        == "LPT"@)
}

/// Whether an upper-case name is that of a device.
pub fn is_reserved_device_name(stem: &str) -> (r: bool)
    ensures
        r == reserved_device_name(stem@),
{
    if same_text(stem, "CON") || same_text(stem, "PRN") || same_text(stem, "AUX") || same_text(
        stem,
        "NUL",
    ) || same_text(stem, "CLOCK$") || same_text(stem, "CONIN$") || same_text(stem, "CONOUT$") {
        return true;
    }
    let chars = chars_of(stem);
    if chars.len() != 4 {
        return false;
    }
    let c = chars[3];
    let numbered = ('1' <= c && c <= '9') || c == '\u{b9}' || c == '\u{b2}' || c == '\u{b3}';
    let front = text_of(&chars, 0, 3);
    assert(front@ =~= stem@.take(3));
    numbered && (same_text(front.as_str(), "COM") || same_text(front.as_str(), "LPT"))
}

/// A part of a path that is safe as the name of a file.
pub open spec fn safe_component(name: Seq<char>) -> bool {
    &&& !" "@.is_suffix_of(name)
    &&& !"."@.is_suffix_of(name)
    &&& forall|i: int| 0 <= i < name.len() ==> !forbidden(#[trigger] name[i])
    &&& !reserved_device_name(device_stem(name))
}

fn upper_stem(chars: &Vec<char>) -> (r: String)
    ensures
        r@ == device_stem(chars@),
{
    let mut end: usize = 0;
    let ghost all = chars@;
    assert(all.take(0) + before_dot(all.skip(0)) =~= before_dot(all)) by {
        assert(all.skip(0) =~= all);
    }
    while end < chars.len() && chars[end] != '.'
        invariant
            all == chars@,
            end <= chars.len(),
            all.take(end as int) + before_dot(all.skip(end as int)) == before_dot(all),
        decreases chars.len() - end,
    {
        proof {
            let rest = all.skip(end as int);
            assert(rest.drop_first() =~= all.skip(end + 1));
            assert(all.take(end + 1) =~= all.take(end as int).push(all[end as int]));
            assert(all.take(end + 1) + before_dot(all.skip(end + 1)) =~= all.take(end as int) + (
            seq![rest[0]] + before_dot(rest.drop_first())));
        }
        end = end + 1;
    }
    assert(before_dot(all.skip(end as int)) =~= Seq::<char>::empty());
    assert(all.take(end as int) =~= before_dot(all));
    let ghost stem_end = end as int;
    while end > 0 && chars[end - 1] == ' '
        invariant
            all == chars@,
            end <= stem_end <= chars.len(),
            without_end_spaces(all.take(end as int)) == without_end_spaces(all.take(stem_end)),
        decreases end,
    {
        assert(all.take(end as int).drop_last() =~= all.take(end - 1));
        end = end - 1;
    }
    let ghost stem = all.take(end as int);
    assert(stem == without_end_spaces(before_dot(all)));
    let mut upper: Vec<char> = Vec::new();
    let mut i: usize = 0;
    while i < end
        invariant
            all == chars@,
            i <= end <= chars.len(),
            upper@.len() == i,
            forall|k: int| 0 <= k < i ==> upper@[k] == ascii_upper(all[k]),
        decreases end - i,
    {
        let c = chars[i];
        if 'a' <= c && c <= 'z' {
            let code: u8 = c as u8;
            upper.push((code - 32) as char);
        } else {
            upper.push(c);
        }
        i = i + 1;
    }
    assert(upper@ =~= device_stem(all));
    let r = text_of(&upper, 0, upper.len());
    assert(r@ =~= upper@);
    r
}

/// Whether a part of a path is safe as the name of a file.
pub fn is_safe_component(value: &str) -> (r: bool)
    ensures
        r == safe_component(value@),
{
    if ends_with(value, " ") || ends_with(value, ".") {
        return false;
    }
    let chars = chars_of(value);
    let mut i: usize = 0;
    while i < chars.len()
        invariant
            chars@ == value@,
            i <= chars.len(),
            forall|k: int| 0 <= k < i ==> !forbidden(#[trigger] value@[k]),
        decreases chars.len() - i,
    {
        if is_forbidden(chars[i]) {
            assert(forbidden(value@[i as int]));
            return false;
        }
        i = i + 1;
    }
    let stem = upper_stem(&chars);
    !is_reserved_device_name(stem.as_str())
}

/// The parts of a path between its separators.
pub open spec fn path_pieces(s: Seq<char>) -> Seq<Seq<char>>
    decreases s.len(),
{
    if s.len() == 0 {
        seq![Seq::empty()]
    } else {
        let front = path_pieces(s.drop_last());
        if separator(s.last()) {
            front.push(Seq::empty())
        } else {
            front.drop_last().push(front.last().push(s.last()))
        }
    }
}

/// A part that says nothing: an empty one, or the directory itself.
pub open spec fn idle_piece(piece: Seq<char>) -> bool {
    piece.len() == 0 || piece == "."@
}

/// The parts that say something.
pub open spec fn telling() -> spec_fn(Seq<char>) -> bool {
    |piece: Seq<char>| !idle_piece(piece)
}

/// The names of a path below the directory.
pub open spec fn names_of(path: Seq<char>) -> Seq<Seq<char>> {
    path_pieces(path).filter(telling())
}

/// A path that stays below the directory and is safe there.
pub open spec fn embeddable(path: Seq<char>) -> bool {
    &&& path.len() > 0
    &&& !separator(path[0])
    &&& names_of(path).len() > 0
    &&& forall|i: int| 0 <= i < names_of(path).len() ==> safe_component(#[trigger] names_of(path)[i])
}

fn refused(path: &str) -> (r: String)
    ensures
        r@ == "Invalid embedded update path: "@ + path@,
{
    let mut text: String = "Invalid embedded update path: ".to_owned();
    text.append(path);
    text
}

/// The names of a path below the directory, each safe.
pub fn embedded_path(path: &str) -> (r: Result<Vec<String>, String>)
    ensures
        match r {
            Ok(names) => embeddable(path@) && crate::text::texts(names@) == names_of(path@),
            Err(e) => !embeddable(path@) && e@ == "Invalid embedded update path: "@ + path@,
        },
{
    let chars = chars_of(path);
    if chars.len() == 0 || chars[0] == '/' || chars[0] == '\\' {
        return Err(refused(path));
    }
    let ghost all = path@;
    let mut names: Vec<String> = Vec::new();
    let mut start: usize = 0;
    let mut i: usize = 0;
    proof {
        reveal_strlit(".");
        assert(crate::text::texts(names@) =~= Seq::<Seq<char>>::empty());
        assert(all.take(0) =~= Seq::<char>::empty());
        assert(path_pieces(all.take(0)).drop_last() =~= Seq::<Seq<char>>::empty());
        assert(path_pieces(all.take(0)).last() =~= all.subrange(0, 0));
        assert(Seq::<Seq<char>>::empty().filter(telling()) =~= Seq::<Seq<char>>::empty()) by {
            reveal(Seq::filter);
        }
    }
    while i < chars.len()
        invariant
            chars@ == all,
            all == path@,
            start <= i <= chars.len(),
            path_pieces(all.take(i as int)).len() > 0,
            path_pieces(all.take(i as int)).last() == all.subrange(start as int, i as int),
            crate::text::texts(names@) == path_pieces(all.take(i as int)).drop_last().filter(
                telling(),
            ),
        decreases chars.len() - i,
    {
        let ghost pieces = path_pieces(all.take(i as int));
        let ghost next = path_pieces(all.take(i + 1));
        proof {
            assert(all.take(i + 1).drop_last() =~= all.take(i as int));
            assert(all.take(i + 1).last() == all[i as int]);
        }
        if chars[i] == '/' || chars[i] == '\\' {
            let piece = text_of(&chars, start, i);
            assert(piece@ == pieces.last());
            proof {
                assert(next.drop_last() =~= pieces);
                reveal(Seq::filter);
            }
            if !piece.as_str().is_empty() && !same_text(piece.as_str(), ".") {
                proof {
                    crate::text::lemma_texts_push(names@, piece);
                }
                names.push(piece);
            }
            i = i + 1;
            start = i;
            assert(next.last() =~= all.subrange(start as int, i as int));
        } else {
            i = i + 1;
            proof {
                assert(next.drop_last() =~= pieces.drop_last());
                assert(next.last() =~= all.subrange(start as int, i as int));
            }
        }
    }
    let ghost pieces = path_pieces(all);
    let piece = text_of(&chars, start, i);
    proof {
        assert(all.take(i as int) =~= all);
        assert(piece@ == pieces.last());
        reveal(Seq::filter);
    }
    if !piece.as_str().is_empty() && !same_text(piece.as_str(), ".") {
        proof {
            crate::text::lemma_texts_push(names@, piece);
        }
        names.push(piece);
    }
    assert(crate::text::texts(names@) == names_of(all));
    if names.len() == 0 {
        assert(names_of(all).len() == 0);
        return Err(refused(path));
    }
    let mut k: usize = 0;
    while k < names.len()
        invariant
            crate::text::texts(names@) == names_of(all),
            all == path@,
            all.len() > 0,
            k <= names.len(),
            forall|m: int| 0 <= m < k ==> safe_component(#[trigger] names_of(all)[m]),
        decreases names.len() - k,
    {
        assert(names_of(all)[k as int] == names@[k as int]@);
        if !is_safe_component(names[k].as_str()) {
            return Err(refused(path));
        }
        k = k + 1;
    }
    Ok(names)
}

/// No name of an accepted path leads out of the directory.
pub proof fn law_embedded_paths_stay_below(path: Seq<char>, i: int)
    requires
        embeddable(path),
        0 <= i < names_of(path).len(),
    ensures
        names_of(path)[i] != ".."@,
        forall|k: int|
            0 <= k < names_of(path)[i].len() ==> !separator(#[trigger] names_of(path)[i][k])
                && names_of(path)[i][k] != ':',
{
    reveal_strlit("..");
    reveal_strlit(".");
    let name = names_of(path)[i];
    assert(safe_component(name));
    if name == ".."@ {
        assert("."@ =~= name.subrange(name.len() - 1, name.len() as int));
    }
}

/// The first names of a path with separators between them.
pub open spec fn joined(names: Seq<Seq<char>>) -> Seq<char>
    decreases names.len(),
{
    if names.len() == 0 {
        Seq::empty()
    } else if names.len() == 1 {
        names[0]
    } else {
        joined(names.drop_last()) + "\\"@ + names.last()
    }
}

/// Control characters and nine marks are refused in names, and nothing else is.
pub proof fn law_only_marks_are_refused(c: char)
    ensures
        forbidden(c) <==> (c as u32) < 32 || 127 <= (c as u32) < 160 || "<>:\"/\\|?*"@.contains(c),
{
    reveal_strlit("<>:\"/\\|?*");
    let marks = "<>:\"/\\|?*"@;
    assert(marks[0] == '<' && marks[1] == '>' && marks[2] == ':' && marks[3] == '"' && marks[4]
        == '/' && marks[5] == '\\' && marks[6] == '|' && marks[7] == '?' && marks[8] == '*');
}

/// The upper-case names of devices: seven words, and two with a number behind them.
pub proof fn law_device_names_are_few(stem: Seq<char>)
    ensures
        reserved_device_name(stem) <==> {
            ||| seq![
                "CON"@,
                "PRN"@,
                "AUX"@,
                "NUL"@,
                "CLOCK$"@,
                "CONIN$"@,
                "CONOUT$"@,
            ].contains(stem)
            ||| exists|number: char|
                (stem == #[trigger] "COM"@.push(number) || stem == "LPT"@.push(number)) && ('1'
                    <= number <= '9' || number == '\u{b9}' || number == '\u{b2}' || number
                    == '\u{b3}')
        },
        reserved_device_name(stem) ==> stem.len() == 3 || stem.len() == 4 || stem.len() == 6
            || stem.len() == 7,
{
    reveal_strlit("CON");
    reveal_strlit("PRN");
    reveal_strlit("AUX");
    reveal_strlit("NUL");
    reveal_strlit("CLOCK$");
    reveal_strlit("CONIN$");
    reveal_strlit("CONOUT$");
    reveal_strlit("COM");
    reveal_strlit("LPT");
    let words = seq!["CON"@, "PRN"@, "AUX"@, "NUL"@, "CLOCK$"@, "CONIN$"@, "CONOUT$"@];
    assert(words[0] == "CON"@ && words[1] == "PRN"@ && words[2] == "AUX"@ && words[3] == "NUL"@
        && words[4] == "CLOCK$"@ && words[5] == "CONIN$"@ && words[6] == "CONOUT$"@);
    if stem.len() == 4 {
        assert(stem =~= stem.take(3).push(stem[3]));
        assert("COM"@.push(stem[3]).len() == 4);
    }
    if words.contains(stem) {
        let i = choose|i: int| 0 <= i < words.len() && words[i] == stem;
        assert(words[i] == stem);
    }
    assert forall|number: char|
        stem == #[trigger] "COM"@.push(number) || stem == "LPT"@.push(number) implies stem.len()
        == 4 && stem[3] == number && (stem.take(3) == "COM"@ || stem.take(3) == "LPT"@) by {
        assert("COM"@.push(number).take(3) =~= "COM"@);
        assert("LPT"@.push(number).take(3) =~= "LPT"@);
    }
}

proof fn lemma_before_dot(s: Seq<char>, d: int)
    requires
        0 <= d <= s.len(),
        forall|i: int| 0 <= i < d ==> s[i] != '.',
        d < s.len() ==> s[d] == '.',
    ensures
        before_dot(s) == s.take(d),
    decreases s.len(),
{
    if s.len() == 0 || s[0] == '.' {
        assert(s.take(d) =~= Seq::<char>::empty());
    } else {
        let rest = s.drop_first();
        assert forall|i: int| 0 <= i < d - 1 implies rest[i] != '.' by {
            assert(rest[i] == s[i + 1]);
        }
        lemma_before_dot(rest, d - 1);
        assert(s.take(d) =~= seq![s[0]] + rest.take(d - 1));
    }
}

/// Whether a name names a device hangs on what stands before its first dot alone, in
/// upper case and without spaces at its end.
pub proof fn law_stem_ends_at_the_first_dot(name: Seq<char>, d: int)
    requires
        0 <= d <= name.len(),
        forall|i: int| 0 <= i < d ==> name[i] != '.',
        d < name.len() ==> name[d] == '.',
    ensures
        device_stem(name) == device_stem(name.take(d)),
        d > 0 && name[d - 1] == ' ' ==> device_stem(name) == device_stem(name.take(d - 1)),
        d == 0 || name[d - 1] != ' ' ==> device_stem(name).len() == d && forall|i: int|
            0 <= i < d ==> if 'a' <= name[i] <= 'z' {
                #[trigger] device_stem(name)[i] as u32 == name[i] as u32 - 32
            } else {
                device_stem(name)[i] == name[i]
            },
{
    lemma_before_dot(name, d);
    lemma_before_dot(name.take(d), d);
    assert(name.take(d).take(d) =~= name.take(d));
    if d > 0 && name[d - 1] == ' ' {
        lemma_before_dot(name.take(d - 1), d - 1);
        assert(name.take(d - 1).take(d - 1) =~= name.take(d - 1));
        assert(name.take(d).drop_last() =~= name.take(d - 1));
    }
}

/// A character of plain names: an ASCII letter or digit, an underscore, a hyphen or a
/// dot.
pub open spec fn plain(c: char) -> bool {
    'a' <= c <= 'z' || 'A' <= c <= 'Z' || '0' <= c <= '9' || c == '_' || c == '-' || c == '.'
}

/// Every plain name that does not end in a dot and names no device is accepted; in
/// particular every one with more than seven characters before its first dot.
pub proof fn law_plain_names_are_safe(name: Seq<char>, d: int)
    requires
        name.len() > 0,
        forall|i: int| 0 <= i < name.len() ==> plain(#[trigger] name[i]),
        name.last() != '.',
        0 <= d <= name.len(),
        forall|i: int| 0 <= i < d ==> name[i] != '.',
        d < name.len() ==> name[d] == '.',
    ensures
        !reserved_device_name(device_stem(name)) ==> safe_component(name),
        d > 7 ==> safe_component(name),
{
    reveal_strlit(" ");
    reveal_strlit(".");
    assert forall|i: int| 0 <= i < name.len() implies !forbidden(#[trigger] name[i]) by {
        assert(plain(name[i]));
    }
    assert(plain(name[name.len() - 1]));
    if " "@.is_suffix_of(name) {
        assert(name.subrange(name.len() - 1, name.len() as int)[0] == ' ');
    }
    if "."@.is_suffix_of(name) {
        assert(name.subrange(name.len() - 1, name.len() as int)[0] == '.');
    }
    law_stem_ends_at_the_first_dot(name, d);
    if d > 0 {
        assert(plain(name[d - 1]));
    }
    law_device_names_are_few(device_stem(name));
}

/// A name is refused exactly where it ends in a space or a dot, holds a refused
/// character or names a device.
pub proof fn law_refused_names_have_a_reason(name: Seq<char>)
    ensures
        !safe_component(name) <==> {
            ||| name.len() > 0 && (name.last() == ' ' || name.last() == '.')
            ||| exists|i: int| 0 <= i < name.len() && forbidden(#[trigger] name[i])
            ||| reserved_device_name(device_stem(name))
        },
{
    reveal_strlit(" ");
    reveal_strlit(".");
    if name.len() > 0 {
        let end = name.subrange(name.len() - 1, name.len() as int);
        assert(end[0] == name.last());
        assert(end =~= " "@ <==> name.last() == ' ');
        assert(end =~= "."@ <==> name.last() == '.');
    }
}

proof fn lemma_pieces_not_empty(s: Seq<char>)
    ensures
        path_pieces(s).len() > 0,
    decreases s.len(),
{
    if s.len() > 0 {
        lemma_pieces_not_empty(s.drop_last());
    }
}

proof fn lemma_pieces_add_up(a: Seq<char>, mark: char, b: Seq<char>)
    requires
        separator(mark),
    ensures
        path_pieces(a.push(mark) + b) == path_pieces(a) + path_pieces(b),
    decreases b.len(),
{
    let whole = a.push(mark) + b;
    if b.len() == 0 {
        assert(whole.drop_last() =~= a);
        assert(path_pieces(whole) =~= path_pieces(a) + path_pieces(b));
    } else {
        let front = b.drop_last();
        lemma_pieces_add_up(a, mark, front);
        lemma_pieces_not_empty(front);
        assert(whole.drop_last() =~= a.push(mark) + front);
        let before = path_pieces(a) + path_pieces(front);
        if separator(b.last()) {
            assert(before.push(Seq::empty()) =~= path_pieces(a) + path_pieces(b));
        } else {
            assert(before.last() == path_pieces(front).last());
            assert(before.drop_last().push(before.last().push(b.last())) =~= path_pieces(a)
                + path_pieces(b));
        }
    }
}

proof fn lemma_single_piece(s: Seq<char>)
    requires
        forall|i: int| 0 <= i < s.len() ==> !separator(#[trigger] s[i]),
    ensures
        path_pieces(s) == seq![s],
    decreases s.len(),
{
    if s.len() == 0 {
        assert(s =~= Seq::<char>::empty());
        assert(path_pieces(s) =~= seq![s]);
    } else {
        let front = s.drop_last();
        assert forall|i: int| 0 <= i < front.len() implies !separator(#[trigger] front[i]) by {
            assert(front[i] == s[i]);
        }
        lemma_single_piece(front);
        assert(!separator(s[s.len() - 1]));
        assert(front.push(s.last()) =~= s);
        assert(path_pieces(s) =~= seq![s]);
    }
}

/// The names of two paths with a separator between them are those of the one and then
/// those of the other, whichever of the two separators it is.
pub proof fn law_names_add_up(a: Seq<char>, mark: char, b: Seq<char>)
    requires
        mark == '/' || mark == '\\',
    ensures
        names_of(a.push(mark) + b) == names_of(a) + names_of(b),
{
    lemma_pieces_add_up(a, mark, b);
    Seq::filter_distributes_over_add(path_pieces(a), path_pieces(b), telling());
}

/// A path without separators has itself as its only name, unless it is empty or the
/// single dot, which have none.
pub proof fn law_single_names(s: Seq<char>)
    requires
        forall|i: int| 0 <= i < s.len() ==> (#[trigger] s[i]) != '/' && s[i] != '\\',
    ensures
        s.len() == 0 || s == "."@ ==> names_of(s).len() == 0,
        s.len() > 0 && s != "."@ ==> names_of(s) == seq![s],
{
    lemma_single_piece(s);
    reveal(Seq::filter);
    assert(seq![s].drop_last() =~= Seq::<Seq<char>>::empty());
    assert(Seq::<Seq<char>>::empty().filter(telling()) =~= Seq::<Seq<char>>::empty());
    assert(Seq::<Seq<char>>::empty().push(s) =~= seq![s]);
}

/// Safe names with separators between them are a path that is accepted, and it has
/// just these names.
pub proof fn law_safe_names_are_embeddable(names: Seq<Seq<char>>)
    requires
        names.len() > 0,
        forall|i: int|
            0 <= i < names.len() ==> (#[trigger] names[i]).len() > 0 && safe_component(names[i]),
    ensures
        names_of(joined(names)) == names,
        embeddable(joined(names)),
    decreases names.len(),
{
    reveal_strlit(".");
    reveal_strlit("\\");
    let last = names.last();
    assert(names[names.len() - 1] == last);
    law_refused_names_have_a_reason(last);
    assert forall|i: int| 0 <= i < last.len() implies (#[trigger] last[i]) != '/' && last[i]
        != '\\' by {
        law_only_marks_are_refused(last[i]);
        assert(!forbidden(last[i]));
    }
    law_single_names(last);
    if last == "."@ {
        assert(last.last() == '.');
    }
    if names.len() == 1 {
        assert(names =~= seq![last]);
    } else {
        let front = names.drop_last();
        assert forall|i: int| 0 <= i < front.len() implies (#[trigger] front[i]).len() > 0
            && safe_component(front[i]) by {
            assert(front[i] == names[i]);
        }
        law_safe_names_are_embeddable(front);
        law_names_add_up(joined(front), '\\', last);
        assert(joined(front) + "\\"@ + last =~= joined(front).push('\\') + last);
        assert(front + seq![last] =~= names);
        assert(joined(names)[0] == joined(front)[0]);
    }
}

/// A path that begins with a separator or has no name is refused, and so is one with
/// a name that is not safe.
pub proof fn law_embeddable_paths(path: Seq<char>)
    ensures
        path.len() == 0 || path[0] == '/' || path[0] == '\\' ==> !embeddable(path),
        names_of(path).len() == 0 ==> !embeddable(path),
        forall|i: int|
            0 <= i < names_of(path).len() && !safe_component(#[trigger] names_of(path)[i])
                ==> !embeddable(path),
        path.len() > 0 && path[0] != '/' && path[0] != '\\' && names_of(path).len() > 0 && (forall|
            i: int,
        |
            0 <= i < names_of(path).len() ==> safe_component(#[trigger] names_of(path)[i]))
            ==> embeddable(path),
{
}

/// The directories that a file stands in, from the outermost on.
pub open spec fn parents(names: Seq<Seq<char>>, count: int) -> Seq<Seq<char>> {
    Seq::new(count as nat, |k: int| joined(names.take(k + 1)))
}

/// Those of a list of directories that are not known, when each becomes known in
/// turn.
pub open spec fn unknown(list: Seq<Seq<char>>, known: Set<Seq<char>>) -> Seq<Seq<char>>
    decreases list.len(),
{
    if list.len() == 0 {
        Seq::empty()
    } else if known.contains(list[0]) {
        unknown(list.drop_first(), known)
    } else {
        seq![list[0]] + unknown(list.drop_first(), known.insert(list[0]))
    }
}

/// The directories that an update has made below its own.
pub struct SecureUpdateDir {
    directories: TextMap<bool>,
}

impl SecureUpdateDir {
    /// The directories that were made.
    pub closed spec fn view(&self) -> Set<Seq<char>> {
        self.directories@.dom()
    }

    pub fn new() -> (r: SecureUpdateDir)
        ensures
            r@ == Set::<Seq<char>>::empty(),
    {
        let r = SecureUpdateDir { directories: TextMap::new() };
        assert(r.directories@.dom() =~= Set::<Seq<char>>::empty());
        r
    }

    /// The directories to make before a file can be written, each once and after
    /// the one that it stands in.
    pub fn create_parent_directories(&mut self, names: &Vec<String>) -> (r: Vec<String>)
        requires
            names@.len() > 0,
        ensures
            crate::text::texts(r@) == unknown(
                parents(crate::text::texts(names@), names@.len() - 1),
                old(self)@,
            ),
            final(self)@ == old(self)@.union(
                parents(crate::text::texts(names@), names@.len() - 1).to_set(),
            ),
    {
        let ghost all = crate::text::texts(names@);
        let ghost list = parents(all, names@.len() - 1);
        let ghost start = self@;
        let mut made: Vec<String> = Vec::new();
        let mut current: String = String::new();
        let mut i: usize = 0;
        proof {
            assert(list.skip(0) =~= list);
            assert(crate::text::texts(made@) =~= Seq::<Seq<char>>::empty());
            assert(crate::text::texts(made@) + unknown(list, start) =~= unknown(list, start));
            assert(list.take(0).to_set() =~= Set::<Seq<char>>::empty());
            assert(start.union(Set::<Seq<char>>::empty()) =~= start);
            assert(all.take(0) =~= Seq::<Seq<char>>::empty());
            assert(current@ =~= joined(all.take(0)));
        }
        while i + 1 < names.len()
            invariant
                all == crate::text::texts(names@),
                list == parents(all, names@.len() - 1),
                names@.len() > 0,
                i < names.len(),
                current@ == joined(all.take(i as int)),
                crate::text::texts(made@) + unknown(list.skip(i as int), self@) == unknown(
                    list,
                    start,
                ),
                self@ == start.union(list.take(i as int).to_set()),
            decreases names.len() - i,
        {
            proof {
                assert(all.take(i + 1).drop_last() =~= all.take(i as int));
                assert(all.take(i + 1).last() == names@[i as int]@);
            }
            if i > 0 {
                current.append("\\");
                current.append(names[i].as_str());
            } else {
                current = names[i].clone();
                assert(all.take(1)[0] == names@[0]@);
            }
            let ghost rest = list.skip(i as int);
            let ghost before = self@;
            let ghost done = crate::text::texts(made@);
            proof {
                assert(rest[0] == current@);
                assert(rest.drop_first() =~= list.skip(i + 1));
                assert(list.take(i + 1) =~= list.take(i as int).push(current@));
                lemma_push_to_set(list.take(i as int), current@);
                assert(start.union(list.take(i as int).to_set().insert(current@)) =~= start.union(
                    list.take(i as int).to_set(),
                ).insert(current@));
            }
            if self.directories.get(current.as_str()).is_none() {
                let name = current.clone();
                proof {
                    crate::text::lemma_texts_push(made@, name);
                }
                made.push(current.clone());
                self.directories.insert(current.as_str(), true);
                proof {
                    assert(self@ =~= before.insert(current@));
                    assert(crate::text::texts(made@) =~= done.push(current@));
                    assert(crate::text::texts(made@) + unknown(list.skip(i + 1), self@) =~= done + (
                    seq![rest[0]] + unknown(rest.drop_first(), before.insert(rest[0]))));
                }
            } else {
                assert(before.insert(current@) =~= before);
            }
            i = i + 1;
        }
        proof {
            assert(list.skip(i as int) =~= Seq::<Seq<char>>::empty());
            assert(crate::text::texts(made@) + Seq::<Seq<char>>::empty() =~= crate::text::texts(
                made@,
            ));
            assert(list.take(i as int) =~= list);
        }
        made
    }
}

proof fn lemma_push_to_set(list: Seq<Seq<char>>, entry: Seq<char>)
    ensures
        list.push(entry).to_set() == list.to_set().insert(entry),
{
    let pushed = list.push(entry);
    assert forall|x: Seq<char>| pushed.to_set().contains(x) == list.to_set().insert(
        entry,
    ).contains(x) by {
        if pushed.contains(x) {
            let k = choose|k: int| 0 <= k < pushed.len() && pushed[k] == x;
            if k < list.len() {
                assert(list[k] == x);
            }
        }
        if list.contains(x) {
            let k = choose|k: int| 0 <= k < list.len() && list[k] == x;
            assert(pushed[k] == x);
        }
        assert(pushed[list.len() as int] == entry);
    }
    assert(pushed.to_set() =~= list.to_set().insert(entry));
}

/// A step of unpacking an update.
#[derive(Debug)]
pub enum ExtractStep {
    CreateDirectory(String),
    /// Write the file of this number to a path at which nothing stands.
    WriteFile { index: usize, path: String },
}

/// A step of unpacking as a value.
pub enum ExtractStepView {
    CreateDirectory(Seq<char>),
    WriteFile { index: nat, path: Seq<char> },
}

impl ExtractStep {
    pub open spec fn view(self) -> ExtractStepView {
        match self {
            ExtractStep::CreateDirectory(path) => ExtractStepView::CreateDirectory(path@),
            ExtractStep::WriteFile { index, path } => ExtractStepView::WriteFile {
                index: index as nat,
                path: path@,
            },
        }
    }
}

/// The views of a list of steps.
pub open spec fn step_views(list: Seq<ExtractStep>) -> Seq<ExtractStepView> {
    list.map_values(|step: ExtractStep| step.view())
}

/// The directories that the file of a path stands in.
pub open spec fn directories_of(path: Seq<char>) -> Seq<Seq<char>> {
    parents(names_of(path), names_of(path).len() - 1)
}

/// Steps that make directories.
pub open spec fn creations(list: Seq<Seq<char>>) -> Seq<ExtractStepView> {
    list.map_values(|path: Seq<char>| ExtractStepView::CreateDirectory(path))
}

/// The steps that write one file, where some directories are known.
pub open spec fn file_steps(known: Set<Seq<char>>, index: nat, path: Seq<char>) -> Seq<
    ExtractStepView,
> {
    creations(unknown(directories_of(path), known)).push(
        ExtractStepView::WriteFile { index, path: joined(names_of(path)) },
    )
}

/// The steps that write the files from a number on, up to one whose path is refused.
pub open spec fn unpacking(known: Set<Seq<char>>, files: Seq<Seq<char>>, index: nat) -> Seq<
    ExtractStepView,
>
    decreases files.len() - index,
{
    if index >= files.len() || !embeddable(files[index as int]) {
        Seq::empty()
    } else {
        file_steps(known, index, files[index as int]) + unpacking(
            known.union(directories_of(files[index as int]).to_set()),
            files,
            index + 1,
        )
    }
}

/// The directories that are known once the files from a number on are written, up to
/// one whose path is refused.
pub open spec fn known_after(known: Set<Seq<char>>, files: Seq<Seq<char>>, index: nat) -> Set<
    Seq<char>,
>
    decreases files.len() - index,
{
    if index >= files.len() || !embeddable(files[index as int]) {
        known
    } else {
        known_after(
            known.union(directories_of(files[index as int]).to_set()),
            files,
            index + 1,
        )
    }
}

/// The path whose name is refused first, among the files from a number on and the
/// program.
pub open spec fn first_refused(files: Seq<Seq<char>>, index: nat, exe: Seq<char>) -> Option<
    Seq<char>,
>
    decreases files.len() - index,
{
    if index >= files.len() {
        if embeddable(exe) {
            None
        } else {
            Some(exe)
        }
    } else if embeddable(files[index as int]) {
        first_refused(files, index + 1, exe)
    } else {
        Some(files[index as int])
    }
}

fn join_names(names: &Vec<String>) -> (r: String)
    ensures
        r@ == joined(crate::text::texts(names@)),
{
    let ghost all = crate::text::texts(names@);
    let mut path: String = String::new();
    let mut i: usize = 0;
    assert(path@ =~= joined(all.take(0)));
    while i < names.len()
        invariant
            i <= names.len(),
            all == crate::text::texts(names@),
            path@ == joined(all.take(i as int)),
        decreases names.len() - i,
    {
        proof {
            assert(all.take(i + 1).drop_last() =~= all.take(i as int));
            assert(all.take(i + 1).last() == names@[i as int]@);
        }
        if i > 0 {
            path.append("\\");
            path.append(names[i].as_str());
        } else {
            path = names[i].clone();
            assert(all.take(1)[0] == names@[0]@);
        }
        i = i + 1;
    }
    assert(all.take(i as int) =~= all);
    path
}

impl SecureUpdateDir {
    /// The steps that write one file.
    fn write_file(&mut self, index: usize, path: &str) -> (r: Result<Vec<ExtractStep>, String>)
        ensures
            match r {
                Ok(steps) => embeddable(path@) && step_views(steps@) == file_steps(
                    old(self)@,
                    index as nat,
                    path@,
                ) && final(self)@ == old(self)@.union(directories_of(path@).to_set()),
                Err(e) => !embeddable(path@) && final(self)@ == old(self)@ && e@
                    == "Invalid embedded update path: "@ + path@,
            },
    {
        let names = match embedded_path(path) {
            Ok(names) => names,
            Err(e) => {
                return Err(e);
            },
        };
        assert(crate::text::texts(names@).len() == names@.len());
        let made = self.create_parent_directories(&names);
        let ghost wanted = crate::text::texts(made@);
        let mut steps: Vec<ExtractStep> = Vec::new();
        let mut i: usize = 0;
        assert(step_views(steps@) =~= creations(wanted.take(0)));
        while i < made.len()
            invariant
                i <= made.len(),
                wanted == crate::text::texts(made@),
                step_views(steps@) == creations(wanted.take(i as int)),
            decreases made.len() - i,
        {
            let ghost before = step_views(steps@);
            steps.push(ExtractStep::CreateDirectory(made[i].clone()));
            proof {
                assert(wanted.take(i + 1) =~= wanted.take(i as int).push(wanted[i as int]));
                assert(step_views(steps@) =~= before.push(
                    ExtractStepView::CreateDirectory(wanted[i as int]),
                ));
                assert(creations(wanted.take(i + 1)) =~= creations(wanted.take(i as int)).push(
                    ExtractStepView::CreateDirectory(wanted[i as int]),
                ));
            }
            i = i + 1;
        }
        assert(wanted.take(i as int) =~= wanted);
        let place = join_names(&names);
        let ghost before = step_views(steps@);
        let ghost shown = place@;
        steps.push(ExtractStep::WriteFile { index, path: place });
        assert(step_views(steps@) =~= before.push(
            ExtractStepView::WriteFile { index: index as nat, path: shown },
        ));
        Ok(steps)
    }

    /// The steps that unpack an update, to be taken in turn until one fails, and the
    /// path of its program. A file with a refused path ends the unpacking, after the
    /// files before it.
    pub fn extract(&mut self, files: &Vec<String>, exe: &str) -> (r: (
        Vec<ExtractStep>,
        Result<String, String>,
    ))
        ensures
            step_views(r.0@) == unpacking(old(self)@, crate::text::texts(files@), 0),
            final(self)@ == known_after(old(self)@, crate::text::texts(files@), 0),
            match first_refused(crate::text::texts(files@), 0, exe@) {
                None => r.1 matches Ok(path) && path@ == joined(names_of(exe@)),
                Some(path) => r.1 matches Err(e) && e@ == "Invalid embedded update path: "@ + path,
            },
    {
        let ghost all = crate::text::texts(files@);
        let ghost wanted = unpacking(self@, all, 0);
        let mut steps: Vec<ExtractStep> = Vec::new();
        let mut i: usize = 0;
        assert(step_views(steps@) + wanted =~= wanted);
        while i < files.len()
            invariant
                i <= files.len(),
                all == crate::text::texts(files@),
                wanted == unpacking(old(self)@, all, 0),
                step_views(steps@) + unpacking(self@, all, i as nat) == wanted,
                known_after(self@, all, i as nat) == known_after(old(self)@, all, 0),
                first_refused(all, 0, exe@) == first_refused(all, i as nat, exe@),
            decreases files.len() - i,
        {
            let ghost known = self@;
            let ghost before = step_views(steps@);
            match self.write_file(i, files[i].as_str()) {
                Ok(mut more) => {
                    let ghost added = step_views(more@);
                    steps.append(&mut more);
                    proof {
                        assert(step_views(steps@) =~= before + added);
                        assert(before + (added + unpacking(self@, all, i as nat + 1)) =~= before
                            + added + unpacking(self@, all, i as nat + 1));
                    }
                },
                Err(e) => {
                    assert(before + unpacking(known, all, i as nat) =~= before);
                    return (steps, Err(e));
                },
            }
            i = i + 1;
        }
        assert(step_views(steps@) + unpacking(self@, all, i as nat) =~= step_views(steps@));
        match embedded_path(exe) {
            Ok(names) => (steps, Ok(join_names(&names))),
            Err(e) => (steps, Err(e)),
        }
    }
}

proof fn lemma_unknown_is_complete(
    list: Seq<Seq<char>>,
    known: Set<Seq<char>>,
    directory: Seq<char>,
)
    requires
        list.contains(directory),
        !known.contains(directory),
    ensures
        unknown(list, known).contains(directory),
    decreases list.len(),
{
    let k = choose|k: int| 0 <= k < list.len() && list[k] == directory;
    let rest = list.drop_first();
    if list[0] == directory {
        assert(unknown(list, known)[0] == directory);
    } else {
        assert(rest[k - 1] == directory);
        if known.contains(list[0]) {
            lemma_unknown_is_complete(rest, known, directory);
        } else {
            let tail = unknown(rest, known.insert(list[0]));
            lemma_unknown_is_complete(rest, known.insert(list[0]), directory);
            let j = choose|j: int| 0 <= j < tail.len() && tail[j] == directory;
            assert(unknown(list, known)[j + 1] == directory);
        }
    }
}

/// No file of an update is written before the directories that it stands in: each of
/// them is known from the start, or is made by an earlier step.
pub proof fn law_directories_come_first(
    known: Set<Seq<char>>,
    files: Seq<Seq<char>>,
    index: nat,
    k: int,
    directory: Seq<char>,
)
    requires
        0 <= k < unpacking(known, files, index).len(),
        unpacking(known, files, index)[k] is WriteFile,
        directories_of(
            files[unpacking(known, files, index)[k]->index as int],
        ).contains(directory),
    ensures
        known.contains(directory) || unpacking(known, files, index).take(k).contains(
            ExtractStepView::CreateDirectory(directory),
        ),
    decreases files.len() - index,
{
    let steps = unpacking(known, files, index);
    let own = file_steps(known, index, files[index as int]);
    let made = unknown(directories_of(files[index as int]), known);
    let later = known.union(directories_of(files[index as int]).to_set());
    let rest = unpacking(later, files, index + 1);
    assert(own.len() == made.len() + 1);
    let wanted = ExtractStepView::CreateDirectory(directory);
    if !known.contains(directory) {
        if k < own.len() {
            assert(steps[k] == own[k]);
            assert(k == made.len());
            lemma_unknown_is_complete(directories_of(files[index as int]), known, directory);
            let j = choose|j: int| 0 <= j < made.len() && made[j] == directory;
            assert(steps.take(k)[j] == wanted);
        } else {
            let later_k = k - own.len();
            assert(steps[k] == rest[later_k]);
            law_directories_come_first(later, files, index + 1, later_k, directory);
            if rest.take(later_k).contains(wanted) {
                let j = choose|j: int| 0 <= j < later_k && rest.take(later_k)[j] == wanted;
                assert(steps.take(k)[own.len() + j] == wanted);
            } else {
                assert(directories_of(files[index as int]).to_set().contains(directory));
                lemma_unknown_is_complete(directories_of(files[index as int]), known, directory);
                let j = choose|j: int| 0 <= j < made.len() && made[j] == directory;
                assert(steps.take(k)[j] == wanted);
            }
        }
    }
}

/// The path of a file is that of the innermost directory that it stands in, a
/// separator and its own name.
pub proof fn law_files_stand_in_their_directories(path: Seq<char>)
    requires
        names_of(path).len() > 1,
    ensures
        directories_of(path).len() == names_of(path).len() - 1,
        joined(names_of(path)) == directories_of(path).last() + "\\"@ + names_of(path).last(),
        directories_of(path)[0] == names_of(path)[0],
{
    let names = names_of(path);
    assert(names.take(names.len() - 1) =~= names.drop_last());
    assert(names.take(1)[0] == names[0]);
}

proof fn lemma_unknown_is_new(list: Seq<Seq<char>>, known: Set<Seq<char>>)
    ensures
        forall|i: int|
            0 <= i < unknown(list, known).len() ==> !known.contains(
                #[trigger] unknown(list, known)[i],
            ) && list.contains(unknown(list, known)[i]),
        forall|i: int, j: int|
            0 <= i < j < unknown(list, known).len() ==> #[trigger] unknown(list, known)[i]
                != #[trigger] unknown(list, known)[j],
    decreases list.len(),
{
    if list.len() > 0 {
        let rest = list.drop_first();
        let next = if known.contains(list[0]) {
            known
        } else {
            known.insert(list[0])
        };
        let tail = unknown(rest, next);
        lemma_unknown_is_new(rest, next);
        assert forall|i: int| 0 <= i < tail.len() implies list.contains(#[trigger] tail[i]) by {
            assert(rest.contains(tail[i]));
            let k = choose|k: int| 0 <= k < rest.len() && rest[k] == tail[i];
            assert(list[k + 1] == tail[i]);
        }
        let all = unknown(list, known);
        if known.contains(list[0]) {
            assert(all == tail);
        } else {
            assert(all =~= seq![list[0]] + tail);
            assert forall|i: int| 0 <= i < all.len() implies !known.contains(#[trigger] all[i])
                && list.contains(all[i]) by {
                if i == 0 {
                    assert(list[0] == all[0]);
                } else {
                    assert(all[i] == tail[i - 1]);
                }
            }
            assert forall|i: int, j: int| 0 <= i < j < all.len() implies #[trigger] all[i]
                != #[trigger] all[j] by {
                assert(all[j] == tail[j - 1]);
                if i > 0 {
                    assert(all[i] == tail[i - 1]);
                }
            }
        }
    }
}

/// No directory is made twice, and none that is known from the start.
pub proof fn law_directories_are_made_once(
    known: Set<Seq<char>>,
    files: Seq<Seq<char>>,
    index: nat,
    k: int,
    l: int,
)
    requires
        0 <= k < unpacking(known, files, index).len(),
        0 <= l < unpacking(known, files, index).len(),
        unpacking(known, files, index)[k] is CreateDirectory,
        k != l,
    ensures
        !known.contains(unpacking(known, files, index)[k]->CreateDirectory_0),
        unpacking(known, files, index)[k] != unpacking(known, files, index)[l],
    decreases files.len() - index,
{
    let steps = unpacking(known, files, index);
    let path = files[index as int];
    let own = file_steps(known, index, path);
    let made = unknown(directories_of(path), known);
    let later = known.union(directories_of(path).to_set());
    let rest = unpacking(later, files, index + 1);
    assert(own.len() == made.len() + 1);
    lemma_unknown_is_new(directories_of(path), known);
    if k < own.len() {
        assert(steps[k] == own[k]);
        assert(k < made.len() && own[k] == ExtractStepView::CreateDirectory(made[k]));
        if l < own.len() {
            assert(steps[l] == own[l]);
            if l < made.len() {
                assert(own[l] == ExtractStepView::CreateDirectory(made[l]));
                if k < l {
                    assert(made[k] != made[l]);
                } else {
                    assert(made[l] != made[k]);
                }
            }
        } else {
            assert(steps[l] == rest[l - own.len()]);
            if rest[l - own.len()] is CreateDirectory && rest.len() > 1 {
                let other = if l - own.len() == 0 {
                    1int
                } else {
                    0int
                };
                law_directories_are_made_once(later, files, index + 1, l - own.len(), other);
                assert(directories_of(path).to_set().contains(made[k]));
            } else if rest[l - own.len()] is CreateDirectory {
                lemma_unpacking_ends_with_a_file(later, files, index + 1);
            }
        }
    } else {
        assert(steps[k] == rest[k - own.len()]);
        if l < own.len() {
            assert(steps[l] == own[l]);
            if rest.len() > 1 {
                let other = if k - own.len() == 0 {
                    1int
                } else {
                    0int
                };
                law_directories_are_made_once(later, files, index + 1, k - own.len(), other);
            } else {
                lemma_unpacking_ends_with_a_file(later, files, index + 1);
            }
            if l < made.len() {
                assert(own[l] == ExtractStepView::CreateDirectory(made[l]));
                assert(directories_of(path).to_set().contains(made[l]));
            }
        } else {
            assert(steps[l] == rest[l - own.len()]);
            law_directories_are_made_once(later, files, index + 1, k - own.len(), l - own.len());
        }
    }
}

proof fn lemma_unpacking_ends_with_a_file(
    known: Set<Seq<char>>,
    files: Seq<Seq<char>>,
    index: nat,
)
    requires
        unpacking(known, files, index).len() > 0,
    ensures
        unpacking(known, files, index).last() is WriteFile,
    decreases files.len() - index,
{
    let path = files[index as int];
    let own = file_steps(known, index, path);
    let later = known.union(directories_of(path).to_set());
    let rest = unpacking(later, files, index + 1);
    if rest.len() > 0 {
        lemma_unpacking_ends_with_a_file(later, files, index + 1);
        assert(unpacking(known, files, index).last() == rest.last());
    } else {
        assert(unpacking(known, files, index).last() == own.last());
    }
}

/// Every file of an update up to the first refused one is written, under its own
/// number and the names of its path.
pub proof fn law_every_file_is_written(
    known: Set<Seq<char>>,
    files: Seq<Seq<char>>,
    index: nat,
    i: int,
)
    requires
        index <= i < files.len(),
        forall|j: int| index <= j <= i ==> embeddable(#[trigger] files[j]),
    ensures
        unpacking(known, files, index).contains(
            ExtractStepView::WriteFile { index: i as nat, path: joined(names_of(files[i])) },
        ),
    decreases files.len() - index,
{
    let path = files[index as int];
    let own = file_steps(known, index, path);
    let later = known.union(directories_of(path).to_set());
    let rest = unpacking(later, files, index + 1);
    let wanted = ExtractStepView::WriteFile { index: i as nat, path: joined(names_of(files[i])) };
    assert(embeddable(files[index as int]));
    if i == index {
        assert(unpacking(known, files, index)[own.len() - 1] == wanted);
    } else {
        law_every_file_is_written(later, files, index + 1, i);
        let k = choose|k: int| 0 <= k < rest.len() && rest[k] == wanted;
        assert(unpacking(known, files, index)[own.len() + k] == wanted);
    }
}

/// What is written are files of the update whose paths are accepted, each once and in
/// their order.
pub proof fn law_files_are_written_in_order(
    known: Set<Seq<char>>,
    files: Seq<Seq<char>>,
    index: nat,
    k: int,
    l: int,
)
    requires
        0 <= k <= l < unpacking(known, files, index).len(),
        unpacking(known, files, index)[k] is WriteFile,
        unpacking(known, files, index)[l] is WriteFile,
    ensures
        index <= unpacking(known, files, index)[k]->index < files.len(),
        embeddable(files[unpacking(known, files, index)[k]->index as int]),
        unpacking(known, files, index)[k]->path == joined(
            names_of(files[unpacking(known, files, index)[k]->index as int]),
        ),
        k < l ==> unpacking(known, files, index)[k]->index < unpacking(
            known,
            files,
            index,
        )[l]->index,
    decreases files.len() - index,
{
    let steps = unpacking(known, files, index);
    let path = files[index as int];
    let own = file_steps(known, index, path);
    let later = known.union(directories_of(path).to_set());
    let rest = unpacking(later, files, index + 1);
    if l < own.len() {
        assert(steps[k] == own[k] && steps[l] == own[l]);
    } else {
        assert(steps[l] == rest[l - own.len()]);
        if k < own.len() {
            assert(steps[k] == own[k]);
            law_files_are_written_in_order(later, files, index + 1, l - own.len(), l - own.len());
        } else {
            assert(steps[k] == rest[k - own.len()]);
            law_files_are_written_in_order(later, files, index + 1, k - own.len(), l - own.len());
        }
    }
}

/// Nothing is refused exactly where the paths of all files and of the program are
/// accepted; else the refused path is the first that is not.
pub proof fn law_first_refused_path_is_told(files: Seq<Seq<char>>, index: nat, exe: Seq<char>)
    requires
        index <= files.len(),
    ensures
        match first_refused(files, index, exe) {
            None => embeddable(exe) && forall|i: int|
                index <= i < files.len() ==> embeddable(#[trigger] files[i]),
            Some(path) => !embeddable(path) && ({
                ||| path == exe && forall|i: int|
                    index <= i < files.len() ==> embeddable(#[trigger] files[i])
                ||| exists|i: int|
                    index <= i < files.len() && #[trigger] files[i] == path && forall|j: int|
                        index <= j < i ==> embeddable(#[trigger] files[j])
            }),
        },
    decreases files.len() - index,
{
    if index < files.len() {
        if embeddable(files[index as int]) {
            law_first_refused_path_is_told(files, index + 1, exe);
            if let Some(path) = first_refused(files, index, exe) {
                if exists|i: int|
                    index + 1 <= i < files.len() && #[trigger] files[i] == path && forall|j: int|
                        index + 1 <= j < i ==> embeddable(#[trigger] files[j]) {
                    let i = choose|i: int|
                        index + 1 <= i < files.len() && #[trigger] files[i] == path && forall|
                            j: int,
                        |
                            index + 1 <= j < i ==> embeddable(#[trigger] files[j]);
                    assert(files[i] == path);
                }
            }
        } else {
            assert(files[index as int] == first_refused(files, index, exe)->0);
        }
    }
}

/// Accepts the program of an update only as a file of its own.
pub fn ensure_regular_file(path: &str, is_file: bool, attributes: u32) -> (r: Result<(), String>)
    ensures
        match r {
            Ok(()) => is_file && attributes & FILE_ATTRIBUTE_REPARSE_POINT == 0,
            Err(e) => !(is_file && attributes & FILE_ATTRIBUTE_REPARSE_POINT == 0) && e@
                == "Embedded executable is not a regular file: "@ + path@,
        },
{
    if is_file && attributes & FILE_ATTRIBUTE_REPARSE_POINT == 0 {
        return Ok(());
    }
    let mut text: String = "Embedded executable is not a regular file: ".to_owned();
    text.append(path);
    Err(text)
}

/// Accepts the opened path of an update only as a directory of its own.
pub fn ensure_own_directory(path: &str, is_dir: bool, attributes: u32) -> (r: Result<(), String>)
    ensures
        match r {
            Ok(()) => is_dir && attributes & FILE_ATTRIBUTE_REPARSE_POINT == 0,
            Err(e) => !(is_dir && attributes & FILE_ATTRIBUTE_REPARSE_POINT == 0) && e@
                == "Protected update path is not a directory: "@ + path@,
        },
{
    if is_dir && attributes & FILE_ATTRIBUTE_REPARSE_POINT == 0 {
        return Ok(());
    }
    let mut text: String = "Protected update path is not a directory: ".to_owned();
    text.append(path);
    Err(text)
}

/// How a failed action on a path is told.
pub fn path_error(action: &str, path: &str, error: &str) -> (r: String)
    ensures
        r@ == action@ + " "@ + path@ + ": "@ + error@,
{
    let mut text: String = action.to_owned();
    text.append(" ");
    text.append(path);
    text.append(": ");
    text.append(error);
    text
}

/// The error of a directory that was made but could not be opened, and was then
/// removed or was not.
pub fn cleanup_create_failure(create_error: String, path: &str, cleanup_error: Option<String>) -> (r:
    String)
    ensures
        r@ == match cleanup_error {
            None => create_error@,
            Some(error) => create_error@ + "; cleanup failed for "@ + path@ + ": "@ + error@,
        },
{
    match cleanup_error {
        None => create_error,
        Some(error) => {
            let mut text = create_error;
            text.append("; cleanup failed for ");
            text.append(path);
            text.append(": ");
            text.append(error.as_str());
            text
        },
    }
}

/// The name of the directory for random bytes.
pub fn update_directory_name(bytes: &[u8]) -> (r: String)
    requires
        bytes@.len() == RANDOM_BYTE_COUNT,
    ensures
        r@ == UPDATE_DIR_PREFIX@ + crate::text::hex(bytes@),
{
    let suffix = hex_text(bytes);
    let mut name: String = UPDATE_DIR_PREFIX.to_owned();
    name.append(suffix.as_str());
    name
}

/// How making a directory went.
#[derive(Debug)]
pub enum CreateResult {
    Created,
    AlreadyExists,
    Failed(String),
}

/// What follows an attempt to make the directory.
#[derive(Debug)]
pub enum CreateNext {
    Done,
    /// Try another name.
    TryAgain,
    Failed(String),
}

/// The attempts to make a directory of a name that is not taken.
#[derive(Debug)]
pub struct CreateAttempts {
    pub failed: usize,
}

impl CreateAttempts {
    pub fn new() -> (r: CreateAttempts)
        ensures
            r.failed == 0,
    {
        CreateAttempts { failed: 0 }
    }

    /// Takes how an attempt went. A taken name is tried again with another one, as
    /// often as is allowed.
    pub fn create(&mut self, result: CreateResult) -> (r: CreateNext)
        requires
            old(self).failed < CREATE_ATTEMPTS,
        ensures
            r is TryAgain <==> tries_again(old(self).failed as nat, result),
            match result {
                CreateResult::Created => r is Done && final(self).failed == old(self).failed,
                CreateResult::Failed(e) => r == CreateNext::Failed(e) && final(self).failed
                    == old(self).failed,
                CreateResult::AlreadyExists => {
                    &&& final(self).failed == old(self).failed + 1
                    &&& if final(self).failed < CREATE_ATTEMPTS {
                        r is TryAgain
                    } else {
                        r matches CreateNext::Failed(e) && e@
                            == "Failed to create a unique protected update directory"@
                    }
                },
            },
    {
        match result {
            CreateResult::Created => CreateNext::Done,
            CreateResult::Failed(e) => CreateNext::Failed(e),
            CreateResult::AlreadyExists => {
                self.failed = self.failed + 1;
                if self.failed < CREATE_ATTEMPTS {
                    CreateNext::TryAgain
                } else {
                    CreateNext::Failed(
                        "Failed to create a unique protected update directory".to_owned(),
                    )
                }
            },
        }
    }
}

/// The length of a path that ends before the first zero.
pub fn program_data_length(path: &[u16]) -> (r: Result<usize, &'static str>)
    ensures
        match r {
            Ok(length) => length < path@.len() && path@[length as int] == 0 && (forall|k: int|
                0 <= k < length ==> path@[k] != 0),
            Err(e) => e@ == "ProgramData path is invalid"@ && (forall|k: int|
                0 <= k < path@.len() ==> path@[k] != 0),
        },
{
    let mut i: usize = 0;
    while i < path.len()
        invariant
            i <= path@.len(),
            forall|k: int| 0 <= k < i ==> path@[k] != 0,
        decreases path@.len() - i,
    {
        if path[i] == 0 {
            return Ok(i);
        }
        i = i + 1;
    }
    Err("ProgramData path is invalid")
}

/// Whether another name is tried, when so many were taken before.
pub open spec fn tries_again(failed: nat, result: CreateResult) -> bool {
    result is AlreadyExists && failed + 1 < CREATE_ATTEMPTS
}

/// Another name is tried only because a name is taken, and no more than 16 are tried.
pub proof fn law_names_are_tried_sixteen_times(failed: nat, result: CreateResult)
    ensures
        tries_again(failed, CreateResult::AlreadyExists) <==> failed < 15,
        !(result is AlreadyExists) ==> !tries_again(failed, result),
{
}

} // verus!
