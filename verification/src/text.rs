//! Text primitives over `Seq<char>` models: searching, trimming, splitting and
//! decimal numbers.
use vstd::prelude::*;

verus! {

/// `str::eq`: two strings are equal when they hold the same characters.
#[verifier::external_body]
fn str_eq(a: &str, b: &str) -> (r: bool)
    ensures
        r == (a@ == b@),
{
    a.eq(b)
}

/// `String::push` appends one character.
#[verifier::external_body]
fn push_char(s: &mut String, c: char)
    ensures
        final(s)@ == old(s)@.push(c),
{
    s.push(c)
}

/// What `str::to_lowercase` returns for a text.
pub uninterp spec fn lowercased(s: Seq<char>) -> Seq<char>;

/// The ASCII lower-case form of one character.
pub open spec fn ascii_lower(c: char) -> char {
    if 'A' <= c <= 'Z' {
        (c as u8 + 32) as char
    } else {
        c
    }
}

/// `str::to_lowercase` maps a text by Unicode's lower-case mapping. On an ASCII
/// text that is the ASCII mapping of each letter; for other texts the result
/// is only named.
#[verifier::external_body]
pub(crate) fn to_lowercase(s: &str) -> (r: String)
    ensures
        r@ == lowercased(s@),
        (forall|i: int| 0 <= i < s@.len() ==> (#[trigger] s@[i]) as u32 <= 0x7f) ==> r@ == s@.map_values(
            |c: char| ascii_lower(c),
        ),
{
    s.to_lowercase()
}

/// Whether two texts hold the same characters.
pub fn same_text(a: &str, b: &str) -> (r: bool)
    ensures
        r == (a@ == b@),
{
    str_eq(a, b)
}

/// The characters of a text.
pub fn chars_of(s: &str) -> (r: Vec<char>)
    ensures
        r@ == s@,
{
    let mut out: Vec<char> = Vec::new();
    for c in it: s.chars()
        invariant
            it.seq() == s@,
            out@ == s@.take(it.index() as int),
    {
        proof {
            assert(s@.take(it.index() as int + 1) =~= s@.take(it.index() as int).push(c));
        }
        out.push(c);
    }
    assert(s@.take(s@.len() as int) =~= s@);
    out
}

/// The text made of a run of characters.
pub fn text_of(chars: &Vec<char>, from: usize, to: usize) -> (r: String)
    requires
        from <= to <= chars.len(),
    ensures
        r@ == chars@.subrange(from as int, to as int),
{
    let mut out: String = String::new();
    let mut i: usize = from;
    while i < to
        invariant
            from <= i <= to <= chars.len(),
            out@ == chars@.subrange(from as int, i as int),
        decreases to - i,
    {
        push_char(&mut out, chars[i]);
        i = i + 1;
        assert(chars@.subrange(from as int, i as int) =~= chars@.subrange(from as int, i - 1).push(
            chars@[i - 1],
        ));
    }
    out
}

/// `pattern` stands in `s` at position `i`.
pub open spec fn occurs_at(s: Seq<char>, pattern: Seq<char>, i: int) -> bool {
    &&& 0 <= i
    &&& i + pattern.len() <= s.len()
    &&& s.subrange(i, i + pattern.len()) == pattern
}

/// `pattern` stands somewhere in `s`.
pub open spec fn occurs_in(s: Seq<char>, pattern: Seq<char>) -> bool {
    exists|i: int| occurs_at(s, pattern, i)
}

fn matches_at(s: &Vec<char>, pattern: &Vec<char>, at: usize) -> (r: bool)
    requires
        at <= s.len(),
    ensures
        r == occurs_at(s@, pattern@, at as int),
{
    if s.len() - at < pattern.len() {
        return false;
    }
    let mut i: usize = 0;
    while i < pattern.len()
        invariant
            i <= pattern.len(),
            at + pattern.len() <= s.len(),
            forall|k: int| 0 <= k < i ==> s@[at + k] == pattern@[k],
        decreases pattern.len() - i,
    {
        if s[at + i] != pattern[i] {
            proof {
                assert(s@.subrange(at as int, at + pattern@.len())[i as int] == s@[at + i]);
            }
            return false;
        }
        i = i + 1;
    }
    assert(s@.subrange(at as int, at + pattern@.len()) =~= pattern@);
    true
}

/// Whether `s` starts with `prefix`.
pub fn starts_with(s: &str, prefix: &str) -> (r: bool)
    ensures
        r == prefix@.is_prefix_of(s@),
{
    let chars = chars_of(s);
    let wanted = chars_of(prefix);
    let found = matches_at(&chars, &wanted, 0);
    found
}

/// Whether `s` ends with `suffix`.
pub fn ends_with(s: &str, suffix: &str) -> (r: bool)
    ensures
        r == suffix@.is_suffix_of(s@),
{
    let chars = chars_of(s);
    let wanted = chars_of(suffix);
    if chars.len() < wanted.len() {
        return false;
    }
    let found = matches_at(&chars, &wanted, chars.len() - wanted.len());
    found
}

/// Whether `pattern` occurs in `s`.
pub fn contains_text(s: &str, pattern: &str) -> (r: bool)
    ensures
        r == occurs_in(s@, pattern@),
{
    let chars = chars_of(s);
    let wanted = chars_of(pattern);
    let mut i: usize = 0;
    while i < chars.len()
        invariant
            chars@ == s@,
            wanted@ == pattern@,
            i <= chars.len(),
            forall|k: int| 0 <= k < i ==> !occurs_at(s@, pattern@, k),
        decreases chars.len() - i,
    {
        if matches_at(&chars, &wanted, i) {
            return true;
        }
        i = i + 1;
    }
    let found = matches_at(&chars, &wanted, i);
    found
}

/// A character of Unicode's `White_Space` property.
pub open spec fn white_space(c: char) -> bool {
    ||| 0x9 <= c as u32 <= 0xd
    ||| c as u32 == 0x20
    ||| c as u32 == 0x85
    ||| c as u32 == 0xa0
    ||| c as u32 == 0x1680
    ||| 0x2000 <= c as u32 <= 0x200a
    ||| c as u32 == 0x2028
    ||| c as u32 == 0x2029
    ||| c as u32 == 0x202f
    ||| c as u32 == 0x205f
    ||| c as u32 == 0x3000
}

/// Whether a character is white space.
pub fn is_white_space(c: char) -> (r: bool)
    ensures
        r == white_space(c),
{
    let code: u32 = c as u32;
    (0x9 <= code && code <= 0xd) || code == 0x20 || code == 0x85 || code == 0xa0 || code == 0x1680
        || (0x2000 <= code && code <= 0x200a) || code == 0x2028 || code == 0x2029 || code == 0x202f
        || code == 0x205f || code == 0x3000
}

/// A text without its leading white space.
pub open spec fn trimmed_start(s: Seq<char>) -> Seq<char>
    decreases s.len(),
{
    if s.len() > 0 && white_space(s[0]) {
        trimmed_start(s.drop_first())
    } else {
        s
    }
}

/// A text without its trailing white space.
pub open spec fn trimmed_end(s: Seq<char>) -> Seq<char>
    decreases s.len(),
{
    if s.len() > 0 && white_space(s.last()) {
        trimmed_end(s.drop_last())
    } else {
        s
    }
}

/// A text without its leading and trailing white space.
pub open spec fn trimmed(s: Seq<char>) -> Seq<char> {
    trimmed_end(trimmed_start(s))
}

/// Removes leading and trailing white space.
pub fn trim(s: &str) -> (r: String)
    ensures
        r@ == trimmed(s@),
{
    let chars = chars_of(s);
    let mut from: usize = 0;
    assert(s@.subrange(0, s@.len() as int) =~= s@);
    while from < chars.len() && is_white_space(chars[from])
        invariant
            chars@ == s@,
            from <= chars.len(),
            trimmed_start(s@) == trimmed_start(s@.subrange(from as int, s@.len() as int)),
        decreases chars.len() - from,
    {
        from = from + 1;
        assert(s@.subrange(from as int - 1, s@.len() as int).drop_first() =~= s@.subrange(
            from as int,
            s@.len() as int,
        ));
    }
    let mut to: usize = chars.len();
    assert(trimmed_start(s@) == s@.subrange(from as int, s@.len() as int));
    while to > from && is_white_space(chars[to - 1])
        invariant
            chars@ == s@,
            from <= to <= chars.len(),
            trimmed(s@) == trimmed_end(s@.subrange(from as int, to as int)),
        decreases to,
    {
        to = to - 1;
        assert(s@.subrange(from as int, to as int + 1).drop_last() =~= s@.subrange(
            from as int,
            to as int,
        ));
    }
    text_of(&chars, from, to)
}

/// The pieces of a text between occurrences of a separator; `n` separators
/// give `n + 1` pieces.
pub open spec fn split_pieces(s: Seq<char>, separator: char) -> Seq<Seq<char>>
    decreases s.len(),
{
    if s.len() == 0 {
        seq![Seq::<char>::empty()]
    } else {
        let before = split_pieces(s.drop_last(), separator);
        if s.last() == separator {
            before.push(Seq::empty())
        } else {
            before.drop_last().push(before.last().push(s.last()))
        }
    }
}

/// The views of a list of texts.
pub open spec fn texts(list: Seq<String>) -> Seq<Seq<char>> {
    list.map_values(|s: String| s@)
}

pub(crate) proof fn lemma_texts_push(list: Seq<String>, s: String)
    ensures
        texts(list.push(s)) == texts(list).push(s@),
{
    assert(texts(list.push(s)) =~= texts(list).push(s@));
}

/// Splits a text at each separator.
pub fn split_on(s: &str, separator: char) -> (r: Vec<String>)
    ensures
        texts(r@) == split_pieces(s@, separator),
{
    let chars = chars_of(s);
    let mut out: Vec<String> = Vec::new();
    let mut from: usize = 0;
    let mut i: usize = 0;
    assert(s@.take(0) =~= Seq::<char>::empty());
    assert(s@.subrange(0, 0) =~= Seq::<char>::empty());
    assert(texts(out@).push(s@.subrange(0, 0)) =~= split_pieces(s@.take(0), separator));
    while i < chars.len()
        invariant
            chars@ == s@,
            from <= i <= chars.len(),
            texts(out@).push(s@.subrange(from as int, i as int)) == split_pieces(
                s@.take(i as int),
                separator,
            ),
        decreases chars.len() - i,
    {
        let c = chars[i];
        let ghost before = split_pieces(s@.take(i as int), separator);
        assert(s@.take(i + 1).drop_last() =~= s@.take(i as int));
        assert(before.last() == s@.subrange(from as int, i as int));
        assert(before.drop_last() =~= texts(out@));
        if c == separator {
            let piece = text_of(&chars, from, i);
            proof {
                lemma_texts_push(out@, piece);
            }
            out.push(piece);
            from = i + 1;
            assert(s@.subrange(from as int, i + 1) =~= Seq::<char>::empty());
        } else {
            assert(s@.subrange(from as int, i + 1) =~= s@.subrange(from as int, i as int).push(c));
        }
        i = i + 1;
    }
    assert(s@.take(s@.len() as int) =~= s@);
    let piece = text_of(&chars, from, chars.len());
    proof {
        lemma_texts_push(out@, piece);
    }
    out.push(piece);
    out
}

/// The words of a text: its maximal runs without white space.
pub open spec fn words(s: Seq<char>) -> Seq<Seq<char>>
    decreases s.len(),
{
    if s.len() == 0 {
        Seq::empty()
    } else {
        let before = words(s.drop_last());
        if white_space(s.last()) {
            before
        } else if s.len() >= 2 && !white_space(s[s.len() - 2]) {
            before.drop_last().push(before.last().push(s.last()))
        } else {
            before.push(seq![s.last()])
        }
    }
}

/// Splits a text at white space, without empty words.
pub fn split_words(s: &str) -> (r: Vec<String>)
    ensures
        texts(r@) == words(s@),
{
    let chars = chars_of(s);
    let mut out: Vec<String> = Vec::new();
    let mut from: usize = 0;
    let mut i: usize = 0;
    assert(texts(out@) =~= words(s@.take(0)));
    while i < chars.len()
        invariant
            chars@ == s@,
            from <= i <= chars.len(),
            from < i <==> (i > 0 && !white_space(s@[i - 1])),
            words(s@.take(i as int)) == if from < i {
                texts(out@).push(s@.subrange(from as int, i as int))
            } else {
                texts(out@)
            },
        decreases chars.len() - i,
    {
        let c = chars[i];
        assert(s@.take(i + 1).drop_last() =~= s@.take(i as int));
        if is_white_space(c) {
            if from < i {
                let word = text_of(&chars, from, i);
                proof {
                    lemma_texts_push(out@, word);
                }
                out.push(word);
            }
            from = i + 1;
        } else {
            proof {
                if from < i {
                    let before = words(s@.take(i as int));
                    assert(before.drop_last() =~= texts(out@));
                    assert(s@.subrange(from as int, i + 1) =~= s@.subrange(from as int, i as int).push(
                        c,
                    ));
                } else {
                    assert(s@.subrange(from as int, i + 1) =~= seq![c]);
                }
            }
        }
        i = i + 1;
    }
    assert(s@.take(s@.len() as int) =~= s@);
    if from < chars.len() {
        let word = text_of(&chars, from, chars.len());
        proof {
            lemma_texts_push(out@, word);
        }
        out.push(word);
    }
    out
}

/// The lines of a text: its pieces between line feeds, each without one carriage
/// return before the line feed, and without an empty piece after the last one.
pub open spec fn line_texts(s: Seq<char>) -> Seq<Seq<char>> {
    let pieces = split_pieces(s, '\n');
    let ended = pieces.drop_last().map_values(|p: Seq<char>| without_carriage_return(p));
    if pieces.last().len() == 0 {
        ended
    } else {
        ended.push(pieces.last())
    }
}

/// A line without one trailing carriage return.
pub open spec fn without_carriage_return(line: Seq<char>) -> Seq<char> {
    if line.len() > 0 && line.last() == '\r' {
        line.drop_last()
    } else {
        line
    }
}

pub(crate) proof fn lemma_split_nonempty(s: Seq<char>, separator: char)
    ensures
        split_pieces(s, separator).len() >= 1,
    decreases s.len(),
{
    if s.len() > 0 {
        lemma_split_nonempty(s.drop_last(), separator);
    }
}

fn strip_carriage_return(line: &str) -> (r: String)
    ensures
        r@ == without_carriage_return(line@),
{
    let chars = chars_of(line);
    if chars.len() > 0 && chars[chars.len() - 1] == '\r' {
        assert(chars@.subrange(0, chars@.len() - 1) =~= chars@.drop_last());
        text_of(&chars, 0, chars.len() - 1)
    } else {
        line.to_owned()
    }
}

/// Splits a text into lines.
pub fn lines(s: &str) -> (r: Vec<String>)
    ensures
        texts(r@) == line_texts(s@),
{
    let pieces = split_on(s, '\n');
    let ghost parts = split_pieces(s@, '\n');
    let ghost ended = parts.drop_last().map_values(|p: Seq<char>| without_carriage_return(p));
    proof {
        lemma_split_nonempty(s@, '\n');
        assert(pieces@.len() == parts.len());
    }
    let mut out: Vec<String> = Vec::new();
    let mut i: usize = 0;
    assert(texts(out@) =~= ended.take(0));
    while i < pieces.len() - 1
        invariant
            pieces.len() >= 1,
            texts(pieces@) == parts,
            ended == parts.drop_last().map_values(|p: Seq<char>| without_carriage_return(p)),
            i <= pieces.len() - 1,
            texts(out@) == ended.take(i as int),
        decreases pieces.len() - i,
    {
        let line = strip_carriage_return(pieces[i].as_str());
        proof {
            lemma_texts_push(out@, line);
            assert(texts(pieces@)[i as int] == pieces@[i as int]@);
            assert(ended.take(i + 1) =~= ended.take(i as int).push(line@));
        }
        out.push(line);
        i = i + 1;
    }
    assert(ended.take(i as int) =~= ended);
    let last = &pieces[i];
    assert(texts(pieces@)[i as int] == last@);
    if !last.as_str().is_empty() {
        proof {
            lemma_texts_push(out@, *last);
        }
        out.push(last.clone());
    }
    out
}

/// The decimal digit for a value below ten.
pub open spec fn digit(d: nat) -> char {
    (48 + d) as u8 as char
}

/// The decimal notation of a number, without leading zeros.
pub open spec fn decimal(n: nat) -> Seq<char>
    decreases n,
{
    if n < 10 {
        seq![digit(n)]
    } else {
        decimal(n / 10).push(digit(n % 10))
    }
}

/// Writes a number in decimal.
pub fn decimal_text(n: u64) -> (r: String)
    ensures
        r@ == decimal(n as nat),
    decreases n,
{
    let last: char = (48u8 + (n % 10) as u8) as char;
    let mut out: String = if n < 10 {
        String::new()
    } else {
        decimal_text(n / 10)
    };
    push_char(&mut out, last);
    proof {
        if n < 10 {
            assert(out@ =~= seq![digit(n as nat)]);
        }
    }
    out
}

/// The value of a run of decimal digits, or nothing if another character or no
/// character at all is in it.
pub open spec fn digits_value(s: Seq<char>) -> Option<nat>
    decreases s.len(),
{
    if s.len() == 0 || !('0' <= s.last() <= '9') {
        None
    } else {
        let d = (s.last() as u8 - 48) as nat;
        if s.len() == 1 {
            Some(d)
        } else {
            match digits_value(s.drop_last()) {
                Some(v) => Some(10 * v + d),
                None => None,
            }
        }
    }
}

/// The number that a text denotes: decimal digits after an optional plus sign.
pub open spec fn number_value(s: Seq<char>) -> Option<nat> {
    if s.len() > 0 && s[0] == '+' {
        digits_value(s.drop_first())
    } else {
        digits_value(s)
    }
}

/// The number that a text denotes, where it is at most `limit`.
pub open spec fn bounded_number(s: Seq<char>, limit: nat) -> Option<nat> {
    match number_value(s) {
        Some(v) if v <= limit => Some(v),
        _ => None,
    }
}

proof fn lemma_digits_prefix(s: Seq<char>, k: int)
    requires
        0 < k <= s.len(),
        digits_value(s) is Some,
    ensures
        digits_value(s.take(k)) is Some,
        digits_value(s.take(k))->0 <= digits_value(s)->0,
    decreases s.len(),
{
    if k == s.len() {
        assert(s.take(k) =~= s);
    } else {
        lemma_digits_prefix(s.drop_last(), k);
        assert(s.drop_last().take(k) =~= s.take(k));
    }
}

/// Reads an unsigned number that is at most `limit`.
pub fn parse_number(s: &str, limit: u64) -> (r: Option<u64>)
    ensures
        match r {
            Some(n) => bounded_number(s@, limit as nat) == Some(n as nat),
            None => bounded_number(s@, limit as nat) is None,
        },
{
    let chars = chars_of(s);
    let from: usize = if chars.len() > 0 && chars[0] == '+' {
        1
    } else {
        0
    };
    let ghost digits = s@.subrange(from as int, s@.len() as int);
    proof {
        if from == 1 {
            assert(digits =~= s@.drop_first());
        } else {
            assert(digits =~= s@);
        }
    }
    if chars.len() == from {
        return None;
    }
    let mut value: u64 = 0;
    let mut i: usize = from;
    while i < chars.len()
        invariant
            chars@ == s@,
            from <= i <= chars.len(),
            from < chars.len(),
            digits == s@.subrange(from as int, s@.len() as int),
            number_value(s@) == digits_value(digits),
            i > from ==> digits_value(digits.take(i - from)) == Some(value as nat),
            i == from ==> value == 0,
            value <= limit,
        decreases chars.len() - i,
    {
        let c = chars[i];
        let ghost k = i - from;
        proof {
            assert(digits.take(k + 1).drop_last() =~= digits.take(k));
            assert(digits.take(k + 1).last() == c);
            if digits_value(digits) is Some {
                lemma_digits_prefix(digits, k + 1);
            }
        }
        if !('0' <= c && c <= '9') {
            return None;
        }
        let d: u64 = (c as u8 - 48) as u64;
        if value > (u64::MAX - d) / 10 {
            return None;
        }
        value = value * 10 + d;
        if value > limit {
            return None;
        }
        i = i + 1;
    }
    assert(digits.take(digits.len() as int) =~= digits);
    Some(value)
}

/// Reading the decimal notation of a number gives the number back.
pub proof fn law_decimal_round_trip(n: nat)
    ensures
        number_value(decimal(n)) == Some(n),
{
    lemma_decimal_digits(n);
}

proof fn lemma_decimal_digits(n: nat)
    ensures
        digits_value(decimal(n)) == Some(n),
        decimal(n).len() > 0,
        '0' <= decimal(n)[0] <= '9',
    decreases n,
{
    if n >= 10 {
        lemma_decimal_digits(n / 10);
        assert(decimal(n).drop_last() =~= decimal(n / 10));
    }
}

/// A text with each occurrence of a pattern replaced, from left to right and
/// without overlaps.
pub open spec fn replaced(s: Seq<char>, pattern: Seq<char>, with: Seq<char>) -> Seq<char>
    decreases s.len(),
{
    if pattern.len() == 0 || s.len() < pattern.len() {
        s
    } else if occurs_at(s, pattern, 0) {
        with + replaced(s.skip(pattern.len() as int), pattern, with)
    } else {
        seq![s[0]] + replaced(s.drop_first(), pattern, with)
    }
}

/// Replaces each occurrence of a pattern.
pub fn replace_text(s: &str, pattern: &str, with: &str) -> (r: String)
    requires
        pattern@.len() > 0,
    ensures
        r@ == replaced(s@, pattern@, with@),
{
    let chars = chars_of(s);
    let wanted = chars_of(pattern);
    let mut out: String = String::new();
    let mut i: usize = 0;
    assert(s@.skip(0) =~= s@);
    assert(out@ + replaced(s@, pattern@, with@) =~= replaced(s@, pattern@, with@));
    while i < chars.len()
        invariant
            chars@ == s@,
            wanted@ == pattern@,
            pattern@.len() > 0,
            i <= chars.len(),
            out@ + replaced(s@.skip(i as int), pattern@, with@) == replaced(s@, pattern@, with@),
        decreases chars.len() - i,
    {
        let ghost rest = s@.skip(i as int);
        let ghost before = out@;
        if matches_at(&chars, &wanted, i) {
            proof {
                assert(rest.subrange(0, pattern@.len() as int) =~= s@.subrange(
                    i as int,
                    i + pattern@.len(),
                ));
                assert(rest.skip(pattern@.len() as int) =~= s@.skip(i + pattern@.len()));
            }
            out.append(with);
            i = i + wanted.len();
            assert(out@ + replaced(s@.skip(i as int), pattern@, with@) =~= before + (with@
                + replaced(s@.skip(i as int), pattern@, with@)));
        } else {
            proof {
                if rest.len() >= pattern@.len() {
                    assert(rest.subrange(0, pattern@.len() as int) =~= s@.subrange(
                        i as int,
                        i + pattern@.len(),
                    ));
                } else {
                    assert(replaced(rest, pattern@, with@) =~= seq![rest[0]] + rest.drop_first());
                    assert(replaced(rest.drop_first(), pattern@, with@) == rest.drop_first());
                }
                assert(rest.drop_first() =~= s@.skip(i + 1));
            }
            push_char(&mut out, chars[i]);
            i = i + 1;
            assert(out@ + replaced(s@.skip(i as int), pattern@, with@) =~= before + (seq![rest[0]]
                + replaced(s@.skip(i as int), pattern@, with@)));
        }
    }
    assert(s@.skip(i as int) =~= Seq::<char>::empty());
    assert(out@ + Seq::<char>::empty() =~= out@);
    out
}

/// The lower-case hexadecimal digit for a value below sixteen.
pub open spec fn hex_digit(d: nat) -> char {
    if d < 10 {
        (48 + d) as u8 as char
    } else {
        (87 + d) as u8 as char
    }
}

/// Each byte as two lower-case hexadecimal digits.
pub open spec fn hex(bytes: Seq<u8>) -> Seq<char> {
    Seq::new(
        2 * bytes.len(),
        |i: int|
            if i % 2 == 0 {
                hex_digit(bytes[i / 2] as nat / 16)
            } else {
                hex_digit(bytes[i / 2] as nat % 16)
            },
    )
}

fn hex_char(d: u8) -> (r: char)
    requires
        d < 16,
    ensures
        r == hex_digit(d as nat),
{
    if d < 10 {
        (48u8 + d) as char
    } else {
        (87u8 + d) as char
    }
}

/// Writes bytes as lower-case hexadecimal digits.
pub fn hex_text(bytes: &[u8]) -> (r: String)
    ensures
        r@ == hex(bytes@),
{
    let mut out: String = String::new();
    let mut i: usize = 0;
    assert(out@ =~= hex(bytes@.take(0)));
    while i < bytes.len()
        invariant
            i <= bytes.len(),
            out@ == hex(bytes@.take(i as int)),
        decreases bytes.len() - i,
    {
        let b: u8 = bytes[i];
        push_char(&mut out, hex_char(b / 16));
        push_char(&mut out, hex_char(b % 16));
        i = i + 1;
        assert(out@ =~= hex(bytes@.take(i as int)));
    }
    assert(bytes@.take(i as int) =~= bytes@);
    out
}

/// The text in an optional string.
pub open spec fn text_view(s: Option<String>) -> Option<Seq<char>> {
    match s {
        Some(t) => Some(t@),
        None => None,
    }
}

/// Copies an optional text.
pub fn clone_text(s: &Option<String>) -> (r: Option<String>)
    ensures
        text_view(r) == text_view(*s),
{
    match s {
        Some(t) => Some(t.clone()),
        None => None,
    }
}

/// Whether a list holds a text.
pub fn list_contains(list: &Vec<String>, entry: &str) -> (r: bool)
    ensures
        r == texts(list@).contains(entry@),
{
    let mut i: usize = 0;
    while i < list.len()
        invariant
            i <= list.len(),
            forall|k: int| 0 <= k < i ==> (#[trigger] list@[k])@ != entry@,
        decreases list.len() - i,
    {
        if same_text(list[i].as_str(), entry) {
            assert(texts(list@)[i as int] == entry@);
            return true;
        }
        i = i + 1;
    }
    proof {
        if texts(list@).contains(entry@) {
            let k = choose|k: int|
                0 <= k < texts(list@).len() && texts(list@)[k] == entry@;
            assert(list@[k]@ == entry@);
        }
    }
    false
}

/// Whether two lists of texts are the same.
pub fn same_list(a: &Vec<String>, b: &Vec<String>) -> (r: bool)
    ensures
        r == (texts(a@) == texts(b@)),
{
    let ghost x = texts(a@);
    let ghost y = texts(b@);
    if a.len() != b.len() {
        assert(x.len() != y.len());
        return false;
    }
    let mut i: usize = 0;
    while i < a.len()
        invariant
            a.len() == b.len(),
            x == texts(a@),
            y == texts(b@),
            i <= a.len(),
            forall|k: int| 0 <= k < i ==> x[k] == y[k],
        decreases a.len() - i,
    {
        if !same_text(a[i].as_str(), b[i].as_str()) {
            assert(x[i as int] != y[i as int]);
            return false;
        }
        i = i + 1;
    }
    assert(x =~= y);
    true
}

/// Appending a decimal digit multiplies a number by ten and adds the digit; a digit
/// alone is its own value, a plus sign before the digits says nothing, and any other
/// character, or none at all, makes a text no number.
pub proof fn law_numbers_are_decimal(s: Seq<char>, c: char)
    ensures
        number_value(s) is Some && '0' <= c <= '9' ==> number_value(s.push(c)) == Some(
            (10 * number_value(s)->0 + (c as u32 - 48)) as nat,
        ),
        '0' <= c <= '9' ==> number_value(seq![c]) == Some((c as u32 - 48) as nat),
        '0' <= c <= '9' ==> number_value(seq!['+', c]) == Some((c as u32 - 48) as nat),
        s.len() > 0 && !('0' <= c <= '9') ==> number_value(s.push(c)) is None,
        !('0' <= c <= '9') ==> number_value(seq![c]) is None,
        number_value(Seq::empty()) is None,
{
    assert(s.push(c).drop_last() =~= s);
    assert(seq![c].drop_last() =~= Seq::<char>::empty());
    assert(seq!['+', c].drop_first() =~= seq![c]);
    if s.len() > 0 && s[0] == '+' {
        assert(s.push(c).drop_first() =~= s.drop_first().push(c));
        assert(s.drop_first().push(c).drop_last() =~= s.drop_first());
    }
    assert(Seq::<char>::empty().push(c).drop_last() =~= Seq::<char>::empty());
    assert(seq![c].drop_first() =~= Seq::<char>::empty());
}

/// A number is read exactly where it is at most the limit.
pub proof fn law_numbers_have_a_limit(s: Seq<char>, limit: nat)
    ensures
        bounded_number(s, limit) is Some <==> number_value(s) is Some && number_value(s)->0
            <= limit,
        bounded_number(s, limit) is Some ==> bounded_number(s, limit) == number_value(s),
{
}

/// The decimal notation of a number holds digits alone and begins with a zero only
/// where the number is zero.
pub proof fn law_decimal_has_no_leading_zero(n: nat)
    ensures
        decimal(n).len() > 0,
        forall|i: int| 0 <= i < decimal(n).len() ==> '0' <= #[trigger] decimal(n)[i] <= '9',
        decimal(n)[0] == '0' <==> n == 0,
        n >= 10 ==> decimal(n).drop_last() == decimal(n / 10),
    decreases n,
{
    if n >= 10 {
        law_decimal_has_no_leading_zero(n / 10);
        assert(decimal(n).drop_last() =~= decimal(n / 10));
    }
}

/// The pieces of two texts with the separator between them are those of the one and
/// then those of the other.
pub proof fn law_pieces_add_up(a: Seq<char>, separator: char, b: Seq<char>)
    ensures
        split_pieces(a.push(separator) + b, separator) == split_pieces(a, separator)
            + split_pieces(b, separator),
    decreases b.len(),
{
    let whole = a.push(separator) + b;
    if b.len() == 0 {
        assert(whole.drop_last() =~= a);
        assert(split_pieces(whole, separator) =~= split_pieces(a, separator) + split_pieces(
            b,
            separator,
        ));
    } else {
        let front = b.drop_last();
        law_pieces_add_up(a, separator, front);
        lemma_split_nonempty(front, separator);
        assert(whole.drop_last() =~= a.push(separator) + front);
        let before = split_pieces(a, separator) + split_pieces(front, separator);
        assert(before.last() == split_pieces(front, separator).last());
        assert(split_pieces(whole, separator) =~= split_pieces(a, separator) + split_pieces(
            b,
            separator,
        ));
    }
}

/// A text without the separator is its only piece.
pub proof fn law_unsplit_text_is_one_piece(s: Seq<char>, separator: char)
    requires
        !s.contains(separator),
    ensures
        split_pieces(s, separator) == seq![s],
    decreases s.len(),
{
    if s.len() > 0 {
        let front = s.drop_last();
        assert forall|i: int| 0 <= i < front.len() implies front[i] != separator by {
            assert(s[i] == front[i]);
            assert(s.contains(s[i]));
        }
        law_unsplit_text_is_one_piece(front, separator);
        assert(s.contains(s[s.len() - 1]));
        assert(front.push(s.last()) =~= s);
    }
    assert(s.len() == 0 ==> s =~= Seq::<char>::empty());
    assert(split_pieces(s, separator) =~= seq![s]);
}

/// White space parts words and is in none of them; a text without it is one word.
pub proof fn law_words_are_parted_by_white_space(a: Seq<char>, c: char, b: Seq<char>)
    requires
        white_space(c),
    ensures
        words(a.push(c) + b) == words(a) + words(b),
        b.len() > 0 && (forall|i: int| 0 <= i < b.len() ==> !white_space(#[trigger] b[i])) ==> words(
            b,
        ) == seq![b],
        words(Seq::empty()).len() == 0,
    decreases b.len(),
{
    let whole = a.push(c) + b;
    if b.len() == 0 {
        assert(whole.drop_last() =~= a);
        assert(words(whole) =~= words(a) + words(b));
    } else {
        let front = b.drop_last();
        law_words_are_parted_by_white_space(a, c, front);
        assert(whole.drop_last() =~= a.push(c) + front);
        let before = words(a) + words(front);
        if !white_space(b.last()) {
            if b.len() >= 2 {
                assert(whole[whole.len() - 2] == b[b.len() - 2]);
                if !white_space(b[b.len() - 2]) {
                    lemma_last_word(front);
                    assert(before.last() == words(front).last());
                    assert(before.drop_last().push(before.last().push(b.last())) =~= words(a)
                        + words(b));
                } else {
                    assert(before.push(seq![b.last()]) =~= words(a) + words(b));
                }
            } else {
                assert(whole[whole.len() - 2] == c);
                assert(before.push(seq![b.last()]) =~= words(a) + words(b));
            }
        }
        if forall|i: int| 0 <= i < b.len() ==> !white_space(#[trigger] b[i]) {
            assert forall|i: int| 0 <= i < front.len() implies !white_space(#[trigger] front[i]) by {
                assert(front[i] == b[i]);
            }
            assert(!white_space(b[b.len() - 1]));
            if front.len() == 0 {
                assert(seq![b.last()] =~= b);
                assert(words(b) =~= seq![b]);
            } else {
                assert(!white_space(b[b.len() - 2]));
                assert(front.push(b.last()) =~= b);
                assert(words(b) =~= seq![b]);
            }
        }
    }
}

proof fn lemma_last_word(s: Seq<char>)
    requires
        s.len() > 0,
        !white_space(s.last()),
    ensures
        words(s).len() > 0,
{
}

/// The first line of a text ends at its first line feed, without a carriage return
/// before it; the other lines are those of the rest.
pub proof fn law_lines_end_at_line_feeds(line: Seq<char>, rest: Seq<char>)
    requires
        !line.contains('\n'),
    ensures
        line_texts(line.push('\n') + rest) == seq![
            if line.len() > 0 && line.last() == '\r' {
                line.drop_last()
            } else {
                line
            },
        ] + line_texts(rest),
        line.len() > 0 ==> line_texts(line) == seq![line],
        line.len() == 0 ==> line_texts(line).len() == 0,
{
    law_pieces_add_up(line, '\n', rest);
    law_unsplit_text_is_one_piece(line, '\n');
    lemma_split_nonempty(rest, '\n');
    let tail = split_pieces(rest, '\n');
    let all = seq![line] + tail;
    let strip = |p: Seq<char>| without_carriage_return(p);
    assert(all.drop_last() =~= seq![line] + tail.drop_last());
    assert(all.last() == tail.last());
    assert(all.drop_last().map_values(strip) =~= seq![without_carriage_return(line)]
        + tail.drop_last().map_values(strip));
    assert(line_texts(line.push('\n') + rest) =~= seq![without_carriage_return(line)]
        + line_texts(rest));
    assert(seq![line].drop_last().map_values(strip) =~= Seq::<Seq<char>>::empty());
    assert(line.len() > 0 ==> line_texts(line) =~= seq![line]);
}

/// Trimming takes white space from both ends and nothing else: what is left neither
/// begins nor ends with it.
pub proof fn law_trimming_takes_only_white_space(s: Seq<char>)
    ensures
        exists|from: int, to: int|
            0 <= from <= to <= s.len() && trimmed(s) == #[trigger] s.subrange(from, to) && (forall|
                i: int,
            |
                0 <= i < from || to <= i < s.len() ==> white_space(#[trigger] s[i])),
        trimmed(s).len() > 0 ==> !white_space(trimmed(s)[0]) && !white_space(trimmed(s).last()),
{
    lemma_trimmed_start(s);
    let start = trimmed_start(s);
    lemma_trimmed_end(start);
    let from = s.len() - start.len();
    let to = from + trimmed(s).len();
    assert(trimmed(s) =~= s.subrange(from, to));
    assert forall|i: int| 0 <= i < from || to <= i < s.len() implies white_space(
        #[trigger] s[i],
    ) by {
        if to <= i {
            assert(start[i - from] == s[i]);
        }
    }
    if trimmed(s).len() > 0 {
        assert(trimmed(s)[0] == start[0]);
    }
}

proof fn lemma_trimmed_start(s: Seq<char>)
    ensures
        trimmed_start(s).len() <= s.len(),
        trimmed_start(s) == s.skip(s.len() - trimmed_start(s).len()),
        forall|i: int|
            0 <= i < s.len() - trimmed_start(s).len() ==> white_space(#[trigger] s[i]),
        trimmed_start(s).len() > 0 ==> !white_space(trimmed_start(s)[0]),
    decreases s.len(),
{
    if s.len() > 0 && white_space(s[0]) {
        let rest = s.drop_first();
        lemma_trimmed_start(rest);
        let k = rest.len() - trimmed_start(rest).len();
        assert(s.skip(k + 1) =~= rest.skip(k));
        assert forall|i: int| 0 <= i < k + 1 implies white_space(#[trigger] s[i]) by {
            if i > 0 {
                assert(rest[i - 1] == s[i]);
            }
        }
    } else {
        assert(s.skip(0) =~= s);
    }
}

proof fn lemma_trimmed_end(s: Seq<char>)
    ensures
        trimmed_end(s).len() <= s.len(),
        trimmed_end(s) == s.take(trimmed_end(s).len() as int),
        forall|i: int| trimmed_end(s).len() <= i < s.len() ==> white_space(#[trigger] s[i]),
        trimmed_end(s).len() > 0 ==> !white_space(trimmed_end(s).last()),
    decreases s.len(),
{
    if s.len() > 0 && white_space(s.last()) {
        let rest = s.drop_last();
        lemma_trimmed_end(rest);
        let k = trimmed_end(rest).len() as int;
        assert(s.take(k) =~= rest.take(k));
        assert forall|i: int| k <= i < s.len() implies white_space(#[trigger] s[i]) by {
            if i < rest.len() {
                assert(rest[i] == s[i]);
            }
        }
    } else {
        assert(s.take(s.len() as int) =~= s);
    }
}

/// Of the ASCII characters, the tab, the four behind it and the space are white space
/// and no others.
pub proof fn law_ascii_white_space(c: char)
    ensures
        (c as u32) < 128 ==> (white_space(c) <==> c == '\t' || c == '\n' || c as u32 == 11
            || c as u32 == 12 || c == '\r' || c == ' '),
        white_space(c) ==> c as u32 <= 0x3000,
        '!' <= c <= '~' ==> !white_space(c),
{
}

/// A text in which a pattern does not occur is left as it is; otherwise the first
/// occurrence is replaced, and what is behind it is treated in the same way.
pub proof fn law_replacing_goes_from_left_to_right(
    s: Seq<char>,
    pattern: Seq<char>,
    with: Seq<char>,
    at: int,
)
    requires
        pattern.len() > 0,
    ensures
        !occurs_in(s, pattern) ==> replaced(s, pattern, with) == s,
        occurs_at(s, pattern, at) && (forall|j: int| 0 <= j < at ==> !occurs_at(s, pattern, j))
            ==> replaced(s, pattern, with) == s.take(at) + with + replaced(
            s.skip(at + pattern.len()),
            pattern,
            with,
        ),
    decreases s.len(),
{
    if s.len() >= pattern.len() {
        let rest = s.drop_first();
        if !occurs_at(s, pattern, 0) {
            law_replacing_goes_from_left_to_right(rest, pattern, with, at - 1);
            assert forall|j: int| occurs_at(rest, pattern, j) == (j >= 0 && occurs_at(
                s,
                pattern,
                j + 1,
            )) by {
                if 0 <= j && j + pattern.len() <= rest.len() {
                    assert(rest.subrange(j, j + pattern.len()) =~= s.subrange(
                        j + 1,
                        j + 1 + pattern.len(),
                    ));
                }
            }
            if !occurs_in(s, pattern) {
                if occurs_in(rest, pattern) {
                    let j = choose|j: int| occurs_at(rest, pattern, j);
                    assert(occurs_at(s, pattern, j + 1));
                }
                assert(seq![s[0]] + rest =~= s);
            }
            if occurs_at(s, pattern, at) && (forall|j: int|
                0 <= j < at ==> !occurs_at(s, pattern, j)) {
                assert(occurs_at(rest, pattern, at - 1));
                assert forall|j: int| 0 <= j < at - 1 implies !occurs_at(rest, pattern, j) by {
                    assert(!occurs_at(s, pattern, j + 1));
                }
                assert(rest.skip(at - 1 + pattern.len()) =~= s.skip(at + pattern.len()));
                assert(seq![s[0]] + (rest.take(at - 1) + with + replaced(
                    s.skip(at + pattern.len()),
                    pattern,
                    with,
                )) =~= s.take(at) + with + replaced(s.skip(at + pattern.len()), pattern, with));
            }
        } else if occurs_at(s, pattern, at) && (forall|j: int|
            0 <= j < at ==> !occurs_at(s, pattern, j)) {
            assert(at == 0);
            assert(s.take(0) + with =~= with);
        }
    }
}

/// A pattern stands in a text exactly where the text is the pattern with something, or
/// nothing, on either side.
pub proof fn law_occurrences_split_a_text(a: Seq<char>, pattern: Seq<char>, b: Seq<char>)
    ensures
        occurs_at(a + pattern + b, pattern, a.len() as int),
        occurs_in(a + pattern + b, pattern),
{
    let s = a + pattern + b;
    assert(s.subrange(a.len() as int, a.len() as int + pattern.len()) =~= pattern);
    assert(occurs_at(s, pattern, a.len() as int));
}

/// Bytes are written as two digits each, in their order; the digits of a byte give it
/// back, sixteens first.
pub proof fn law_hex_digits_give_bytes_back(bytes: Seq<u8>, i: int)
    requires
        0 <= i < bytes.len(),
    ensures
        hex(bytes).len() == 2 * bytes.len(),
        exists|high: nat, low: nat|
            high < 16 && low < 16 && bytes[i] == 16 * high + low && hex(bytes)[2 * i]
                == "0123456789abcdef"@[high as int] && hex(bytes)[2 * i + 1]
                == #[trigger] "0123456789abcdef"@[low as int] && #[trigger] hex_digit(high)
                == hex(bytes)[2 * i],
{
    reveal_strlit("0123456789abcdef");
    let high = bytes[i] as nat / 16;
    let low = bytes[i] as nat % 16;
    assert((2 * i) % 2 == 0 && (2 * i) / 2 == i);
    assert((2 * i + 1) % 2 == 1 && (2 * i + 1) / 2 == i);
    assert(hex(bytes)[2 * i] == hex_digit(high));
    assert(hex(bytes)[2 * i + 1] == hex_digit(low));
    assert(hex(bytes)[2 * i + 1] == "0123456789abcdef"@[low as int]);
    assert(hex(bytes)[2 * i] == "0123456789abcdef"@[high as int]);
}

/// The 26 upper-case letters of ASCII become the lower-case ones in the same order; every
/// other character stays as it is.
pub proof fn law_ascii_letters_in_lower_case(c: char)
    ensures
        c == 'A' ==> ascii_lower(c) == 'a',
        c == 'Z' ==> ascii_lower(c) == 'z',
        'A' <= c <= 'Z' ==> 'a' <= ascii_lower(c) <= 'z' && ascii_lower(c) as u8 == c as u8 + 32,
        !('A' <= c <= 'Z') ==> ascii_lower(c) == c,
        ascii_lower(ascii_lower(c)) == ascii_lower(c),
{
}

} // verus!
