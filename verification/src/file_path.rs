//! Paths of files as texts, compared name by name. The names are parted by slashes.
use crate::text::{same_list, same_text, split_on, starts_with};
use vstd::prelude::*;

verus! {

/// A piece between two separators that names something. An empty piece and a dot stand
/// for the place before them.
pub open spec fn names_something() -> spec_fn(Seq<char>) -> bool {
    |piece: Seq<char>| piece.len() > 0 && piece != "."@
}

/// The names in a path.
pub open spec fn path_names(path: Seq<char>) -> Seq<Seq<char>> {
    crate::text::split_pieces(path, '/').filter(names_something())
}

/// A path begins at the place where the program is, by a dot.
pub open spec fn begins_with_dot(path: Seq<char>) -> bool {
    crate::text::split_pieces(path, '/')[0] == "."@
}

/// Two paths are the same, piece by piece: both begin at the root or neither does,
/// both begin with a dot or neither does, and their names are the same.
pub open spec fn same_path_names(a: Seq<char>, b: Seq<char>) -> bool {
    &&& "/"@.is_prefix_of(a) == "/"@.is_prefix_of(b)
    &&& begins_with_dot(a) == begins_with_dot(b)
    &&& path_names(a) == path_names(b)
}

fn names_of_path(path: &str) -> (r: (bool, Vec<String>))
    ensures
        r.0 == begins_with_dot(path@),
        crate::text::texts(r.1@) == path_names(path@),
{
    let pieces = split_on(path, '/');
    let ghost all = crate::text::texts(pieces@);
    proof {
        crate::text::lemma_split_nonempty(path@, '/');
    }
    let dot = same_text(pieces[0].as_str(), ".");
    assert(all[0] == pieces@[0]@);
    let mut names: Vec<String> = Vec::new();
    let mut i: usize = 0;
    assert(all.take(0).filter(names_something()) =~= Seq::<Seq<char>>::empty()) by {
        reveal(Seq::filter);
    }
    assert(crate::text::texts(names@) =~= Seq::<Seq<char>>::empty());
    while i < pieces.len()
        invariant
            i <= pieces.len(),
            all == crate::text::texts(pieces@),
            crate::text::texts(names@) == all.take(i as int).filter(names_something()),
        decreases pieces.len() - i,
    {
        let piece = &pieces[i];
        proof {
            reveal(Seq::filter);
            assert(all.take(i + 1).drop_last() =~= all.take(i as int));
            assert(all.take(i + 1).last() == piece@);
        }
        if !piece.as_str().is_empty() && !same_text(piece.as_str(), ".") {
            proof {
                crate::text::lemma_texts_push(names@, *piece);
            }
            names.push(piece.clone());
        }
        i = i + 1;
    }
    assert(all.take(i as int) =~= all);
    (dot, names)
}

/// Whether two paths are the same, piece by piece.
pub fn same_path(a: &str, b: &str) -> (r: bool)
    ensures
        r == same_path_names(a@, b@),
{
    let (a_dot, a_names) = names_of_path(a);
    let (b_dot, b_names) = names_of_path(b);
    starts_with(a, "/") == starts_with(b, "/") && a_dot == b_dot && same_list(&a_names, &b_names)
}

/// Two paths are the same, piece by piece, or there is neither.
pub open spec fn same_place(a: Option<Seq<char>>, b: Option<Seq<char>>) -> bool {
    match (a, b) {
        (Some(a), Some(b)) => same_path_names(a, b),
        (None, None) => true,
        _ => false,
    }
}

/// Whether two paths are the same, piece by piece, or there is neither.
pub fn same_optional_path(a: &Option<String>, b: &Option<String>) -> (r: bool)
    ensures
        r == same_place(crate::text::text_view(*a), crate::text::text_view(*b)),
{
    match (a, b) {
        (Some(a), Some(b)) => same_path(a.as_str(), b.as_str()),
        (None, None) => true,
        _ => false,
    }
}

/// The names of two paths with a slash between them are those of the one and then
/// those of the other.
pub proof fn law_path_names_add_up(a: Seq<char>, b: Seq<char>)
    ensures
        path_names(a.push('/') + b) == path_names(a) + path_names(b),
        begins_with_dot(a.push('/') + b) == begins_with_dot(a),
{
    crate::text::law_pieces_add_up(a, '/', b);
    crate::text::lemma_split_nonempty(a, '/');
    Seq::filter_distributes_over_add(
        crate::text::split_pieces(a, '/'),
        crate::text::split_pieces(b, '/'),
        names_something(),
    );
}

/// A path without slashes is its only name, unless it is empty or the single dot,
/// which name nothing.
pub proof fn law_plain_path_is_one_name(s: Seq<char>)
    requires
        !s.contains('/'),
    ensures
        s.len() == 0 || s == "."@ ==> path_names(s).len() == 0,
        s.len() > 0 && s != "."@ ==> path_names(s) == seq![s],
        begins_with_dot(s) <==> s == "."@,
{
    crate::text::law_unsplit_text_is_one_piece(s, '/');
    reveal(Seq::filter);
    assert(seq![s].drop_last() =~= Seq::<Seq<char>>::empty());
    assert(Seq::<Seq<char>>::empty().filter(names_something()) =~= Seq::<Seq<char>>::empty());
    assert(Seq::<Seq<char>>::empty().push(s) =~= seq![s]);
}

/// Doubled slashes, single dots between slashes and a slash at the end make no
/// difference to a path.
pub proof fn law_idle_pieces_make_no_difference(a: Seq<char>, b: Seq<char>)
    requires
        a.len() > 0,
    ensures
        same_path_names(a.push('/').push('/') + b, a.push('/') + b),
        same_path_names(a.push('/').push('.').push('/') + b, a.push('/') + b),
        same_path_names(a.push('/'), a),
{
    reveal_strlit("/");
    reveal_strlit(".");
    let none = Seq::<char>::empty();
    let dot = seq!['.'];
    assert(dot =~= "."@);
    law_path_names_add_up(a, b);
    law_path_names_add_up(a.push('/'), b);
    law_path_names_add_up(a, none);
    assert(a.push('/') + none =~= a.push('/'));
    law_plain_path_is_one_name(none);
    law_plain_path_is_one_name(dot);
    law_path_names_add_up(a, dot);
    assert(a.push('/') + dot =~= a.push('/').push('.'));
    law_path_names_add_up(a.push('/').push('.'), b);
    assert(path_names(a) + path_names(none) =~= path_names(a));
    assert(path_names(a) + path_names(dot) =~= path_names(a));
    let x = a.push('/').push('/') + b;
    let y = a.push('/').push('.').push('/') + b;
    let z = a.push('/') + b;
    assert(x.subrange(0, 1) =~= seq![a[0]]);
    assert(y.subrange(0, 1) =~= seq![a[0]]);
    assert(z.subrange(0, 1) =~= seq![a[0]]);
    assert(a.push('/').subrange(0, 1) =~= seq![a[0]]);
    assert(a.subrange(0, 1) =~= seq![a[0]]);
}

/// Paths that are the same have the same names in the same order and begin at the same
/// place; being the same is mutual and passes on.
pub proof fn law_same_paths_agree(a: Seq<char>, b: Seq<char>, c: Seq<char>)
    ensures
        same_path_names(a, a),
        same_path_names(a, b) == same_path_names(b, a),
        same_path_names(a, b) && same_path_names(b, c) ==> same_path_names(a, c),
        same_path_names(a, b) ==> path_names(a) == path_names(b),
        same_path_names(a, b) && a.len() > 0 && b.len() > 0 ==> (a[0] == '/' <==> b[0] == '/'),
{
    reveal_strlit("/");
    if a.len() > 0 {
        assert(a.subrange(0, 1)[0] == a[0]);
        assert("/"@.is_prefix_of(a) <==> a[0] == '/') by {
            if a[0] == '/' {
                assert(a.subrange(0, 1) =~= "/"@);
            }
        }
    }
    if b.len() > 0 {
        assert(b.subrange(0, 1)[0] == b[0]);
        assert("/"@.is_prefix_of(b) <==> b[0] == '/') by {
            if b[0] == '/' {
                assert(b.subrange(0, 1) =~= "/"@);
            }
        }
    }
}

/// A name more or another one at the end makes a different path.
pub proof fn law_different_names_make_different_paths(
    a: Seq<char>,
    name: Seq<char>,
    other: Seq<char>,
)
    requires
        name.len() > 0 && name != "."@ && !name.contains('/'),
        other.len() > 0 && other != "."@ && !other.contains('/'),
        name != other,
    ensures
        !same_path_names(a.push('/') + name, a),
        !same_path_names(a.push('/') + name, a.push('/') + other),
{
    law_path_names_add_up(a, name);
    law_path_names_add_up(a, other);
    law_plain_path_is_one_name(name);
    law_plain_path_is_one_name(other);
    let x = path_names(a) + seq![name];
    let y = path_names(a) + seq![other];
    assert(x.len() == path_names(a).len() + 1);
    assert(x[path_names(a).len() as int] == name);
    assert(y[path_names(a).len() as int] == other);
}

/// Two optional paths are the same place if there is neither, or if both are there and
/// are the same.
pub proof fn law_same_places(a: Option<Seq<char>>, b: Option<Seq<char>>)
    ensures
        same_place(a, b) ==> (a is Some <==> b is Some),
        a is None && b is None ==> same_place(a, b),
        a is Some && b is Some ==> same_place(a, b) == same_path_names(a->0, b->0),
{
}

} // verus!
