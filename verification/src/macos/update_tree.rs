//! What the bundle of an update may hold.
use crate::text::{ends_with, same_text, starts_with};
use vstd::prelude::*;

verus! {

/// An entry of a bundle, links not followed.
#[derive(Debug)]
pub struct UpdateNode {
    pub path: String,
    /// The last part of the path, where it is text.
    pub name: Option<String>,
    pub entry: UpdateEntry,
}

/// What stands at a path of a bundle. The paths of links and directories come
/// with every link in them resolved, or with the error of resolving them.
#[derive(Debug)]
pub enum UpdateEntry {
    /// The path could not be looked at.
    Unreadable(String),
    Link { target: Result<String, String> },
    /// A directory, with the entries that could be read and the error that ended
    /// the reading.
    Directory {
        resolved: Result<String, String>,
        children: Vec<UpdateNode>,
        failure: Option<String>,
    },
    File,
    Other,
}

/// A resolved path lies at or below another one.
pub open spec fn path_within(path: Seq<char>, root: Seq<char>) -> bool {
    path == root || (root + "/"@).is_prefix_of(path) || (root == "/"@ && "/"@.is_prefix_of(path))
}

fn is_within(path: &str, root: &str) -> (r: bool)
    ensures
        r == path_within(path@, root@),
{
    let mut below: String = root.to_owned();
    below.append("/");
    same_text(path, root) || starts_with(path, below.as_str()) || (same_text(root, "/")
        && starts_with(path, "/"))
}

/// A directory of this name holds a framework.
pub open spec fn framework_name(name: Option<String>) -> bool {
    name matches Some(n) && ".framework"@.is_suffix_of(n@)
}

/// The root of the framework that an entry belongs to, given that of the directory
/// that it stands in.
pub open spec fn root_below(node: UpdateNode, root: Option<Result<String, String>>) -> Option<
    Result<String, String>,
> {
    match node.entry {
        UpdateEntry::Directory { resolved, .. } => if framework_name(node.name) {
            Some(resolved)
        } else {
            root
        },
        _ => root,
    }
}

/// An entry is acceptable: below it there are only directories, regular files, and
/// links that stay in the framework that they stand in.
pub open spec fn sound(node: UpdateNode, root: Option<Result<String, String>>) -> bool
    decreases node,
{
    match node.entry {
        UpdateEntry::Unreadable(_) => false,
        UpdateEntry::Other => false,
        UpdateEntry::File => true,
        UpdateEntry::Link { target } => match (root, target) {
            (Some(Ok(root)), Ok(target)) => path_within(target@, root@),
            _ => false,
        },
        UpdateEntry::Directory { resolved, children, failure } => {
            &&& failure is None
            &&& forall|i: int|
                #![trigger children@[i]]
                0 <= i < children@.len() ==> sound(children@[i], root_below(children@[i], root))
        },
    }
}

/// What is wrong with a link.
pub open spec fn link_complaint(
    path: Seq<char>,
    target: Result<String, String>,
    root: Option<Result<String, String>>,
) -> Option<Seq<char>> {
    match root {
        None => Some("[root-update] symlink outside framework: "@ + path),
        Some(root) => match target {
            Err(e) => Some(e@),
            Ok(target) => match root {
                Err(e) => Some(e@),
                Ok(root) => if path_within(target@, root@) {
                    None
                } else {
                    Some("[root-update] symlink in update bundle: "@ + path)
                },
            },
        },
    }
}

/// What is wrong with an entry that is not a directory.
pub open spec fn leaf_complaint(node: UpdateNode, root: Option<Result<String, String>>) -> Option<
    Seq<char>,
> {
    match node.entry {
        UpdateEntry::Unreadable(e) => Some(e@),
        UpdateEntry::Other => Some("[root-update] unsupported file in update bundle: "@ + node.path@),
        UpdateEntry::Link { target } => link_complaint(node.path@, target, root),
        _ => None,
    }
}

/// The text is what is wrong with an entry: with the entry itself, with one below
/// it before which nothing is wrong, or with reading the directory.
pub open spec fn complains(
    node: UpdateNode,
    root: Option<Result<String, String>>,
    text: Seq<char>,
) -> bool
    decreases node,
{
    match node.entry {
        UpdateEntry::Directory { resolved, children, failure } => {
            ||| exists|i: int|
                #![trigger children@[i]]
                0 <= i < children@.len() && complains(
                    children@[i],
                    root_below(children@[i], root),
                    text,
                ) && (forall|k: int|
                    #![trigger children@[k]]
                    0 <= k < i ==> sound(children@[k], root_below(children@[k], root)))
            ||| {
                &&& forall|k: int|
                    #![trigger children@[k]]
                    0 <= k < children@.len() ==> sound(children@[k], root_below(children@[k], root))
                &&& failure matches Some(e) && e@ == text
            }
        },
        _ => leaf_complaint(node, root) == Some(text),
    }
}

fn complaint(text: &str, path: &str) -> (r: String)
    ensures
        r@ == text@ + path@,
{
    let mut out: String = text.to_owned();
    out.append(path);
    out
}

fn validate_link(path: &str, target: &Result<String, String>, root: Option<&Result<String, String>>)
    -> (r: Result<(), String>)
    ensures
        match r {
            Ok(()) => link_complaint(path@, *target, root_view(root)) is None,
            Err(e) => link_complaint(path@, *target, root_view(root)) == Some(e@),
        },
{
    let root = match root {
        None => {
            return Err(complaint("[root-update] symlink outside framework: ", path));
        },
        Some(root) => root,
    };
    let target = match target {
        Err(e) => {
            return Err(e.clone());
        },
        Ok(target) => target,
    };
    let root = match root {
        Err(e) => {
            return Err(e.clone());
        },
        Ok(root) => root,
    };
    if is_within(target.as_str(), root.as_str()) {
        Ok(())
    } else {
        Err(complaint("[root-update] symlink in update bundle: ", path))
    }
}

/// The value behind an optional reference.
pub open spec fn root_view(root: Option<&Result<String, String>>) -> Option<Result<String, String>> {
    match root {
        Some(x) => Some(*x),
        None => None,
    }
}

/// Accepts the bundle of an update, or tells the first thing that is wrong with it.
/// `framework_root` is the root of the framework around the entry.
pub fn validate_update_tree(
    node: &UpdateNode,
    framework_root: Option<&Result<String, String>>,
) -> (r: Result<(), String>)
    ensures
        r is Ok <==> sound(*node, root_view(framework_root)),
        r matches Err(e) ==> complains(*node, root_view(framework_root), e@),
    decreases *node,
{
    match &node.entry {
        UpdateEntry::Unreadable(e) => Err(e.clone()),
        UpdateEntry::Other => Err(
            complaint("[root-update] unsupported file in update bundle: ", node.path.as_str()),
        ),
        UpdateEntry::File => Ok(()),
        UpdateEntry::Link { target } => validate_link(node.path.as_str(), target, framework_root),
        UpdateEntry::Directory { resolved, children, failure } => {
            let ghost root = root_view(framework_root);
            let mut i: usize = 0;
            while i < children.len()
                invariant
                    root == root_view(framework_root),
                    node.entry == (UpdateEntry::Directory {
                        resolved: *resolved,
                        children: *children,
                        failure: *failure,
                    }),
                    i <= children.len(),
                    forall|k: int|
                        #![trigger children@[k]]
                        0 <= k < i ==> sound(children@[k], root_below(children@[k], root)),
                decreases children.len() - i,
            {
                let child = &children[i];
                let is_framework = match &child.name {
                    Some(name) => ends_with(name.as_str(), ".framework"),
                    None => false,
                };
                let child_root: Option<&Result<String, String>> = match &child.entry {
                    UpdateEntry::Directory { resolved, .. } => {
                        if is_framework {
                            Some(resolved)
                        } else {
                            framework_root
                        }
                    },
                    _ => framework_root,
                };
                assert(root_view(child_root) == root_below(children@[i as int], root));
                assert(decreases_to!(*node => node.entry));
                assert(decreases_to!(node.entry => node.entry->children));
                assert(decreases_to!(*children => children@));
                assert(decreases_to!(children@ => children@[i as int]));
                if let Err(e) = validate_update_tree(child, child_root) {
                    return Err(e);
                }
                i = i + 1;
            }
            match failure {
                Some(e) => Err(e.clone()),
                None => Ok(()),
            }
        },
    }
}

/// An entry stands below another one, or is it; with the roots of the frameworks
/// that the two belong to.
pub open spec fn reaches(
    node: UpdateNode,
    root: Option<Result<String, String>>,
    entry: UpdateNode,
    entry_root: Option<Result<String, String>>,
) -> bool
    decreases node,
{
    ||| node == entry && root == entry_root
    ||| match node.entry {
        UpdateEntry::Directory { resolved, children, failure } => exists|i: int|
            #![trigger children@[i]]
            0 <= i < children@.len() && reaches(
                children@[i],
                root_below(children@[i], root),
                entry,
                entry_root,
            ),
        _ => false,
    }
}

/// In an accepted bundle every link, however deep, stays in its framework, and
/// everything else is a directory or a regular file.
pub proof fn law_accepted_links_stay_inside(
    node: UpdateNode,
    root: Option<Result<String, String>>,
    entry: UpdateNode,
    entry_root: Option<Result<String, String>>,
)
    requires
        sound(node, root),
        reaches(node, root, entry, entry_root),
    ensures
        entry.entry is Link || entry.entry is Directory || entry.entry is File,
        entry.entry matches UpdateEntry::Link { target } ==> entry_root matches Some(Ok(r))
            && target matches Ok(t) && path_within(t@, r@),
    decreases node,
{
    if !(node == entry && root == entry_root) {
        match node.entry {
            UpdateEntry::Directory { resolved, children, failure } => {
                let i = choose|i: int|
                    #![trigger children@[i]]
                    0 <= i < children@.len() && reaches(
                        children@[i],
                        root_below(children@[i], root),
                        entry,
                        entry_root,
                    );
                assert(decreases_to!(node => node.entry));
                assert(decreases_to!(children => children@));
                assert(decreases_to!(children@ => children@[i]));
                law_accepted_links_stay_inside(
                    children@[i],
                    root_below(children@[i], root),
                    entry,
                    entry_root,
                );
            },
            _ => {},
        }
    }
}

/// Both directories of an update must lie on one filesystem, so that bundles can
/// be swapped in one step.
pub fn ensure_same_filesystem(left: &str, left_device: u64, right: &str, right_device: u64) -> (r:
    Result<(), String>)
    ensures
        match r {
            Ok(()) => left_device == right_device,
            Err(e) => left_device != right_device && e@
                == "[root-update] atomic bundle swap requires one filesystem: "@ + left@ + " and "@
                + right@,
        },
{
    if left_device == right_device {
        return Ok(());
    }
    let mut text = complaint("[root-update] atomic bundle swap requires one filesystem: ", left);
    text.append(" and ");
    text.append(right);
    Err(text)
}

/// What lies below a path lies behind it and a slash; a path whose name only begins
/// with another's does not.
pub proof fn law_paths_below_a_root(root: Seq<char>, rest: Seq<char>, c: char)
    ensures
        path_within(root, root),
        path_within(root + "/"@ + rest, root),
        c != '/' && root != "/"@ ==> !path_within(root.push(c) + rest, root),
        path_within(rest, root) && rest != root && root != "/"@ ==> rest.len() > root.len()
            && rest[root.len() as int] == '/',
{
    reveal_strlit("/");
    let below = root + "/"@ + rest;
    let prefix = root + "/"@;
    assert(below.subrange(0, prefix.len() as int) =~= prefix);
    let beside = root.push(c) + rest;
    if prefix.is_prefix_of(beside) {
        assert(beside.subrange(0, prefix.len() as int)[root.len() as int] == '/');
    }
    if prefix.is_prefix_of(rest) {
        assert(rest.subrange(0, prefix.len() as int)[root.len() as int] == '/');
    }
}

/// A directory is a framework by the end of its name.
pub proof fn law_framework_names(name: String, front: Seq<char>)
    ensures
        name@ == front + ".framework"@ ==> framework_name(Some(name)),
        framework_name(Some(name)) ==> name@.len() >= 10 && name@.skip(name@.len() - 10)
            == ".framework"@,
        !framework_name(None),
{
    reveal_strlit(".framework");
    if name@ == front + ".framework"@ {
        assert(name@.subrange(name@.len() - 10, name@.len() as int) =~= ".framework"@);
    }
    if framework_name(Some(name)) {
        assert(name@.skip(name@.len() - 10) =~= name@.subrange(
            name@.len() - 10,
            name@.len() as int,
        ));
    }
}

/// A bundle is refused only for an entry in it: one that could not be looked at, a
/// directory that could not be read, a special file, or a link that leaves its
/// framework or stands in none.
pub proof fn law_only_bad_entries_are_refused(
    node: UpdateNode,
    root: Option<Result<String, String>>,
)
    requires
        forall|entry: UpdateNode, entry_root: Option<Result<String, String>>| #[trigger]
            reaches(node, root, entry, entry_root) ==> match entry.entry {
                UpdateEntry::Unreadable(_) => false,
                UpdateEntry::Other => false,
                UpdateEntry::File => true,
                UpdateEntry::Link { target } => target is Ok && entry_root is Some && entry_root->0
                    is Ok && path_within(target->Ok_0@, entry_root->0->Ok_0@),
                UpdateEntry::Directory { resolved, children, failure } => failure is None,
            },
    ensures
        sound(node, root),
    decreases node,
{
    assert(reaches(node, root, node, root));
    match node.entry {
        UpdateEntry::Directory { resolved, children, failure } => {
            assert forall|i: int|
                #![trigger children@[i]]
                0 <= i < children@.len() implies sound(
                children@[i],
                root_below(children@[i], root),
            ) by {
                let child = children@[i];
                let child_root = root_below(child, root);
                assert(decreases_to!(node => node.entry));
                assert(decreases_to!(children => children@));
                assert(decreases_to!(children@ => children@[i]));
                assert forall|entry: UpdateNode, entry_root: Option<Result<String, String>>|
                    #[trigger] reaches(child, child_root, entry, entry_root) implies match entry.entry {
                    UpdateEntry::Unreadable(_) => false,
                    UpdateEntry::Other => false,
                    UpdateEntry::File => true,
                    UpdateEntry::Link { target } => target is Ok && entry_root is Some
                        && entry_root->0 is Ok && path_within(
                        target->Ok_0@,
                        entry_root->0->Ok_0@,
                    ),
                    UpdateEntry::Directory { resolved, children, failure } => failure is None,
                } by {
                    assert(reaches(node, root, entry, entry_root));
                }
                law_only_bad_entries_are_refused(child, child_root);
            }
        },
        _ => {},
    }
}

/// The framework of an entry is that of the directory it stands in, unless it is the
/// directory of a framework itself.
pub proof fn law_frameworks_begin_with_their_directory(
    node: UpdateNode,
    root: Option<Result<String, String>>,
)
    ensures
        node.entry is Directory && framework_name(node.name) ==> root_below(node, root) == Some(
            node.entry->resolved,
        ),
        !(node.entry is Directory) || !framework_name(node.name) ==> root_below(node, root) == root,
{
}

/// A complaint is made of each bundle that is not acceptable and of no other, and there
/// is only one that can be made.
pub proof fn law_one_complaint_of_each_bad_bundle(
    node: UpdateNode,
    root: Option<Result<String, String>>,
    a: Seq<char>,
    b: Seq<char>,
)
    ensures
        !sound(node, root) <==> exists|text: Seq<char>| complains(node, root, text),
        complains(node, root, a) && complains(node, root, b) ==> a == b,
{
    if complains(node, root, a) && complains(node, root, b) {
        lemma_one_complaint(node, root, a, b);
    }
    if !sound(node, root) {
        let text = lemma_some_complaint(node, root);
        assert(complains(node, root, text));
    }
    if exists|text: Seq<char>| complains(node, root, text) {
        let text = choose|text: Seq<char>| complains(node, root, text);
        lemma_one_complaint(node, root, text, text);
    }
}

proof fn lemma_one_complaint(
    node: UpdateNode,
    root: Option<Result<String, String>>,
    a: Seq<char>,
    b: Seq<char>,
)
    requires
        complains(node, root, a),
        complains(node, root, b),
    ensures
        !sound(node, root),
        a == b,
    decreases node,
{
    if let UpdateEntry::Directory { resolved, children, failure } = node.entry {
        assert(decreases_to!(node => node.entry));
        assert(decreases_to!(children => children@));
        let early = |text: Seq<char>, i: int|
            0 <= i < children@.len() && complains(
                children@[i],
                root_below(children@[i], root),
                text,
            ) && (forall|k: int|
                #![trigger children@[k]]
                0 <= k < i ==> sound(children@[k], root_below(children@[k], root)));
        if exists|i: int| #![trigger children@[i]] early(a, i) {
            let i = choose|i: int| #![trigger children@[i]] early(a, i);
            let child = children@[i];
            let below = root_below(child, root);
            assert(decreases_to!(children@ => children@[i]));
            lemma_one_complaint(child, below, a, a);
            assert(exists|j: int| #![trigger children@[j]] early(b, j));
            let j = choose|j: int| #![trigger children@[j]] early(b, j);
            assert(decreases_to!(children@ => children@[j]));
            lemma_one_complaint(children@[j], root_below(children@[j], root), b, b);
            if i == j {
                lemma_one_complaint(child, below, a, b);
            } else if i < j {
                assert(sound(children@[i], root_below(children@[i], root)));
            } else {
                assert(sound(children@[j], root_below(children@[j], root)));
            }
        } else if exists|j: int| #![trigger children@[j]] early(b, j) {
            let j = choose|j: int| #![trigger children@[j]] early(b, j);
            assert(decreases_to!(children@ => children@[j]));
            lemma_one_complaint(children@[j], root_below(children@[j], root), b, b);
            assert(sound(children@[j], root_below(children@[j], root)));
        }
    }
}

proof fn lemma_some_complaint(node: UpdateNode, root: Option<Result<String, String>>) -> (text: Seq<
    char,
>)
    requires
        !sound(node, root),
    ensures
        complains(node, root, text),
    decreases node, 0nat,
{
    match node.entry {
        UpdateEntry::Directory { resolved, children, failure } => {
            if forall|k: int|
                #![trigger children@[k]]
                0 <= k < children@.len() ==> sound(children@[k], root_below(children@[k], root)) {
                failure->0@
            } else {
                let i = lemma_first_bad(children@, root, 0);
                assert(decreases_to!(node => node.entry));
                assert(decreases_to!(children => children@));
                assert(decreases_to!(children@ => children@[i]));
                lemma_some_complaint(children@[i], root_below(children@[i], root))
            }
        },
        _ => leaf_complaint(node, root)->0,
    }
}

proof fn lemma_first_bad(
    children: Seq<UpdateNode>,
    root: Option<Result<String, String>>,
    from: int,
) -> (i: int)
    requires
        0 <= from <= children.len(),
        forall|k: int|
            #![trigger children[k]]
            0 <= k < from ==> sound(children[k], root_below(children[k], root)),
        !(forall|k: int|
            #![trigger children[k]]
            0 <= k < children.len() ==> sound(children[k], root_below(children[k], root))),
    ensures
        0 <= i < children.len(),
        !sound(children[i], root_below(children[i], root)),
        forall|k: int|
            #![trigger children[k]]
            0 <= k < i ==> sound(children[k], root_below(children[k], root)),
    decreases children.len() - from,
{
    if from < children.len() && sound(children[from], root_below(children[from], root)) {
        lemma_first_bad(children, root, from + 1)
    } else {
        from
    }
}

/// A link is refused where it stands in no framework, where it or the framework cannot
/// be resolved, and where it leaves the framework; what is said then names the link or
/// is what went wrong.
pub proof fn law_why_links_are_refused(
    path: Seq<char>,
    target: Result<String, String>,
    root: Option<Result<String, String>>,
)
    ensures
        link_complaint(path, target, root) is None <==> target is Ok && root is Some && root->0 is Ok
            && path_within(target->Ok_0@, root->0->Ok_0@),
        root is None ==> link_complaint(path, target, root) == Some(
            "[root-update] symlink outside framework: "@ + path,
        ),
        root is Some && target is Err ==> link_complaint(path, target, root) == Some(
            target->Err_0@,
        ),
        root is Some && target is Ok && root->0 is Err ==> link_complaint(path, target, root)
            == Some(root->0->Err_0@),
{
}

} // verus!
