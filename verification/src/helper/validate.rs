//! Who may own the files of the helper, and which permissions they may have.
use crate::helper::paths::HelperPaths;
use vstd::prelude::*;

verus! {

pub const ROOT_UID: u32 = 0;

pub const WHEEL_GID: u32 = 0;

/// The permissions of others than the owner to write.
pub const NON_ROOT_WRITE_BITS: u32 = 0o022;

pub const PERMISSION_BITS: u32 = 0o7777;

pub const STICKY_BIT: u32 = 0o1000;

pub const SERVICE_MODE: u32 = 0o755;

pub const CUSTOM_MODE: u32 = 0o600;

pub const LOCK_MODE: u32 = 0o600;

/// The owner that a file must have.
#[derive(Clone, Copy, Debug, PartialEq, Eq, Structural)]
pub struct ExpectedOwner {
    pub uid: u32,
    pub gid: u32,
}

/// What a path names, links not followed.
#[derive(Clone, Copy, Debug, PartialEq, Eq, Structural)]
pub struct FileMeta {
    pub is_symlink: bool,
    pub is_dir: bool,
    pub is_file: bool,
    pub uid: u32,
    pub gid: u32,
    pub mode: u32,
    /// Permissions beyond the mode are attached.
    pub has_acl: bool,
}

/// A number in octal digits.
pub open spec fn octal(n: nat) -> Seq<char>
    decreases n,
{
    if n < 8 {
        seq![crate::text::digit(n)]
    } else {
        octal(n / 8).push(crate::text::digit(n % 8))
    }
}

/// Writes a number in octal digits.
pub fn octal_text(n: u32) -> (r: String)
    ensures
        r@ == octal(n as nat),
    decreases n,
{
    if n < 8 {
        let r = crate::text::decimal_text(n as u64);
        assert(r@ =~= octal(n as nat));
        return r;
    }
    let mut out = octal_text(n / 8);
    let last = crate::text::decimal_text((n % 8) as u64);
    let ghost before = out@;
    out.append(last.as_str());
    assert(out@ =~= before.push(crate::text::digit((n % 8) as nat)));
    out
}

fn complaint(text: &str, path: &str) -> (r: String)
    ensures
        r@ == text@ + path@,
{
    let mut out: String = text.to_owned();
    out.append(path);
    out
}

/// A directory and no link.
pub open spec fn real_directory(meta: FileMeta) -> bool {
    meta.is_dir && !meta.is_symlink
}

/// A file and no link.
pub open spec fn regular_file(meta: FileMeta) -> bool {
    meta.is_file && !meta.is_symlink
}

/// The directory that holds all helpers is acceptable: it belongs to the owner,
/// and others who may write there may not replace what is not theirs.
pub open spec fn good_tools_directory(meta: FileMeta, owner: ExpectedOwner) -> bool {
    &&& real_directory(meta)
    &&& !meta.has_acl
    &&& meta.uid == owner.uid
    &&& meta.mode & NON_ROOT_WRITE_BITS == 0 || meta.mode & STICKY_BIT != 0
}

/// A directory of the helper is acceptable: it belongs to the owner, and nobody
/// else may write there.
pub open spec fn good_directory(meta: FileMeta, owner: ExpectedOwner) -> bool {
    &&& real_directory(meta)
    &&& !meta.has_acl
    &&& meta.uid == owner.uid
    &&& meta.gid == owner.gid
    &&& meta.mode & NON_ROOT_WRITE_BITS == 0
}

/// A file of the helper is acceptable: it belongs to the owner and has exactly the
/// expected permissions.
pub open spec fn good_file(meta: FileMeta, owner: ExpectedOwner, mode: u32) -> bool {
    &&& regular_file(meta)
    &&& !meta.has_acl
    &&& meta.uid == owner.uid
    &&& meta.gid == owner.gid
    &&& meta.mode & PERMISSION_BITS == mode
}

/// What is wrong with the directory that holds all helpers.
pub open spec fn tools_complaint(path: Seq<char>, meta: FileMeta, owner: ExpectedOwner) -> Seq<char> {
    if !real_directory(meta) {
        "Expected a real directory: "@ + path
    } else if meta.has_acl {
        "Extended ACL is not allowed on helper path: "@ + path
    } else if meta.uid != owner.uid {
        "Helper directory is not root-owned: "@ + path
    } else {
        "Non-root-writable helper directory lacks sticky bit: "@ + path
    }
}

/// Checks the directory that holds all helpers.
pub fn validate_privileged_tools_directory(
    path: &str,
    meta: FileMeta,
    owner: ExpectedOwner,
) -> (r: Result<(), String>)
    ensures
        r is Ok <==> good_tools_directory(meta, owner),
        r matches Err(e) ==> e@ == tools_complaint(path@, meta, owner),
{
    if meta.is_symlink || !meta.is_dir {
        return Err(complaint("Expected a real directory: ", path));
    }
    if meta.has_acl {
        return Err(complaint("Extended ACL is not allowed on helper path: ", path));
    }
    let mode: u32 = meta.mode & PERMISSION_BITS;
    proof {
        let m = meta.mode;
        assert((m & 0o7777) & 0o022 == m & 0o022) by (bit_vector);
        assert((m & 0o7777) & 0o1000 == m & 0o1000) by (bit_vector);
    }
    if meta.uid != owner.uid {
        return Err(complaint("Helper directory is not root-owned: ", path));
    }
    if mode & NON_ROOT_WRITE_BITS != 0 && mode & STICKY_BIT == 0 {
        return Err(complaint("Non-root-writable helper directory lacks sticky bit: ", path));
    }
    Ok(())
}

/// What is wrong with a directory of the helper.
pub open spec fn directory_complaint(
    path: Seq<char>,
    meta: FileMeta,
    owner: ExpectedOwner,
) -> Seq<char> {
    if !real_directory(meta) {
        "Expected a real directory: "@ + path
    } else if meta.has_acl {
        "Extended ACL is not allowed on helper path: "@ + path
    } else if meta.uid != owner.uid || meta.gid != owner.gid {
        "Unexpected owner for helper path: "@ + path
    } else {
        "Helper directory is writable by non-root: "@ + path
    }
}

/// Checks a directory of the helper.
pub fn validate_owned_directory(path: &str, meta: FileMeta, owner: ExpectedOwner) -> (r: Result<
    (),
    String,
>)
    ensures
        r is Ok <==> good_directory(meta, owner),
        r matches Err(e) ==> e@ == directory_complaint(path@, meta, owner),
{
    if meta.is_symlink || !meta.is_dir {
        return Err(complaint("Expected a real directory: ", path));
    }
    if meta.has_acl {
        return Err(complaint("Extended ACL is not allowed on helper path: ", path));
    }
    if meta.uid != owner.uid || meta.gid != owner.gid {
        return Err(complaint("Unexpected owner for helper path: ", path));
    }
    if meta.mode & NON_ROOT_WRITE_BITS != 0 {
        return Err(complaint("Helper directory is writable by non-root: ", path));
    }
    Ok(())
}

/// What is wrong with a file of the helper.
pub open spec fn file_complaint(
    path: Seq<char>,
    meta: FileMeta,
    owner: ExpectedOwner,
    mode: u32,
) -> Seq<char> {
    if !regular_file(meta) {
        "Expected a regular file: "@ + path
    } else if meta.has_acl {
        "Extended ACL is not allowed on helper path: "@ + path
    } else if meta.uid != owner.uid || meta.gid != owner.gid {
        "Unexpected owner for helper path: "@ + path
    } else {
        "Unexpected permissions on "@ + path + ": "@ + octal((meta.mode & PERMISSION_BITS) as nat)
            + ", expected "@ + octal(mode as nat)
    }
}

/// Checks a file of the helper.
pub fn validate_owned_file(path: &str, meta: FileMeta, owner: ExpectedOwner, mode: u32) -> (r:
    Result<(), String>)
    ensures
        r is Ok <==> good_file(meta, owner, mode),
        r matches Err(e) ==> e@ == file_complaint(path@, meta, owner, mode),
{
    if meta.is_symlink || !meta.is_file {
        return Err(complaint("Expected a regular file: ", path));
    }
    if meta.has_acl {
        return Err(complaint("Extended ACL is not allowed on helper path: ", path));
    }
    if meta.uid != owner.uid || meta.gid != owner.gid {
        return Err(complaint("Unexpected owner for helper path: ", path));
    }
    let actual: u32 = meta.mode & PERMISSION_BITS;
    if actual != mode {
        let mut text = complaint("Unexpected permissions on ", path);
        text.append(": ");
        let got = octal_text(actual);
        text.append(got.as_str());
        text.append(", expected ");
        let wanted = octal_text(mode);
        text.append(wanted.as_str());
        return Err(text);
    }
    Ok(())
}

/// A path with what is there, or the reason why that is not known.
#[derive(Debug)]
pub struct Found {
    pub path: String,
    pub meta: Result<FileMeta, String>,
}

/// What is there is known and acceptable as a directory above the helper.
pub open spec fn good_ancestor(found: Found) -> bool {
    found.meta matches Ok(meta) && real_directory(meta)
}

/// What is wrong with the first of some directories that is not acceptable.
pub open spec fn ancestors_complaint(ancestors: Seq<Found>) -> Option<Seq<char>>
    decreases ancestors.len(),
{
    if ancestors.len() == 0 {
        None
    } else if ancestors_complaint(ancestors.drop_last()) is Some {
        ancestors_complaint(ancestors.drop_last())
    } else if good_ancestor(ancestors.last()) {
        None
    } else {
        Some(
            match ancestors.last().meta {
                Ok(_) => "Helper ancestor is not a real directory: "@ + ancestors.last().path@,
                Err(error) => error@,
            },
        )
    }
}

proof fn lemma_ancestors_prefix(ancestors: Seq<Found>, k: int)
    requires
        0 <= k <= ancestors.len(),
        ancestors_complaint(ancestors.take(k)) is Some,
    ensures
        ancestors_complaint(ancestors) == ancestors_complaint(ancestors.take(k)),
    decreases ancestors.len(),
{
    if k < ancestors.len() {
        assert(ancestors.drop_last().take(k) =~= ancestors.take(k));
        lemma_ancestors_prefix(ancestors.drop_last(), k);
    } else {
        assert(ancestors.take(k) =~= ancestors);
    }
}

/// Checks the directories above a path, the nearest one first.
pub fn validate_ancestor_directories(ancestors: &Vec<Found>) -> (r: Result<(), String>)
    ensures
        match ancestors_complaint(ancestors@) {
            None => r is Ok,
            Some(text) => r matches Err(e) && e@ == text,
        },
{
    let mut i: usize = 0;
    while i < ancestors.len()
        invariant
            i <= ancestors@.len(),
            ancestors_complaint(ancestors@.take(i as int)) is None,
        decreases ancestors.len() - i,
    {
        let found = &ancestors[i];
        assert(ancestors@.take(i + 1).drop_last() =~= ancestors@.take(i as int));
        match &found.meta {
            Ok(meta) => {
                if meta.is_symlink || !meta.is_dir {
                    proof {
                        lemma_ancestors_prefix(ancestors@, i + 1);
                    }
                    return Err(
                        complaint(
                            "Helper ancestor is not a real directory: ",
                            found.path.as_str(),
                        ),
                    );
                }
            },
            Err(error) => {
                proof {
                    lemma_ancestors_prefix(ancestors@, i + 1);
                }
                return Err(error.clone());
            },
        }
        i = i + 1;
    }
    assert(ancestors@.take(i as int) =~= ancestors@);
    Ok(())
}

/// What is found where a helper bundle should be.
#[derive(Debug)]
pub struct HelperTree {
    pub ancestors: Vec<Found>,
    pub privileged_tools: Result<FileMeta, String>,
    pub bundle: Result<FileMeta, String>,
    pub contents: Result<FileMeta, String>,
    pub macos: Result<FileMeta, String>,
    pub resources: Result<FileMeta, String>,
    pub service: Result<FileMeta, String>,
    /// Nothing where there is no such file.
    pub custom: Result<Option<FileMeta>, String>,
}

/// A helper bundle is acceptable, from the root directory down to its files.
pub open spec fn good_helper_tree(tree: HelperTree, owner: ExpectedOwner) -> bool {
    &&& forall|i: int|
        0 <= i < tree.ancestors@.len() ==> #[trigger] good_ancestor(tree.ancestors@[i])
    &&& tree.privileged_tools matches Ok(meta) && good_tools_directory(meta, owner)
    &&& tree.bundle matches Ok(meta) && good_directory(meta, owner)
    &&& tree.contents matches Ok(meta) && good_directory(meta, owner)
    &&& tree.macos matches Ok(meta) && good_directory(meta, owner)
    &&& tree.resources matches Ok(meta) && good_directory(meta, owner)
    &&& tree.service matches Ok(meta) && good_file(meta, owner, SERVICE_MODE)
    &&& match tree.custom {
        Ok(Some(meta)) => good_file(meta, owner, CUSTOM_MODE),
        Ok(None) => true,
        Err(_) => false,
    }
}

/// What is wrong with what is found where a directory of the helper should be.
pub open spec fn found_directory_complaint(
    path: Seq<char>,
    found: Result<FileMeta, String>,
    owner: ExpectedOwner,
) -> Option<Seq<char>> {
    match found {
        Ok(meta) => if good_directory(meta, owner) {
            None
        } else {
            Some(directory_complaint(path, meta, owner))
        },
        Err(e) => Some(e@),
    }
}

/// What is wrong with what is found where a file of the helper should be.
pub open spec fn found_file_complaint(
    path: Seq<char>,
    found: Result<FileMeta, String>,
    owner: ExpectedOwner,
    mode: u32,
) -> Option<Seq<char>> {
    match found {
        Ok(meta) => if good_file(meta, owner, mode) {
            None
        } else {
            Some(file_complaint(path, meta, owner, mode))
        },
        Err(e) => Some(e@),
    }
}

/// The first complaint of two.
pub open spec fn first_of(a: Option<Seq<char>>, b: Option<Seq<char>>) -> Option<Seq<char>> {
    if a is Some {
        a
    } else {
        b
    }
}

/// The first thing that is wrong with a helper bundle.
pub open spec fn helper_complaint(
    paths: HelperPaths,
    tree: HelperTree,
    owner: ExpectedOwner,
) -> Option<Seq<char>> {
    let tools = match tree.privileged_tools {
        Ok(meta) => if good_tools_directory(meta, owner) {
            None
        } else {
            Some(tools_complaint(paths.privileged_tools@, meta, owner))
        },
        Err(e) => Some(e@),
    };
    let custom = match tree.custom {
        Ok(Some(meta)) => found_file_complaint(
            paths.custom@,
            Ok::<FileMeta, String>(meta),
            owner,
            CUSTOM_MODE,
        ),
        Ok(None) => None,
        Err(e) => Some(e@),
    };
    let files = first_of(
        found_file_complaint(paths.service@, tree.service, owner, SERVICE_MODE),
        custom,
    );
    let lower = first_of(
        found_directory_complaint(paths.macos@, tree.macos, owner),
        first_of(found_directory_complaint(paths.resources@, tree.resources, owner), files),
    );
    let upper = first_of(
        found_directory_complaint(paths.bundle@, tree.bundle, owner),
        first_of(found_directory_complaint(paths.contents@, tree.contents, owner), lower),
    );
    first_of(ancestors_complaint(tree.ancestors@), first_of(tools, upper))
}

fn validate_found_directory(
    path: &str,
    found: &Result<FileMeta, String>,
    owner: ExpectedOwner,
) -> (r: Result<(), String>)
    ensures
        match found_directory_complaint(path@, *found, owner) {
            None => r is Ok,
            Some(text) => r matches Err(e) && e@ == text,
        },
{
    match found {
        Ok(meta) => validate_owned_directory(path, *meta, owner),
        Err(e) => Err(e.clone()),
    }
}

/// Checks a helper bundle, from the root directory down to its files.
pub fn validate_helper_tree(paths: &HelperPaths, tree: &HelperTree, owner: ExpectedOwner) -> (r:
    Result<(), String>)
    ensures
        match helper_complaint(*paths, *tree, owner) {
            None => r is Ok,
            Some(text) => r matches Err(e) && e@ == text,
        },
{
    if let Err(e) = validate_ancestor_directories(&tree.ancestors) {
        return Err(e);
    }
    match &tree.privileged_tools {
        Ok(meta) => {
            if let Err(e) = validate_privileged_tools_directory(
                paths.privileged_tools.as_str(),
                *meta,
                owner,
            ) {
                return Err(e);
            }
        },
        Err(e) => {
            return Err(e.clone());
        },
    }
    if let Err(e) = validate_found_directory(paths.bundle.as_str(), &tree.bundle, owner) {
        return Err(e);
    }
    if let Err(e) = validate_found_directory(paths.contents.as_str(), &tree.contents, owner) {
        return Err(e);
    }
    if let Err(e) = validate_found_directory(paths.macos.as_str(), &tree.macos, owner) {
        return Err(e);
    }
    if let Err(e) = validate_found_directory(paths.resources.as_str(), &tree.resources, owner) {
        return Err(e);
    }
    match &tree.service {
        Ok(meta) => {
            if let Err(e) = validate_owned_file(
                paths.service.as_str(),
                *meta,
                owner,
                SERVICE_MODE,
            ) {
                return Err(e);
            }
        },
        Err(e) => {
            return Err(e.clone());
        },
    }
    match &tree.custom {
        Ok(Some(meta)) => validate_owned_file(paths.custom.as_str(), *meta, owner, CUSTOM_MODE),
        Ok(None) => Ok(()),
        Err(e) => Err(e.clone()),
    }
}

proof fn lemma_good_ancestors(ancestors: Seq<Found>)
    ensures
        ancestors_complaint(ancestors) is None <==> forall|i: int|
            0 <= i < ancestors.len() ==> #[trigger] good_ancestor(ancestors[i]),
    decreases ancestors.len(),
{
    if ancestors.len() > 0 {
        let before = ancestors.drop_last();
        lemma_good_ancestors(before);
        if ancestors_complaint(ancestors) is None {
            assert forall|i: int| 0 <= i < ancestors.len() implies #[trigger] good_ancestor(
                ancestors[i],
            ) by {
                if i < before.len() {
                    assert(before[i] == ancestors[i]);
                }
            }
        }
        if forall|i: int| 0 <= i < ancestors.len() ==> #[trigger] good_ancestor(ancestors[i]) {
            assert forall|i: int| 0 <= i < before.len() implies #[trigger] good_ancestor(
                before[i],
            ) by {
                assert(before[i] == ancestors[i]);
            }
            assert(good_ancestor(ancestors[ancestors.len() - 1]));
        }
    }
}

/// A bundle gives no reason to complain exactly when it is acceptable.
pub proof fn law_no_complaint_means_acceptable(
    paths: HelperPaths,
    tree: HelperTree,
    owner: ExpectedOwner,
)
    ensures
        helper_complaint(paths, tree, owner) is None <==> good_helper_tree(tree, owner),
{
    lemma_good_ancestors(tree.ancestors@);
}

/// Checks the directory that holds the state of a move: an acceptable one that
/// only its owner may enter.
pub fn validate_state_directory(path: &str, meta: FileMeta, owner: ExpectedOwner) -> (r: Result<
    (),
    String,
>)
    ensures
        r is Ok <==> good_directory(meta, owner) && meta.mode & PERMISSION_BITS == 0o700,
        r matches Err(e) ==> e@ == if good_directory(meta, owner) {
            "Unexpected privileged helper migration directory mode: "@ + octal(
                (meta.mode & PERMISSION_BITS) as nat,
            )
        } else {
            directory_complaint(path@, meta, owner)
        },
{
    if let Err(e) = validate_owned_directory(path, meta, owner) {
        return Err(e);
    }
    let mode: u32 = meta.mode & PERMISSION_BITS;
    if mode != 0o700 {
        let mut text: String = "Unexpected privileged helper migration directory mode: ".to_owned();
        let got = octal_text(mode);
        text.append(got.as_str());
        return Err(text);
    }
    Ok(())
}

/// The identity of a file, and what is there.
#[derive(Clone, Copy, Debug, PartialEq, Eq, Structural)]
pub struct FileIdentity {
    pub dev: u64,
    pub ino: u64,
    pub meta: FileMeta,
}

/// Checks a directory after it was made safe: its path still names it, it is
/// acceptable, and it has the mode that it was given.
pub fn validate_hardened_directory(
    path: &str,
    opened: FileIdentity,
    linked: FileIdentity,
    owner: ExpectedOwner,
    mode: u32,
) -> (r: Result<(), String>)
    ensures
        r is Ok <==> real_directory(linked.meta) && opened.dev == linked.dev && opened.ino
            == linked.ino && good_directory(linked.meta, owner) && opened.meta.mode
            & PERMISSION_BITS == mode,
        r matches Err(e) ==> e@ == if !real_directory(linked.meta) || opened.dev != linked.dev
            || opened.ino != linked.ino {
            "Directory path identity changed: "@ + path@
        } else if !good_directory(linked.meta, owner) {
            directory_complaint(path@, linked.meta, owner)
        } else {
            "Unexpected directory mode: "@ + path@
        },
{
    if linked.meta.is_symlink || !linked.meta.is_dir || opened.dev != linked.dev || opened.ino
        != linked.ino {
        return Err(complaint("Directory path identity changed: ", path));
    }
    if let Err(e) = validate_owned_directory(path, linked.meta, owner) {
        return Err(e);
    }
    if opened.meta.mode & PERMISSION_BITS != mode {
        return Err(complaint("Unexpected directory mode: ", path));
    }
    Ok(())
}

/// Whether the service may be maintained by a user.
pub fn require_maintenance_root(effective_uid: u32) -> (r: Result<(), &'static str>)
    ensures
        r is Ok <==> effective_uid == ROOT_UID,
        r matches Err(e) ==> e@ == "macOS service maintenance lock requires root"@,
{
    if effective_uid != ROOT_UID {
        return Err("macOS service maintenance lock requires root");
    }
    Ok(())
}

/// Checks the lock file of maintenance as it was found.
pub fn validate_lock_file(meta: FileMeta) -> (r: Result<(), &'static str>)
    ensures
        r is Ok <==> meta.is_file && meta.uid == ROOT_UID,
        r matches Err(e) ==> e@
            == "macOS service maintenance lock is not a root-owned regular file"@,
{
    if !meta.is_file || meta.uid != ROOT_UID {
        return Err("macOS service maintenance lock is not a root-owned regular file");
    }
    Ok(())
}

/// The lock file that was opened is the one that its path names, and is the superuser's
/// alone.
pub open spec fn holds_lock(opened: FileIdentity, linked: FileIdentity) -> bool {
    &&& linked.meta.is_file
    &&& (opened.dev, opened.ino) == (linked.dev, linked.ino)
    &&& (opened.meta.uid, opened.meta.gid) == (ROOT_UID, WHEEL_GID)
    &&& opened.meta.mode & PERMISSION_BITS == LOCK_MODE
}

/// Checks the lock file of maintenance before it is locked: its path still names
/// it, and only the superuser may use it.
pub fn validate_lock_identity(opened: FileIdentity, linked: FileIdentity) -> (r: Result<
    (),
    &'static str,
>)
    ensures
        r is Ok <==> holds_lock(opened, linked),
        r is Ok <==> linked.meta.is_file && opened.dev == linked.dev && opened.ino == linked.ino
            && opened.meta.uid == ROOT_UID && opened.meta.gid == WHEEL_GID && opened.meta.mode
            & PERMISSION_BITS == LOCK_MODE,
        r matches Err(e) ==> e@
            == "macOS service maintenance lock identity or permissions changed"@,
{
    let mode: u32 = opened.meta.mode & PERMISSION_BITS;
    if !linked.meta.is_file || opened.dev != linked.dev || opened.ino != linked.ino
        || opened.meta.uid != ROOT_UID || opened.meta.gid != WHEEL_GID || mode != LOCK_MODE {
        return Err("macOS service maintenance lock identity or permissions changed");
    }
    Ok(())
}

/// What a failed attempt to lock means: with another holder, that maintenance is
/// going on.
pub fn lock_failure(fail_if_locked: bool, would_block: bool, error: String) -> (r: String)
    ensures
        r@ == if fail_if_locked && would_block {
            "another macOS service maintenance transaction is already running"@
        } else {
            error@
        },
{
    if fail_if_locked && would_block {
        return "another macOS service maintenance transaction is already running".to_owned();
    }
    error
}

/// The error of a file that could not be put in place: its own, or with the
/// failed removal of what was written.
pub fn atomic_write_failure(operation_error: String, cleanup_error: Option<String>) -> (r: String)
    ensures
        r@ == match cleanup_error {
            Some(cleanup) => "Atomic write failed ("@ + operation_error@
                + "); temporary cleanup failed ("@ + cleanup@ + ")"@,
            None => operation_error@,
        },
{
    match cleanup_error {
        Some(cleanup) => {
            let mut text: String = "Atomic write failed (".to_owned();
            text.append(operation_error.as_str());
            text.append("); temporary cleanup failed (");
            text.append(cleanup.as_str());
            text.append(")");
            text
        },
        None => operation_error,
    }
}

/// In an acceptable bundle nobody but the owner can write, anywhere.
pub proof fn law_good_helper_is_closed(tree: HelperTree, owner: ExpectedOwner)
    requires
        good_helper_tree(tree, owner),
    ensures
        tree.bundle matches Ok(meta) && meta.mode & NON_ROOT_WRITE_BITS == 0 && meta.uid
            == owner.uid,
        tree.macos matches Ok(meta) && meta.mode & NON_ROOT_WRITE_BITS == 0 && meta.uid
            == owner.uid,
        tree.service matches Ok(meta) && meta.mode & NON_ROOT_WRITE_BITS == 0 && meta.uid
            == owner.uid && !meta.is_symlink,
{
    let m = tree.service->Ok_0.mode;
    assert(m & 0o7777 == 0o755 ==> m & 0o022 == 0) by (bit_vector);
}

/// Octal digits: appending one multiplies a number by eight and adds the digit.
pub proof fn law_octal_digits(n: nat, d: nat)
    requires
        d < 8,
    ensures
        n > 0 ==> octal(8 * n + d) == octal(n).push((48 + d) as u8 as char),
        octal(d) == seq![(48 + d) as u8 as char],
{
    assert((8 * n + d) / 8 == n && (8 * n + d) % 8 == d);
}

/// What is asked of a directory and of a file of the helper, and what of the directory
/// of all helpers: no links, no further permissions, the right owner, and nothing that
/// others may write; the last may be open to others if they cannot replace what is not
/// theirs.
pub proof fn law_what_is_acceptable(meta: FileMeta, owner: ExpectedOwner, mode: u32)
    ensures
        good_directory(meta, owner) <==> !meta.is_symlink && meta.is_dir && !meta.has_acl
            && meta.uid == owner.uid && meta.gid == owner.gid && meta.mode & 0o022 == 0,
        good_file(meta, owner, mode) <==> !meta.is_symlink && meta.is_file && !meta.has_acl
            && meta.uid == owner.uid && meta.gid == owner.gid && meta.mode & 0o7777 == mode,
        good_tools_directory(meta, owner) <==> !meta.is_symlink && meta.is_dir && !meta.has_acl
            && meta.uid == owner.uid && (meta.mode & 0o022 == 0 || meta.mode & 0o1000 != 0),
        good_directory(meta, owner) ==> good_tools_directory(meta, owner),
{
}

/// In an acceptable bundle every directory is the owner's alone, the program may be run
/// by all and changed by the owner only, and the settings are for the owner only.
pub proof fn law_parts_of_an_acceptable_helper(tree: HelperTree, owner: ExpectedOwner)
    ensures
        good_helper_tree(tree, owner) <==> {
            &&& ancestors_complaint(tree.ancestors@) is None
            &&& tree.privileged_tools is Ok && good_tools_directory(
                tree.privileged_tools->Ok_0,
                owner,
            )
            &&& tree.bundle is Ok && good_directory(tree.bundle->Ok_0, owner)
            &&& tree.contents is Ok && good_directory(tree.contents->Ok_0, owner)
            &&& tree.macos is Ok && good_directory(tree.macos->Ok_0, owner)
            &&& tree.resources is Ok && good_directory(tree.resources->Ok_0, owner)
            &&& tree.service is Ok && good_file(tree.service->Ok_0, owner, 0o755)
            &&& tree.custom is Ok && (tree.custom->Ok_0 is None || good_file(
                tree.custom->Ok_0->0,
                owner,
                0o600,
            ))
        },
{
    lemma_good_ancestors(tree.ancestors@);
}

/// The complaint about directories above the helper is about the first that is a link,
/// no directory or unknown.
pub proof fn law_first_bad_ancestor_is_told(ancestors: Seq<Found>, i: int)
    requires
        0 <= i < ancestors.len(),
        !good_ancestor(ancestors[i]),
        forall|j: int| 0 <= j < i ==> #[trigger] good_ancestor(ancestors[j]),
    ensures
        ancestors_complaint(ancestors) == Some(
            match ancestors[i].meta {
                Ok(_) => "Helper ancestor is not a real directory: "@ + ancestors[i].path@,
                Err(error) => error@,
            },
        ),
        good_ancestor(ancestors[i]) <==> ancestors[i].meta is Ok && ancestors[i].meta->Ok_0.is_dir
            && !ancestors[i].meta->Ok_0.is_symlink,
{
    let front = ancestors.take(i);
    assert forall|j: int| 0 <= j < front.len() implies #[trigger] good_ancestor(front[j]) by {
        assert(front[j] == ancestors[j]);
        assert(good_ancestor(ancestors[j]));
    }
    lemma_good_ancestors(front);
    assert(ancestors.take(i + 1).drop_last() =~= front);
    assert(ancestors.take(i + 1).last() == ancestors[i]);
    lemma_ancestors_prefix(ancestors, i + 1);
}

/// Complaints name the fault that they are about and the path.
pub proof fn law_complaints_name_the_fault(
    path: Seq<char>,
    meta: FileMeta,
    owner: ExpectedOwner,
    mode: u32,
)
    ensures
        ({
            let plain = !meta.is_symlink && !meta.has_acl;
            let owned = meta.uid == owner.uid && meta.gid == owner.gid;
            &&& meta.is_symlink || !meta.is_dir ==> directory_complaint(path, meta, owner)
                == "Expected a real directory: "@ + path && tools_complaint(path, meta, owner)
                == "Expected a real directory: "@ + path
            &&& meta.is_symlink || !meta.is_file ==> file_complaint(path, meta, owner, mode)
                == "Expected a regular file: "@ + path
            &&& !meta.is_symlink && meta.has_acl && meta.is_dir ==> directory_complaint(
                path,
                meta,
                owner,
            ) == "Extended ACL is not allowed on helper path: "@ + path
            &&& plain && meta.is_dir && !owned ==> directory_complaint(path, meta, owner)
                == "Unexpected owner for helper path: "@ + path
            &&& plain && meta.is_dir && owned ==> directory_complaint(path, meta, owner)
                == "Helper directory is writable by non-root: "@ + path
            &&& plain && meta.is_file && !owned ==> file_complaint(path, meta, owner, mode)
                == "Unexpected owner for helper path: "@ + path
            &&& plain && meta.is_file && owned ==> file_complaint(path, meta, owner, mode)
                == "Unexpected permissions on "@ + path + ": "@ + octal(
                (meta.mode & 0o7777) as nat,
            ) + ", expected "@ + octal(mode as nat)
            &&& plain && meta.is_dir && meta.uid != owner.uid ==> tools_complaint(path, meta, owner)
                == "Helper directory is not root-owned: "@ + path
        }),
{
}

/// A bundle is looked at from the top: what is wrong above is told before what is wrong
/// below.
pub proof fn law_faults_are_told_from_the_top(
    paths: HelperPaths,
    tree: HelperTree,
    owner: ExpectedOwner,
)
    ensures
        ({
            let told = helper_complaint(paths, tree, owner);
            let bundle = found_directory_complaint(paths.bundle@, tree.bundle, owner);
            let contents = found_directory_complaint(paths.contents@, tree.contents, owner);
            let macos = found_directory_complaint(paths.macos@, tree.macos, owner);
            let resources = found_directory_complaint(paths.resources@, tree.resources, owner);
            let service = found_file_complaint(paths.service@, tree.service, owner, 0o755);
            let above = ancestors_complaint(tree.ancestors@) is None && tree.privileged_tools is Ok
                && good_tools_directory(tree.privileged_tools->Ok_0, owner);
            &&& ancestors_complaint(tree.ancestors@) is Some ==> told == ancestors_complaint(
                tree.ancestors@,
            )
            &&& above && bundle is Some ==> told == bundle
            &&& above && bundle is None && contents is Some ==> told == contents
            &&& above && bundle is None && contents is None && macos is Some ==> told == macos
            &&& above && bundle is None && contents is None && macos is None && resources is Some
                ==> told == resources
            &&& above && bundle is None && contents is None && macos is None && resources is None
                && service is Some ==> told == service
        }),
{
}

/// A lock is not held where its path names another file or no regular one, nor where
/// anybody but the superuser owns the file or may use it.
pub proof fn law_lock_is_the_superusers_file(opened: FileIdentity, linked: FileIdentity)
    ensures
        holds_lock(opened, linked) ==> opened.dev == linked.dev && opened.ino == linked.ino
            && linked.meta.is_file,
        holds_lock(opened, linked) ==> opened.meta.uid == 0 && opened.meta.gid == 0,
        holds_lock(opened, linked) ==> opened.meta.mode & 0o177 == 0 && opened.meta.mode & 0o600
            == 0o600,
        linked.meta.is_file && opened.dev == linked.dev && opened.ino == linked.ino
            && opened.meta.uid == 0 && opened.meta.gid == 0 && opened.meta.mode & 0o7777 == 0o600
            ==> holds_lock(opened, linked),
{
    let mode = opened.meta.mode;
    assert(mode & 0o7777 == 0o600 ==> mode & 0o177 == 0 && mode & 0o600 == 0o600) by (bit_vector);
}

} // verus!
