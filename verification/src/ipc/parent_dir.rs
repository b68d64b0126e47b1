//! The directory that holds a socket must belong to the process and be closed to
//! others.
use crate::ipc::postfix::is_service_ipc_postfix;
use crate::text::decimal_text;
use vstd::prelude::*;

verus! {

/// The mode of a directory that everybody may pass through: the service's.
pub const SERVICE_PARENT_MODE: u32 = 0o711;

/// The mode of a directory for one user.
pub const USER_PARENT_MODE: u32 = 0o700;

/// The permission bits of a mode.
pub const PERMISSION_BITS: u32 = 0o777;

/// The mode that the directory of a socket must have.
pub open spec fn parent_mode(postfix: Seq<char>) -> u32 {
    if crate::ipc::postfix::names_service(postfix) {
        SERVICE_PARENT_MODE
    } else {
        USER_PARENT_MODE
    }
}

/// The mode that the directory of a socket must have.
pub fn expected_ipc_parent_mode(postfix: &str) -> (r: u32)
    ensures
        r == parent_mode(postfix@),
{
    if is_service_ipc_postfix(postfix) {
        SERVICE_PARENT_MODE
    } else {
        USER_PARENT_MODE
    }
}

/// The mode to give a directory that has to be made, if it does.
pub fn ensure_ipc_parent_exists(present: bool, postfix: &str) -> (r: Option<u32>)
    ensures
        r == if present {
            None
        } else {
            Some(parent_mode(postfix@))
        },
{
    if present {
        None
    } else {
        Some(expected_ipc_parent_mode(postfix))
    }
}

/// What is found where the directory should be, links not followed.
#[derive(Clone, Copy, Debug, PartialEq, Eq, Structural)]
pub struct ParentMetadata {
    pub is_symlink: bool,
    pub is_dir: bool,
    pub uid: u32,
    pub mode: u32,
}

/// What is left to do for a directory.
#[derive(Clone, Copy, Debug, PartialEq, Eq, Structural)]
pub enum ParentStep {
    /// Take the directory over, and ask again with the owner that it then has.
    Reclaim,
    SetMode(u32),
    Done,
}

/// The superuser takes over a directory of the service from another owner.
pub open spec fn reclaims(metadata: ParentMetadata, effective_uid: u32, postfix: Seq<char>) -> bool {
    metadata.uid != effective_uid && effective_uid == 0 && crate::ipc::postfix::names_service(
        postfix,
    )
}

/// What is done with the directory of a socket, where it can be used.
pub open spec fn parent_step(
    postfix: Seq<char>,
    metadata: ParentMetadata,
    effective_uid: u32,
    reclaimed: Option<u32>,
) -> Option<ParentStep> {
    let owner = if reclaimed is Some {
        reclaimed->0
    } else {
        metadata.uid
    };
    if metadata.is_symlink || !metadata.is_dir {
        None
    } else if reclaimed is None && reclaims(metadata, effective_uid, postfix) {
        Some(ParentStep::Reclaim)
    } else if owner != effective_uid {
        None
    } else if metadata.mode & PERMISSION_BITS == parent_mode(postfix) {
        Some(ParentStep::Done)
    } else {
        Some(ParentStep::SetMode(parent_mode(postfix)))
    }
}

/// Checks the directory of a socket: it must be a directory and no link, and
/// belong to the process, which may first take it over once. `reclaimed` is the
/// owner after that.
pub fn ensure_secure_ipc_parent_dir(
    parent: &str,
    postfix: &str,
    metadata: ParentMetadata,
    effective_uid: u32,
    reclaimed: Option<u32>,
) -> (r: Result<ParentStep, String>)
    ensures
        r is Ok <==> parent_step(postfix@, metadata, effective_uid, reclaimed) is Some,
        r matches Ok(step) ==> parent_step(postfix@, metadata, effective_uid, reclaimed) == Some(
            step,
        ),
        metadata.is_symlink ==> (r matches Err(e) && e@ == "ipc parent is symlink: "@ + parent@),
        !metadata.is_symlink && !metadata.is_dir ==> (r matches Err(e) && e@
            == "ipc parent is not directory: "@ + parent@),
        !metadata.is_symlink && metadata.is_dir ==> {
            let owner = match reclaimed {
                Some(uid) => uid,
                None => metadata.uid,
            };
            if reclaimed is None && reclaims(metadata, effective_uid, postfix@) {
                r == Ok::<ParentStep, String>(ParentStep::Reclaim)
            } else if owner != effective_uid {
                r matches Err(e) && e@ == "unsafe ipc parent owner, expected uid "@
                    + crate::text::decimal(effective_uid as nat) + ", got "@ + crate::text::decimal(
                    owner as nat,
                ) + ": "@ + parent@
            } else if metadata.mode & PERMISSION_BITS != parent_mode(postfix@) {
                r == Ok::<ParentStep, String>(ParentStep::SetMode(parent_mode(postfix@)))
            } else {
                r == Ok::<ParentStep, String>(ParentStep::Done)
            }
        },
{
    if metadata.is_symlink {
        let mut text: String = "ipc parent is symlink: ".to_owned();
        text.append(parent);
        return Err(text);
    }
    if !metadata.is_dir {
        let mut text: String = "ipc parent is not directory: ".to_owned();
        text.append(parent);
        return Err(text);
    }
    if reclaimed.is_none() && metadata.uid != effective_uid && effective_uid == 0
        && is_service_ipc_postfix(postfix) {
        return Ok(ParentStep::Reclaim);
    }
    let owner: u32 = match reclaimed {
        Some(uid) => uid,
        None => metadata.uid,
    };
    if owner != effective_uid {
        let mut text: String = "unsafe ipc parent owner, expected uid ".to_owned();
        let expected = decimal_text(effective_uid as u64);
        text.append(expected.as_str());
        text.append(", got ");
        let got = decimal_text(owner as u64);
        text.append(got.as_str());
        text.append(": ");
        text.append(parent);
        return Err(text);
    }
    let expected_mode: u32 = expected_ipc_parent_mode(postfix);
    if metadata.mode & PERMISSION_BITS != expected_mode {
        Ok(ParentStep::SetMode(expected_mode))
    } else {
        Ok(ParentStep::Done)
    }
}

/// The complaint about a socket path without directory.
pub fn invalid_ipc_path(path: &str) -> (r: String)
    ensures
        r@ == "invalid ipc path: "@ + path@,
{
    let mut text: String = "invalid ipc path: ".to_owned();
    text.append(path);
    text
}

/// The mode of a socket: everybody may connect to the service's, which checks its
/// peers itself, and only the owner to any other.
pub fn ipc_socket_mode(postfix: &str) -> (r: u32)
    ensures
        r == if crate::ipc::postfix::names_service(postfix@) {
            0o666u32
        } else {
            0o600u32
        },
{
    if is_service_ipc_postfix(postfix) {
        0o666
    } else {
        0o600
    }
}

/// Others may pass through the directory of the service and of no other socket; nobody
/// but the owner may list or change either.
pub proof fn law_parents_are_closed(postfix: Seq<char>)
    ensures
        crate::ipc::postfix::names_service(postfix) ==> parent_mode(postfix) == 0o711,
        !crate::ipc::postfix::names_service(postfix) ==> parent_mode(postfix) == 0o700,
        parent_mode(postfix) & 0o066 == 0 && parent_mode(postfix) & 0o700 == 0o700,
{
    assert(0o711u32 & 0o066 == 0 && 0o711u32 & 0o700 == 0o700) by (bit_vector);
    assert(0o700u32 & 0o066 == 0 && 0o700u32 & 0o700 == 0o700) by (bit_vector);
}

/// Nobody but the superuser takes a directory over, and only one of the service that
/// belongs to somebody else.
pub proof fn law_only_the_superuser_reclaims(
    metadata: ParentMetadata,
    effective_uid: u32,
    postfix: Seq<char>,
)
    ensures
        reclaims(metadata, effective_uid, postfix) <==> effective_uid == 0 && metadata.uid > 0
            && crate::ipc::postfix::names_service(postfix),
{
}

/// A directory is used only if it is one and no link, and belongs to the process once it
/// was taken over or not. It is taken over at most once, and its mode is set exactly
/// where it is not the one that it must have.
pub proof fn law_which_parents_are_used(
    postfix: Seq<char>,
    metadata: ParentMetadata,
    effective_uid: u32,
    reclaimed: Option<u32>,
)
    ensures
        ({
            let step = parent_step(postfix, metadata, effective_uid, reclaimed);
            &&& metadata.is_symlink || !metadata.is_dir ==> step is None
            &&& step == Some(ParentStep::Reclaim) ==> reclaimed is None && effective_uid == 0
                && metadata.uid != 0
            &&& step is Some && step != Some(ParentStep::Reclaim) ==> effective_uid
                == if reclaimed is Some {
                reclaimed->0
            } else {
                metadata.uid
            }
            &&& step == Some(ParentStep::Done) ==> metadata.mode & PERMISSION_BITS == parent_mode(
                postfix,
            )
            &&& step matches Some(ParentStep::SetMode(mode)) ==> mode == parent_mode(postfix)
                && metadata.mode & PERMISSION_BITS != mode
            &&& metadata.is_dir && !metadata.is_symlink && metadata.uid == effective_uid && reclaimed
                is None ==> step is Some
            &&& metadata.is_dir && !metadata.is_symlink && reclaimed == Some(effective_uid)
                ==> step is Some && step != Some(ParentStep::Reclaim)
        }),
{
}

} // verus!
