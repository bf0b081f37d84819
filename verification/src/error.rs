//! The error taxonomy of the transfer, and the mapping from raw system
//! error codes into it.
//!
//! Every kernel call the transfer makes reports failure as a numeric error
//! code. Which taxonomy entry a code means depends on the phase that made
//! the call: an invalid-argument code from a namespace join means the handle
//! was stale or of the wrong kind, while the same code from a mount
//! operation means a malformed request.

use vstd::prelude::*;

verus! {

/// Operation not permitted.
pub const EPERM: i32 = 1;

/// No such file or directory.
pub const ENOENT: i32 = 2;

/// No such process.
pub const ESRCH: i32 = 3;

/// Bad file descriptor.
pub const EBADF: i32 = 9;

/// Permission denied.
pub const EACCES: i32 = 13;

/// Device or resource busy.
pub const EBUSY: i32 = 16;

/// Invalid argument.
pub const EINVAL: i32 = 22;

/// Why a transfer failed.
#[derive(Clone, Copy, PartialEq, Eq, Structural, Debug)]
pub enum NsError {
    /// A process identifier or a path did not resolve.
    NotFound,
    /// The caller lacks the required capability, or may not join that
    /// namespace instance.
    PermissionDenied,
    /// A malformed path or flag combination.
    InvalidArgument,
    /// A stale namespace or mount handle, or one of the wrong kind.
    InvalidHandle,
    /// The destination is already a mount point and replacement was not
    /// requested.
    Busy,
    /// Any other system-reported code, carried through for diagnostics.
    Other(i32),
}

/// The phase of the transfer in which a kernel call was made.
#[derive(Clone, Copy, PartialEq, Eq, Structural, Debug)]
pub enum TransferPhase {
    /// Resolving the source process's namespace handle.
    SourceResolve,
    /// Resolving the destination process's namespace handle.
    DestResolve,
    /// Joining the source namespace.
    SourceJoin,
    /// Cloning the detached subtree handle.
    TreeClone,
    /// Joining the destination namespace.
    DestJoin,
    /// Attaching the subtree at the destination path.
    TreeAttach,
}

/// Whether the phase is one of the two namespace joins, where an
/// invalid-argument code reports a handle of the wrong kind rather than a
/// malformed request.
pub open spec fn spec_is_join_phase(phase: TransferPhase) -> bool {
    phase == TransferPhase::SourceJoin || phase == TransferPhase::DestJoin
}

/// The taxonomy entry a raw error code means, given the phase that
/// reported it.
pub open spec fn spec_classify_errno(phase: TransferPhase, errno: i32) -> NsError {
    if errno == ENOENT || errno == ESRCH {
        NsError::NotFound
    } else if errno == EPERM || errno == EACCES {
        NsError::PermissionDenied
    } else if errno == EBUSY {
        NsError::Busy
    } else if errno == EBADF {
        NsError::InvalidHandle
    } else if errno == EINVAL {
        if spec_is_join_phase(phase) {
            NsError::InvalidHandle
        } else {
            NsError::InvalidArgument
        }
    } else {
        NsError::Other(errno)
    }
}

/// Maps a raw system error code to the taxonomy, given the phase that
/// reported it.
pub fn classify_errno(phase: TransferPhase, errno: i32) -> (r: NsError)
    ensures
        r == spec_classify_errno(phase, errno),
{
    if errno == ENOENT || errno == ESRCH {
        NsError::NotFound
    } else if errno == EPERM || errno == EACCES {
        NsError::PermissionDenied
    } else if errno == EBUSY {
        NsError::Busy
    } else if errno == EBADF {
        NsError::InvalidHandle
    } else if errno == EINVAL {
        if matches!(phase, TransferPhase::SourceJoin) || matches!(phase, TransferPhase::DestJoin) {
            NsError::InvalidHandle
        } else {
            NsError::InvalidArgument
        }
    } else {
        NsError::Other(errno)
    }
}

} // verus!
