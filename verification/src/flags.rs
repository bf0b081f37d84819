//! Flag sets for the two mount primitives.
//!
//! The kernel's tree-clone and tree-move operations each take a bitmask of
//! behavioral flags. These types mirror those masks as plain `u32` bit sets,
//! so contracts elsewhere can state exactly which behavior a call requests.

use vstd::prelude::*;

verus! {

/// Request a detached private clone of the subtree rather than a live
/// reference anchored to its origin.
pub const OPEN_TREE_CLONE: u32 = 0x1;

/// Close the resulting descriptor on exec, so it does not leak into
/// child processes.
pub const OPEN_TREE_CLOEXEC: u32 = 0x80000;

/// Follow symlinks on the source side.
pub const MOVE_MOUNT_F_SYMLINKS: u32 = 0x1;

/// Follow automounts on the source side.
pub const MOVE_MOUNT_F_AUTOMOUNTS: u32 = 0x2;

/// The source is the object the descriptor denotes directly; the nominal
/// source path string is not interpreted.
pub const MOVE_MOUNT_F_EMPTY_PATH: u32 = 0x4;

/// Follow symlinks on the target side.
pub const MOVE_MOUNT_T_SYMLINKS: u32 = 0x10;

/// Follow automounts on the target side.
pub const MOVE_MOUNT_T_AUTOMOUNTS: u32 = 0x20;

/// The target is the object the descriptor denotes directly.
pub const MOVE_MOUNT_T_EMPTY_PATH: u32 = 0x40;

/// The flag set handed to the tree-clone primitive.
#[derive(Clone, Copy, PartialEq, Eq, Structural, Debug)]
pub struct OpenTreeFlags {
    pub bits: u32,
}

impl OpenTreeFlags {
    /// Whether every bit of `flag` is set in this set.
    pub open spec fn spec_has(self, flag: u32) -> bool {
        self.bits & flag == flag
    }

    /// The empty flag set.
    pub fn empty() -> (r: Self)
        ensures
            r.bits == 0u32,
    {
        OpenTreeFlags { bits: 0u32 }
    }

    /// A set holding exactly the given bits.
    pub fn from_bits(bits: u32) -> (r: Self)
        ensures
            r.bits == bits,
    {
        OpenTreeFlags { bits }
    }

    /// The union of two flag sets.
    pub fn union(self, other: Self) -> (r: Self)
        ensures
            r.bits == self.bits | other.bits,
    {
        OpenTreeFlags { bits: self.bits | other.bits }
    }

    /// Whether every bit of `flag` is set in this set.
    pub fn has(self, flag: u32) -> (r: bool)
        ensures
            r == self.spec_has(flag),
    {
        self.bits & flag == flag
    }
}

/// The flag set handed to the tree-move primitive.
#[derive(Clone, Copy, PartialEq, Eq, Structural, Debug)]
pub struct MoveMountFlags {
    pub bits: u32,
}

impl MoveMountFlags {
    /// Whether every bit of `flag` is set in this set.
    pub open spec fn spec_has(self, flag: u32) -> bool {
        self.bits & flag == flag
    }

    /// The empty flag set.
    pub fn empty() -> (r: Self)
        ensures
            r.bits == 0u32,
    {
        MoveMountFlags { bits: 0u32 }
    }

    /// A set holding exactly the given bits.
    pub fn from_bits(bits: u32) -> (r: Self)
        ensures
            r.bits == bits,
    {
        MoveMountFlags { bits }
    }

    /// The union of two flag sets.
    pub fn union(self, other: Self) -> (r: Self)
        ensures
            r.bits == self.bits | other.bits,
    {
        MoveMountFlags { bits: self.bits | other.bits }
    }

    /// Whether every bit of `flag` is set in this set.
    pub fn has(self, flag: u32) -> (r: bool)
        ensures
            r == self.spec_has(flag),
    {
        self.bits & flag == flag
    }
}

/// The exact flag set this protocol uses to clone a subtree: a detached
/// clone, with the descriptor closed on exec.
pub open spec fn spec_clone_flags() -> OpenTreeFlags {
    OpenTreeFlags { bits: OPEN_TREE_CLONE | OPEN_TREE_CLOEXEC }
}

/// The exact flag set this protocol uses to attach a subtree: the source
/// side is addressed by its descriptor alone.
pub open spec fn spec_attach_flags() -> MoveMountFlags {
    MoveMountFlags { bits: MOVE_MOUNT_F_EMPTY_PATH }
}

/// Builds the clone flag set and shows that it requests detachment and
/// close-on-exec.
pub fn clone_flags() -> (r: OpenTreeFlags)
    ensures
        r == spec_clone_flags(),
        r.spec_has(OPEN_TREE_CLONE),
        r.spec_has(OPEN_TREE_CLOEXEC),
{
    let r = OpenTreeFlags { bits: OPEN_TREE_CLONE | OPEN_TREE_CLOEXEC };
    proof {
        let b: u32 = r.bits;
        assert(b & OPEN_TREE_CLONE == OPEN_TREE_CLONE
            && b & OPEN_TREE_CLOEXEC == OPEN_TREE_CLOEXEC) by (bit_vector)
            requires
                b == OPEN_TREE_CLONE | OPEN_TREE_CLOEXEC,
        ;
    }
    r
}

/// Builds the attach flag set and shows that it selects descriptor-direct
/// addressing for the source side and path addressing for the target side.
pub fn attach_flags() -> (r: MoveMountFlags)
    ensures
        r == spec_attach_flags(),
        r.spec_has(MOVE_MOUNT_F_EMPTY_PATH),
        !r.spec_has(MOVE_MOUNT_T_EMPTY_PATH),
{
    let r = MoveMountFlags { bits: MOVE_MOUNT_F_EMPTY_PATH };
    proof {
        let b: u32 = r.bits;
        assert(b & MOVE_MOUNT_F_EMPTY_PATH == MOVE_MOUNT_F_EMPTY_PATH
            && b & MOVE_MOUNT_T_EMPTY_PATH != MOVE_MOUNT_T_EMPTY_PATH) by (bit_vector)
            requires
                b == MOVE_MOUNT_F_EMPTY_PATH,
        ;
    }
    r
}

} // verus!
