//! Descriptor-plus-path addressing for the mount primitives.
//!
//! The kernel's tree-clone and tree-move calls locate an object in one of
//! two ways: by a descriptor alone ("the object this handle denotes
//! directly"), or by a path resolved relative to a descriptor — absolutely,
//! if no descriptor is given. An empty-path request is meaningless without a
//! descriptor, so the two modes are a tagged union rather than a pair of
//! nullable fields: the illegal combination cannot be written down.
//!
//! Whatever the mode, the raw call interface is uniform: it always takes a
//! descriptor slot and a nominal path string. [`AnchorReference::raw_dirfd`]
//! and [`AnchorReference::nominal_path`] compute exactly what to put in each
//! slot, and [`AnchorReference::addresses_by_descriptor`] says whether the
//! empty-path behavioral flag must accompany them.

use vstd::prelude::*;

verus! {

/// The sentinel descriptor the raw interface takes when no descriptor
/// anchors the path: the negated bad-file-descriptor code.
pub const ANCHOR_NO_FD: i32 = -9;

/// Where an operation applies: a descriptor alone, or a path resolved
/// relative to an optional descriptor.
#[derive(Debug)]
pub enum AnchorReference {
    /// The object the descriptor refers to directly.
    Descriptor { fd: i32 },
    /// `path`, resolved relative to `dirfd` — absolutely, if `dirfd` is
    /// absent.
    Location { dirfd: Option<i32>, path: String },
}

impl AnchorReference {
    /// A well-formed anchor: descriptors are valid (non-negative), and a
    /// path-addressed anchor names a non-empty path.
    pub open spec fn wf(self) -> bool {
        match self {
            AnchorReference::Descriptor { fd } => fd >= 0,
            AnchorReference::Location { dirfd, path } => path@.len() > 0 && (dirfd matches Some(d)
                ==> d >= 0),
        }
    }

    /// The descriptor to put in the raw call's descriptor slot.
    pub open spec fn spec_raw_dirfd(self) -> i32 {
        match self {
            AnchorReference::Descriptor { fd } => fd,
            AnchorReference::Location { dirfd, path } => match dirfd {
                Some(d) => d,
                None => ANCHOR_NO_FD,
            },
        }
    }

    /// The string to put in the raw call's nominal path slot. A
    /// descriptor-direct anchor always passes the empty string, for
    /// interface uniformity; the empty-path flag tells the kernel not to
    /// interpret it.
    pub open spec fn spec_nominal_path(self) -> Seq<char> {
        match self {
            AnchorReference::Descriptor { fd } => Seq::<char>::empty(),
            AnchorReference::Location { dirfd, path } => path@,
        }
    }

    /// Whether this anchor addresses its object by descriptor alone, so
    /// the empty-path behavioral flag must be set for the corresponding
    /// side of the call.
    pub open spec fn spec_addresses_by_descriptor(self) -> bool {
        self matches AnchorReference::Descriptor { .. }
    }

    /// The descriptor for the raw call: the anchor's descriptor, or the
    /// no-descriptor sentinel.
    pub fn raw_dirfd(&self) -> (r: i32)
        ensures
            r == self.spec_raw_dirfd(),
    {
        match self {
            AnchorReference::Descriptor { fd } => *fd,
            AnchorReference::Location { dirfd, path } => at_fd(*dirfd),
        }
    }

    /// The nominal path string for the raw call.
    pub fn nominal_path(&self) -> (r: &str)
        ensures
            r@ == self.spec_nominal_path(),
    {
        match self {
            AnchorReference::Descriptor { fd } => {
                let empty = "";
                proof {
                    reveal_strlit("");
                }
                empty
            },
            AnchorReference::Location { dirfd, path } => path.as_str(),
        }
    }

    /// Whether the empty-path behavioral flag must be set for this side of
    /// the call.
    pub fn addresses_by_descriptor(&self) -> (r: bool)
        ensures
            r == self.spec_addresses_by_descriptor(),
    {
        matches!(self, AnchorReference::Descriptor { .. })
    }
}

/// The descriptor slot value for an optional descriptor: the descriptor
/// itself, or the no-descriptor sentinel when absent.
pub fn at_fd(fd: Option<i32>) -> (r: i32)
    ensures
        fd matches Some(d) ==> r == d,
        fd is None ==> r == ANCHOR_NO_FD,
{
    match fd {
        Some(d) => d,
        None => ANCHOR_NO_FD,
    }
}

} // verus!
