//! The link of a syscall program.
//!
//! Programs of other kinds are attached to a hook in the kernel, and each
//! attachment is a link that can be told from others and be undone. A
//! syscall program is invokable as soon as it is loaded: its link has no
//! state, every identifier of it is the same, and detaching releases
//! nothing.

use crate::program::ProgramError;
use vstd::prelude::*;

verus! {

/// The identifier of the link of a syscall program: a marker without state.
#[derive(Debug, Hash, PartialEq, Eq, Structural)]
pub struct SyscallLinkIdInner {}

/// The link used by syscall programs.
#[derive(Debug)]
pub struct SyscallLinkInner {}

/// An attachment of a program.
pub trait Link: Sized {
    /// What tells one attachment from another.
    type Id;

    /// The identifier of this link.
    spec fn spec_id(&self) -> Self::Id;

    /// Whether this link can be detached.
    spec fn detachable(&self) -> bool;

    /// Returns the identifier of this link.
    fn id(&self) -> (id: Self::Id)
        ensures
            id == self.spec_id(),
    ;

    /// Detaches the program and gives up the link.
    fn detach(self) -> (res: Result<(), ProgramError>)
        ensures
            res is Ok <==> self.detachable(),
    ;
}

impl Link for SyscallLinkInner {
    type Id = SyscallLinkIdInner;

    open spec fn spec_id(&self) -> SyscallLinkIdInner {
        SyscallLinkIdInner {  }
    }

    open spec fn detachable(&self) -> bool {
        true
    }

    fn id(&self) -> (id: SyscallLinkIdInner) {
        SyscallLinkIdInner {  }
    }

    fn detach(self) -> (res: Result<(), ProgramError>) {
        Ok(())
    }
}

/// Any two identifiers of links of syscall programs are equal: whenever and
/// however often `id` is called, it returns the same value.
pub proof fn lemma_link_ids_equal(a: SyscallLinkIdInner, b: SyscallLinkIdInner)
    ensures
        a == b,
{
}

/// Detaching the link of a syscall program always succeeds.
pub proof fn lemma_detach_succeeds(link: SyscallLinkInner)
    ensures
        link.detachable(),
{
}

} // verus!
