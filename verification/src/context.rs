//! The context of a syscall program.
//!
//! The kernel enters the program with the memory that the caller handed to
//! it: a copy of the caller's value, for the length of one call. The context
//! wraps that memory and hands it out again; it owns nothing, checks nothing
//! and does not outlive the call. What the bytes mean is the program's
//! affair.

use vstd::prelude::*;

verus! {

/// The memory that one call of a syscall program works on.
pub struct SyscallContext<'a> {
    ctx: &'a mut Vec<u8>,
}

impl<'a> SyscallContext<'a> {
    /// The memory that the context wraps.
    pub closed spec fn region(self) -> &'a mut Vec<u8> {
        self.ctx
    }

    /// Wraps the memory that the kernel handed to the entry point.
    pub fn new(ctx: &'a mut Vec<u8>) -> (context: SyscallContext<'a>)
        ensures
            *context.region() == *old(ctx),
            *final(context.region()) == *final(ctx),
    {
        SyscallContext { ctx }
    }

    /// Hands out the wrapped memory: what is written through the result is
    /// written to the memory that the kernel handed in.
    pub fn as_ptr(self) -> (region: &'a mut Vec<u8>)
        ensures
            *region == *old(self.region()),
            *final(region) == *final(self.region()),
    {
        self.ctx
    }
}

} // verus!
