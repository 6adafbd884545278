//! The host-side handle of a syscall program.
//!
//! A syscall program is loaded once and can then be invoked at any time: the
//! caller hands in a value as plain bytes, the kernel runs the program on a
//! copy of them, copies the bytes back and returns what the program
//! returned. The handle decides; it makes no call into the kernel itself. Its
//! user performs each request and hands the kernel's reply to the handle.

use vstd::prelude::*;

verus! {

/// The tag under which the kernel registers a syscall program.
pub const BPF_PROG_TYPE_SYSCALL: u32 = 31;

/// Why an operation on a program failed.
#[derive(Debug, PartialEq, Eq)]
pub enum ProgramError {
    /// The program is not loaded, so it has no descriptor.
    NotLoaded,
    /// The kernel refused the program: it is malformed, of a kind that is
    /// not allowed, or did not pass the verifier.
    LoadError { io_error: i32, verifier_log: String },
    /// The call that runs the program failed.
    SyscallError { io_error: i32 },
}

/// The request to register a program with the kernel.
#[derive(Clone, Copy, Debug, PartialEq, Eq, Structural)]
pub struct LoadRequest {
    /// The tag of the program's kind.
    pub prog_type: u32,
}

/// What the kernel answers to a [`LoadRequest`].
#[derive(Debug)]
pub enum LoadReply {
    /// The program is registered under the descriptor `fd`.
    Loaded { fd: i32 },
    /// The program is refused.
    Rejected { io_error: i32, verifier_log: String },
}

/// The request to run a loaded program once on a buffer.
#[derive(Clone, Copy, Debug, PartialEq, Eq, Structural)]
pub struct TestRun {
    /// The descriptor of the program.
    pub fd: i32,
    /// The length of the buffer in bytes.
    pub size: usize,
}

/// What the kernel answers to a [`TestRun`].
#[derive(Debug)]
pub enum RunReply {
    /// The program ran and returned `retval`; `data` is the buffer as the
    /// program left it.
    Returned { retval: i64, data: Vec<u8> },
    /// The call failed and the program did not run.
    Failed { io_error: i32 },
}

/// A program that user space invokes at any time, with data that it gets
/// back as the program left them.
#[derive(Debug)]
pub struct Syscall {
    fd: Option<i32>,
}

impl View for Syscall {
    type V = Option<i32>;

    /// The descriptor of the program, once it is loaded.
    closed spec fn view(&self) -> Option<i32> {
        self.fd
    }
}

/// What a reply to a load request makes of a handle that is not loaded: the
/// handle's descriptor after it, and what `load` returns.
pub open spec fn load_outcome(reply: LoadReply) -> (Option<i32>, Result<(), ProgramError>) {
    match reply {
        LoadReply::Loaded { fd } => (Some(fd), Ok(())),
        LoadReply::Rejected { io_error, verifier_log } => (
            None,
            Err(ProgramError::LoadError { io_error, verifier_log }),
        ),
    }
}

/// What an invocation comes to: what `invoke_unchecked` returns, and the
/// caller's buffer after it. Without a descriptor nothing was asked of the
/// kernel and the reply counts for nothing.
pub open spec fn invoke_outcome(program: Option<i32>, context: Seq<u8>, reply: RunReply) -> (
    Result<i64, ProgramError>,
    Seq<u8>,
) {
    match program {
        None => (Err(ProgramError::NotLoaded), context),
        Some(_) => match reply {
            RunReply::Returned { retval, data } => (Ok(retval), data@),
            RunReply::Failed { io_error } => (Err(ProgramError::SyscallError { io_error }), context),
        },
    }
}

/// Whether `reply` answers a run on a buffer of `size` bytes: the kernel
/// copies back as many bytes as it was given.
pub open spec fn answers(reply: RunReply, size: nat) -> bool {
    reply matches RunReply::Returned { data, .. } ==> data@.len() == size
}

/// Whether `reply` is the answer of a kernel that ran `program` once on a
/// copy of `context` and copied the memory back. A program is taken as what
/// it makes of the memory of one call: the value it returns and the memory
/// after it.
pub open spec fn ran_once(
    program: spec_fn(Seq<u8>) -> (i64, Seq<u8>),
    context: Seq<u8>,
    reply: RunReply,
) -> bool {
    reply matches RunReply::Returned { retval, data } && (retval, data@) == program(context)
}

impl Syscall {
    /// Whether the program is loaded.
    pub open spec fn spec_is_loaded(&self) -> bool {
        self@ is Some
    }

    /// A handle of a program that is not loaded yet.
    pub fn new() -> (program: Syscall)
        ensures
            program@ is None,
    {
        Syscall { fd: None }
    }

    /// Whether the program is loaded.
    #[verifier::when_used_as_spec(spec_is_loaded)]
    pub fn is_loaded(&self) -> (loaded: bool)
        ensures
            loaded == self.spec_is_loaded(),
    {
        self.fd.is_some()
    }

    /// The descriptor of the loaded program.
    pub fn fd(&self) -> (res: Result<i32, ProgramError>)
        ensures
            res == match self@ {
                Some(fd) => Ok::<i32, ProgramError>(fd),
                None => Err(ProgramError::NotLoaded),
            },
    {
        match self.fd {
            Some(fd) => Ok(fd),
            None => Err(ProgramError::NotLoaded),
        }
    }

    /// What to ask of the kernel to load the program: to register it as a
    /// syscall program.
    pub fn load_request(&self) -> (request: LoadRequest)
        ensures
            request.prog_type == BPF_PROG_TYPE_SYSCALL,
    {
        LoadRequest { prog_type: BPF_PROG_TYPE_SYSCALL }
    }

    /// Loads the program inside the kernel: takes the kernel's reply to the
    /// load request. A program that the kernel refused stays as it was and
    /// can not be invoked. A program is loaded once.
    pub fn load(&mut self, reply: LoadReply) -> (res: Result<(), ProgramError>)
        requires
            !old(self).is_loaded(),
        ensures
            (final(self)@, res) == load_outcome(reply),
    {
        match reply {
            LoadReply::Loaded { fd } => {
                self.fd = Some(fd);
                Ok(())
            },
            LoadReply::Rejected { io_error, verifier_log } => Err(
                ProgramError::LoadError { io_error, verifier_log },
            ),
        }
    }

    /// What to ask of the kernel to invoke the program on `context`: one run
    /// of the loaded program on a buffer of that length.
    pub fn invoke_request(&self, context: &Vec<u8>) -> (res: Result<TestRun, ProgramError>)
        ensures
            res == match self@ {
                Some(fd) => Ok::<TestRun, ProgramError>(TestRun { fd, size: context@.len() as usize }),
                None => Err(ProgramError::NotLoaded),
            },
    {
        match self.fd {
            Some(fd) => Ok(TestRun { fd, size: context.len() }),
            None => Err(ProgramError::NotLoaded),
        }
    }

    /// Invokes the program with `context`: takes the kernel's reply to the
    /// request of `invoke_request`. After a run `context` holds what the
    /// program left in the kernel's copy of it, and the result is what the
    /// program returned. The handle keeps nothing of the call.
    ///
    /// `context` is to be the bytes of a value without references, pointers
    /// or storage of its own: the kernel copies the bytes and nothing that
    /// they point to.
    pub fn invoke_unchecked(&mut self, context: &mut Vec<u8>, reply: RunReply) -> (res: Result<
        i64,
        ProgramError,
    >)
        requires
            answers(reply, old(context)@.len()),
        ensures
            *final(self) == *old(self),
            (res, final(context)@) == invoke_outcome(old(self)@, old(context)@, reply),
            final(context)@.len() == old(context)@.len(),
    {
        if self.fd.is_none() {
            return Err(ProgramError::NotLoaded);
        }
        match reply {
            RunReply::Returned { retval, data } => {
                *context = data;
                Ok(retval)
            },
            RunReply::Failed { io_error } => Err(ProgramError::SyscallError { io_error }),
        }
    }
}

/// One invocation of a loaded program runs the program once: the caller
/// gets what the program returned, and finds in its buffer what the program
/// left in memory.
pub proof fn lemma_invoke_runs_program_once(
    handle: Syscall,
    program: spec_fn(Seq<u8>) -> (i64, Seq<u8>),
    context: Seq<u8>,
    reply: RunReply,
)
    requires
        handle.is_loaded(),
        ran_once(program, context, reply),
    ensures
        invoke_outcome(handle@, context, reply) == (
            Ok::<i64, ProgramError>(program(context).0),
            program(context).1,
        ),
{
}

/// An invocation depends on the handle's descriptor, the caller's buffer and
/// the kernel's reply alone, and leaves the descriptor as it was: what a
/// second invocation comes to does not depend on there having been a first.
pub proof fn lemma_invocations_independent(
    before: Syscall,
    after: Syscall,
    context: Seq<u8>,
    reply: RunReply,
)
    requires
        after == before,
    ensures
        invoke_outcome(after@, context, reply) == invoke_outcome(before@, context, reply),
{
}

/// Before a program is loaded no invocation succeeds, whatever the reply,
/// and none touches the caller's buffer.
pub proof fn lemma_invoke_needs_load(handle: Syscall, context: Seq<u8>, reply: RunReply)
    requires
        !handle.is_loaded(),
    ensures
        invoke_outcome(handle@, context, reply) == (
            Err::<i64, ProgramError>(ProgramError::NotLoaded),
            context,
        ),
{
}

} // verus!
