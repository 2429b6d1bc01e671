//! The syscall register
use vstd::prelude::*;
use std::sync::Arc;
use core::ops::Range;
use crate::scheduler::context::Context;
use crate::syscall::error::SyscallError;

verus! {

/// The number of syscall numbers that handlers can be registered for.
pub const HANDLERS: usize = 255;

/// A syscall handler can be implemented by any subsystem to support syscalls
pub trait SyscallHandler {
    fn handle(&self, syscall: u64, args: [u64; 4]) -> Result<u64, SyscallError>;
}

/// Makes another pointer to the same allocation with `Arc::clone`.
///
/// The standard library documents that the clone points to the same value; the contract
/// states that the two are equal.
#[verifier::external_body]
fn share<H>(handler: &Arc<H>) -> (shared: Arc<H>)
    ensures
        shared == *handler,
{
    Arc::clone(handler)
}

/// The arguments of a syscall, in the registers that carry them: RDX, RCX, RDI and RSI
pub fn arguments(ctx: &Context) -> (args: [u64; 4])
    ensures
        args@ == seq![ctx.general.rdx, ctx.general.rcx, ctx.general.rdi, ctx.general.rsi],
{
    let args = [ctx.general.rdx, ctx.general.rcx, ctx.general.rdi, ctx.general.rsi];
    args
}

/// The syscall register keeps a record of all syscall handlers and handles dispatching
pub struct SyscallRegister<H> {
    handlers: Vec<Option<Arc<H>>>,
}

impl<H> View for SyscallRegister<H> {
    type V = Seq<Option<Arc<H>>>;

    /// The handler registered for each syscall number.
    closed spec fn view(&self) -> Seq<Option<Arc<H>>> {
        self.handlers@
    }
}

impl<H: SyscallHandler> SyscallRegister<H> {
    /// One entry per syscall number that can have a handler.
    pub closed spec fn wf(&self) -> bool {
        self.handlers@.len() == HANDLERS
    }

    /// Create a new syscall register with no handler
    pub fn new() -> (register: SyscallRegister<H>)
        ensures
            register.wf(),
            register@ == Seq::new(HANDLERS as nat, |i: int| None::<Arc<H>>),
    {
        let mut handlers: Vec<Option<Arc<H>>> = Vec::new();
        let mut i: usize = 0;
        while i < HANDLERS
            invariant
                i <= HANDLERS,
                handlers@ == Seq::new(i as nat, |j: int| None::<Arc<H>>),
            decreases HANDLERS - i,
        {
            handlers.push(None);
            i = i + 1;
        }
        SyscallRegister { handlers }
    }

    /// Register a syscall handler for a range of syscalls. This will overwrite any previously
    /// registered syscall at the same range
    pub fn register(&mut self, range: Range<usize>, handler: Arc<H>)
        requires
            old(self).wf(),
            range.start < range.end ==> range.end <= HANDLERS,
        ensures
            final(self).wf(),
            final(self)@ == Seq::new(
                HANDLERS as nat,
                |i: int| if range.start <= i < range.end { Some(handler) } else { old(self)@[i] },
            ),
    {
        let mut index = range.start;
        while index < range.end
            invariant
                self.wf(),
                range.start < range.end ==> range.end <= HANDLERS,
                index >= range.start,
                range.start < range.end ==> index <= range.end,
                range.start >= range.end ==> index == range.start,
                self@ == Seq::new(
                    HANDLERS as nat,
                    |i: int| if range.start <= i < index { Some(handler) } else { old(self)@[i] },
                ),
            decreases range.end - index,
        {
            self.handlers.set(index, Some(share(&handler)));
            index = index + 1;
            assert(self@ =~= Seq::new(
                HANDLERS as nat,
                |i: int| if range.start <= i < index { Some(handler) } else { old(self)@[i] },
            ));
        }
        assert(self@ =~= Seq::new(
            HANDLERS as nat,
            |i: int| if range.start <= i < range.end { Some(handler) } else { old(self)@[i] },
        ));
    }

    /// The handler registered for a syscall number, if any.
    pub open spec fn handler_spec(&self, syscall: u64) -> Option<Arc<H>> {
        if syscall < HANDLERS {
            self@[syscall as int]
        } else {
            None
        }
    }

    /// The handler registered for a syscall number, if any
    pub fn handler(&self, syscall: u64) -> (handler: Option<&Arc<H>>)
        requires
            self.wf(),
        ensures
            match handler {
                Some(h) => self.handler_spec(syscall) == Some(*h),
                None => self.handler_spec(syscall) is None,
            },
    {
        if syscall < HANDLERS as u64 {
            match &self.handlers[syscall as usize] {
                Some(h) => Some(h),
                None => None,
            }
        } else {
            None
        }
    }

    /// What dispatching the syscall in `ctx` may return: where a handler is registered for the
    /// number in RAX, what that handler returns when called with the number and the arguments
    /// in RDX, RCX, RDI and RSI; `NotFound` where none is.
    pub open spec fn dispatch_result(&self, ctx: Context, result: Result<u64, SyscallError>) -> bool {
        match self.handler_spec(ctx.general.rax) {
            Some(handler) => exists|h: &H, args: [u64; 4]| {
                &&& *h == *handler
                &&& args@ == seq![ctx.general.rdx, ctx.general.rcx, ctx.general.rdi, ctx.general.rsi]
                &&& #[trigger] call_ensures(H::handle, (h, ctx.general.rax, args), result)
            },
            None => result == Err::<u64, SyscallError>(SyscallError::NotFound),
        }
    }

    /// Dispatch the correct syscall handler: the handler registered for the number in RAX is
    /// called with that number and the arguments, and what it returns is returned; `NotFound`
    /// where there is none
    pub fn dispatch(&self, ctx: &Context) -> (result: Result<u64, SyscallError>)
        requires
            self.wf(),
        ensures
            self.dispatch_result(*ctx, result),
    {
        match self.handler(ctx.general.rax) {
            Some(handler) => handler.handle(ctx.general.rax, arguments(ctx)),
            None => Err(SyscallError::NotFound),
        }
    }
}

/// Record the outcome of a syscall in the caller's registers: RAX is 1 on error and 0 on
/// success, RBX holds the error code or the value returned
pub fn complete(ctx: &mut Context, result: Result<u64, SyscallError>)
    ensures
        final(ctx).general.rax == (if result is Err { 1u64 } else { 0u64 }),
        final(ctx).general.rbx == match result {
            Ok(value) => value,
            Err(err) => err.error_code_spec(),
        },
        final(ctx).segments == old(ctx).segments,
        final(ctx).stack_frame == old(ctx).stack_frame,
        final(ctx).general == (crate::scheduler::context::GeneralPurpose {
            rax: final(ctx).general.rax,
            rbx: final(ctx).general.rbx,
            ..old(ctx).general
        }),
{
    ctx.general.rax = if result.is_err() { 1 } else { 0 };
    ctx.general.rbx = match result {
        Ok(value) => value,
        Err(err) => err.error_code(),
    };
}

/// Syscall is called from the syscall handler: dispatch the syscall that the saved context
/// asks for and record the outcome in it
pub fn syscall<H: SyscallHandler>(register: &SyscallRegister<H>, ctx: &mut Context)
    requires
        register.wf(),
    ensures
        exists|result: Result<u64, SyscallError>| {
            &&& #[trigger] register.dispatch_result(*old(ctx), result)
            &&& final(ctx).general.rax == (if result is Err { 1u64 } else { 0u64 })
            &&& final(ctx).general.rbx == match result {
                Ok(value) => value,
                Err(err) => err.error_code_spec(),
            }
        },
        final(ctx).segments == old(ctx).segments,
        final(ctx).stack_frame == old(ctx).stack_frame,
        final(ctx).general == (crate::scheduler::context::GeneralPurpose {
            rax: final(ctx).general.rax,
            rbx: final(ctx).general.rbx,
            ..old(ctx).general
        }),
{
    let result = register.dispatch(ctx);
    complete(ctx, result);
}

} // verus!
