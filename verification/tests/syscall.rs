use kernel::syscall::dispatch::{decode, FileSyscall, CLOSE, OPEN, READ, WRITE};
use std::sync::Arc;
use kernel::loader::error::LoaderError;
use kernel::mem::heap::{align_offset, block_size, frames_for, place, release, BlockHeader, HEADER_SIZE};
use kernel::scheduler::context::Context;
use kernel::scheduler::error::SchedulerError;
use kernel::syscall::error::SyscallError;
use kernel::syscall::register::{arguments, complete, syscall, SyscallHandler, SyscallRegister};
use kernel::vfs::error::VfsError;

struct Echo;

impl SyscallHandler for Echo {
    fn handle(&self, syscall: u64, args: [u64; 4]) -> Result<u64, SyscallError> {
        if args[0] == 0 {
            Err(SyscallError::HandlerError(syscall))
        } else {
            Ok(args[0] + args[3])
        }
    }
}

fn context(rax: u64, rdx: u64, rsi: u64) -> Context {
    let mut ctx = Context::default();
    ctx.general.rax = rax;
    ctx.general.rdx = rdx;
    ctx.general.rsi = rsi;
    ctx
}

#[test]
fn unregistered_syscalls_are_not_found() {
    let register: SyscallRegister<Echo> = SyscallRegister::new();
    assert_eq!(register.dispatch(&context(3, 1, 1)), Err(SyscallError::NotFound));
    assert_eq!(register.dispatch(&context(1000, 1, 1)), Err(SyscallError::NotFound));
}

#[test]
fn registered_range_dispatches() {
    let mut register = SyscallRegister::new();
    register.register(2..5, Arc::new(Echo));
    assert_eq!(register.dispatch(&context(2, 10, 5)), Ok(15));
    assert_eq!(register.dispatch(&context(4, 0, 5)), Err(SyscallError::HandlerError(4)));
    assert_eq!(register.dispatch(&context(5, 10, 5)), Err(SyscallError::NotFound));
    assert!(register.handler(3).is_some());
    assert!(register.handler(1).is_none());
    register.register(7..7, Arc::new(Echo));
    assert!(register.handler(7).is_none());
}

#[test]
fn syscall_records_outcome() {
    let mut register = SyscallRegister::new();
    register.register(0..1, Arc::new(Echo));
    let mut ctx = context(0, 40, 2);
    syscall(&register, &mut ctx);
    assert_eq!((ctx.general.rax, ctx.general.rbx), (0, 42));
    let mut ctx = context(0, 0, 2);
    syscall(&register, &mut ctx);
    assert_eq!((ctx.general.rax, ctx.general.rbx), (1, 0x1000));
    let mut ctx = context(9, 1, 2);
    syscall(&register, &mut ctx);
    assert_eq!((ctx.general.rax, ctx.general.rbx), (1, 1));
    let mut ctx = Context::default();
    complete(&mut ctx, Err(SyscallError::HandlerError(u64::MAX)));
    assert_eq!(ctx.general.rbx, 0xfff);
}

#[test]
fn syscall_arguments_and_error_codes() {
    let mut ctx = Context::default();
    ctx.general.rdx = 1;
    ctx.general.rcx = 2;
    ctx.general.rdi = 3;
    ctx.general.rsi = 4;
    assert_eq!(arguments(&ctx), [1, 2, 3, 4]);
    assert_eq!(SyscallError::NotFound.error_code(), 1);
    assert_eq!(SyscallError::HandlerError(5).error_code(), 0x1005);
    assert_eq!(SyscallError::handler_error(&()), SyscallError::HandlerError(0));
}

#[test]
fn heap_placement_round_trip() {
    assert_eq!(HEADER_SIZE, 32);
    assert_eq!(block_size(100, 16), 15 + 32 + 100);
    assert_eq!(frames_for(0), 0);
    assert_eq!(frames_for(1), 1);
    assert_eq!(frames_for(4096), 1);
    assert_eq!(frames_for(4097), 2);
    assert_eq!(align_offset(0x1001, 16), 15);
    assert_eq!(align_offset(0x1000, 16), 0);
    let header = BlockHeader::new(Some(0x9000), 4096, 0);
    let placement = place(0x2008, header, 64);
    assert_eq!(placement.data % 64, 0);
    assert_eq!(placement.header_address, 0x2008 + placement.header.padding);
    assert_eq!(placement.header.next, Some(0x9000));
    let (block, freed) = release(placement.data, placement.header);
    assert_eq!(block, 0x2008);
    assert_eq!(freed, BlockHeader::new(None, 4096, 0));
}

#[test]
fn other_errors() {
    assert_eq!(LoaderError::from(VfsError::NoSuchFile), LoaderError::Vfs(VfsError::NoSuchFile));
    assert_eq!(SchedulerError::OutOfPid.message(), "out of process identifiers");
    assert_eq!(SchedulerError::NoSuchPid.message(), "no such process identifier");
}

#[test]
fn file_syscall_numbers() {
    assert_eq!(decode(OPEN), Ok(FileSyscall::Open));
    assert_eq!(decode(CLOSE), Ok(FileSyscall::Close));
    assert_eq!(decode(READ), Ok(FileSyscall::Read));
    assert_eq!(decode(WRITE), Ok(FileSyscall::Write));
    assert_eq!(decode(4), Err(SyscallError::NotFound));
    assert_eq!(decode(0x123), Err(SyscallError::NotFound));
}
