//! The guest system-call surface: the recognized call numbers, the parsed
//! call record, and the decision of what the host must do for each call.
//! Performing the host work is the driver's business.

use vstd::prelude::*;
use crate::memif::{MemIf, MemError};

verus! {

/// The system-call numbers the core recognizes by name.
#[derive(Debug, Clone, Copy, PartialEq, Eq, Structural)]
pub enum SyscallNum {
    Getcwd,
    Dup,
    Fcntl,
    Faccessat,
    Chdir,
    Openat,
    Close,
    Getdents,
    Lseek,
    Read,
    Write,
    Writev,
    Pread,
    Pwrite,
    Fstatat,
    Fstat,
    Exit,
    ExitGroup,
    Kill,
    RtSigaction,
    Times,
    Uname,
    Gettimeofday,
    Getpid,
    Getuid,
    Geteuid,
    Getgid,
    Getegid,
    Brk,
    Munmap,
    Mremap,
    Mmap,
    Open,
    Link,
    Unlink,
    Mkdir,
    Access,
    Stat,
    Lstat,
    Time,
    Getmainvars,
}

/// The call number a raw word names, if any.
pub open spec fn syscall_num_of_spec(n: u64) -> Option<SyscallNum> {
    if n == 17 {
        Some(SyscallNum::Getcwd)
    } else if n == 23 {
        Some(SyscallNum::Dup)
    } else if n == 25 {
        Some(SyscallNum::Fcntl)
    } else if n == 48 {
        Some(SyscallNum::Faccessat)
    } else if n == 49 {
        Some(SyscallNum::Chdir)
    } else if n == 56 {
        Some(SyscallNum::Openat)
    } else if n == 57 {
        Some(SyscallNum::Close)
    } else if n == 61 {
        Some(SyscallNum::Getdents)
    } else if n == 62 {
        Some(SyscallNum::Lseek)
    } else if n == 63 {
        Some(SyscallNum::Read)
    } else if n == 64 {
        Some(SyscallNum::Write)
    } else if n == 66 {
        Some(SyscallNum::Writev)
    } else if n == 67 {
        Some(SyscallNum::Pread)
    } else if n == 68 {
        Some(SyscallNum::Pwrite)
    } else if n == 79 {
        Some(SyscallNum::Fstatat)
    } else if n == 80 {
        Some(SyscallNum::Fstat)
    } else if n == 93 {
        Some(SyscallNum::Exit)
    } else if n == 94 {
        Some(SyscallNum::ExitGroup)
    } else if n == 129 {
        Some(SyscallNum::Kill)
    } else if n == 134 {
        Some(SyscallNum::RtSigaction)
    } else if n == 153 {
        Some(SyscallNum::Times)
    } else if n == 160 {
        Some(SyscallNum::Uname)
    } else if n == 169 {
        Some(SyscallNum::Gettimeofday)
    } else if n == 172 {
        Some(SyscallNum::Getpid)
    } else if n == 174 {
        Some(SyscallNum::Getuid)
    } else if n == 175 {
        Some(SyscallNum::Geteuid)
    } else if n == 176 {
        Some(SyscallNum::Getgid)
    } else if n == 177 {
        Some(SyscallNum::Getegid)
    } else if n == 214 {
        Some(SyscallNum::Brk)
    } else if n == 215 {
        Some(SyscallNum::Munmap)
    } else if n == 216 {
        Some(SyscallNum::Mremap)
    } else if n == 222 {
        Some(SyscallNum::Mmap)
    } else if n == 1024 {
        Some(SyscallNum::Open)
    } else if n == 1025 {
        Some(SyscallNum::Link)
    } else if n == 1026 {
        Some(SyscallNum::Unlink)
    } else if n == 1030 {
        Some(SyscallNum::Mkdir)
    } else if n == 1033 {
        Some(SyscallNum::Access)
    } else if n == 1038 {
        Some(SyscallNum::Stat)
    } else if n == 1039 {
        Some(SyscallNum::Lstat)
    } else if n == 1062 {
        Some(SyscallNum::Time)
    } else if n == 2011 {
        Some(SyscallNum::Getmainvars)
    } else {
        None
    }
}

/// Look up the call number a raw word names.
pub fn syscall_num_of(n: u64) -> (r: Option<SyscallNum>)
    ensures
        r == syscall_num_of_spec(n),
{
    if n == 17 {
        Some(SyscallNum::Getcwd)
    } else if n == 23 {
        Some(SyscallNum::Dup)
    } else if n == 25 {
        Some(SyscallNum::Fcntl)
    } else if n == 48 {
        Some(SyscallNum::Faccessat)
    } else if n == 49 {
        Some(SyscallNum::Chdir)
    } else if n == 56 {
        Some(SyscallNum::Openat)
    } else if n == 57 {
        Some(SyscallNum::Close)
    } else if n == 61 {
        Some(SyscallNum::Getdents)
    } else if n == 62 {
        Some(SyscallNum::Lseek)
    } else if n == 63 {
        Some(SyscallNum::Read)
    } else if n == 64 {
        Some(SyscallNum::Write)
    } else if n == 66 {
        Some(SyscallNum::Writev)
    } else if n == 67 {
        Some(SyscallNum::Pread)
    } else if n == 68 {
        Some(SyscallNum::Pwrite)
    } else if n == 79 {
        Some(SyscallNum::Fstatat)
    } else if n == 80 {
        Some(SyscallNum::Fstat)
    } else if n == 93 {
        Some(SyscallNum::Exit)
    } else if n == 94 {
        Some(SyscallNum::ExitGroup)
    } else if n == 129 {
        Some(SyscallNum::Kill)
    } else if n == 134 {
        Some(SyscallNum::RtSigaction)
    } else if n == 153 {
        Some(SyscallNum::Times)
    } else if n == 160 {
        Some(SyscallNum::Uname)
    } else if n == 169 {
        Some(SyscallNum::Gettimeofday)
    } else if n == 172 {
        Some(SyscallNum::Getpid)
    } else if n == 174 {
        Some(SyscallNum::Getuid)
    } else if n == 175 {
        Some(SyscallNum::Geteuid)
    } else if n == 176 {
        Some(SyscallNum::Getgid)
    } else if n == 177 {
        Some(SyscallNum::Getegid)
    } else if n == 214 {
        Some(SyscallNum::Brk)
    } else if n == 215 {
        Some(SyscallNum::Munmap)
    } else if n == 216 {
        Some(SyscallNum::Mremap)
    } else if n == 222 {
        Some(SyscallNum::Mmap)
    } else if n == 1024 {
        Some(SyscallNum::Open)
    } else if n == 1025 {
        Some(SyscallNum::Link)
    } else if n == 1026 {
        Some(SyscallNum::Unlink)
    } else if n == 1030 {
        Some(SyscallNum::Mkdir)
    } else if n == 1033 {
        Some(SyscallNum::Access)
    } else if n == 1038 {
        Some(SyscallNum::Stat)
    } else if n == 1039 {
        Some(SyscallNum::Lstat)
    } else if n == 1062 {
        Some(SyscallNum::Time)
    } else if n == 2011 {
        Some(SyscallNum::Getmainvars)
    } else {
        None
    }
}

/// One pending guest call: its number and the seven argument words.
#[derive(Debug, Clone, Copy, PartialEq, Eq)]
pub struct Syscall {
    pub num: SyscallNum,
    pub args: [u64; 7],
}

/// What the driver must do for a pending call. The host actions carry the
/// guest-register arguments; anything unrecognized is reported, not run.
#[derive(Debug, Clone, Copy, PartialEq, Eq, Structural)]
pub enum SyscallAction {
    /// Write `count` bytes of guest memory at `buf` to host descriptor `fd`.
    HostWrite { fd: u64, buf: u64, count: u64 },
    /// Fill the host record for descriptor `fd` at guest address `statbuf`.
    HostFstat { fd: u64, statbuf: u64 },
    /// Move the program break.
    DoBrk { new_end: u64 },
    /// Terminate with the low byte of `code`.
    Exit { code: u64 },
    /// A recognized number this core does not carry out.
    NotSupported,
}

/// Decide what the driver must do for a parsed call: the descriptor, buffer
/// and count come from argument words 0, 1 and 2.
pub fn syscall_action(sc: &Syscall) -> (r: SyscallAction)
    ensures
        sc.num == SyscallNum::Write ==> r == (SyscallAction::HostWrite {
            fd: sc.args@[0],
            buf: sc.args@[1],
            count: sc.args@[2],
        }),
        sc.num == SyscallNum::Fstat ==> r == (SyscallAction::HostFstat {
            fd: sc.args@[0],
            statbuf: sc.args@[1],
        }),
        sc.num == SyscallNum::Brk ==> r == (SyscallAction::DoBrk { new_end: sc.args@[0] }),
        sc.num == SyscallNum::Exit || sc.num == SyscallNum::ExitGroup ==> r
            == (SyscallAction::Exit { code: sc.args@[0] }),
        sc.num != SyscallNum::Write && sc.num != SyscallNum::Fstat && sc.num != SyscallNum::Brk
            && sc.num != SyscallNum::Exit && sc.num != SyscallNum::ExitGroup ==> r
            == SyscallAction::NotSupported,
{
    match sc.num {
        SyscallNum::Write => SyscallAction::HostWrite {
            fd: sc.args[0],
            buf: sc.args[1],
            count: sc.args[2],
        },
        SyscallNum::Fstat => SyscallAction::HostFstat { fd: sc.args[0], statbuf: sc.args[1] },
        SyscallNum::Brk => SyscallAction::DoBrk { new_end: sc.args[0] },
        SyscallNum::Exit => SyscallAction::Exit { code: sc.args[0] },
        SyscallNum::ExitGroup => SyscallAction::Exit { code: sc.args[0] },
        _ => SyscallAction::NotSupported,
    }
}

/// Carry out a program-break request: the moved break (or the queried one)
/// comes back as the guest result; an overflowing request comes back as all
/// ones and changes nothing. A request below the heap start is the one fatal
/// case and is handed up.
pub fn exec_brk<M: MemIf>(mem: &mut M, new_end: u64) -> (r: Result<u64, MemError>)
    requires
        old(mem).inv(),
    ensures
        final(mem).inv(),
        new_end == 0 ==> r == Ok::<u64, MemError>(old(mem).heap_end_val()) && *final(mem) == *old(
            mem,
        ),
        new_end != 0 && new_end < old(mem).heap_start_val() ==> r == Err::<u64, MemError>(
            MemError::HeapUnderflow,
        ) && *final(mem) == *old(mem),
        new_end != 0 && new_end >= old(mem).heap_start_val() && new_end - old(
            mem,
        ).heap_start_val() > old(mem).heap_max_val() ==> r == Ok::<u64, MemError>(u64::MAX)
            && *final(mem) == *old(mem),
        new_end != 0 && new_end >= old(mem).heap_start_val() && new_end - old(
            mem,
        ).heap_start_val() <= old(mem).heap_max_val() ==> r == Ok::<u64, MemError>(new_end)
            && M::brk_moved(*old(mem), *final(mem), new_end),
{
    match mem.brk(new_end) {
        Ok(v) => Ok(v),
        Err(MemError::HeapOverflow) => Ok(u64::MAX),
        Err(e) => Err(e),
    }
}

} // verus!
