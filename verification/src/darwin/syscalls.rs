//! Darwin/XNU BSD syscall table and dispatch.
//!
//! Syscall numbers are taken from Apple's open-source XNU kernel
//! (`bsd/kern/syscalls.master`) and are stable across macOS versions for
//! compatibility.
//!
//! # Syscall calling convention (x86-64 macOS / Darwin ABI)
//! `rax` = syscall number (BSD class: `0x2000000 | N`)
//! `rdi, rsi, rdx, r10, r8, r9` = arguments
//! `rcx` destroyed, `r11` destroyed
//! Returns: `rax` (value), `rdx` (2nd return), `CF` set on error.
use vstd::prelude::*;

verus! {

// ── Syscall numbers ────────────────────────────────────────────────────────────

/// Darwin BSD syscall number.  The `0x2000000` Unix-class offset is *not*
/// included — callers strip it before dispatch.  The number of each variant
/// is given by [`syscall_code`] and returned by [`SyscallNumber::to_raw`].
#[derive(Debug, Clone, Copy, PartialEq, Eq, Structural)]
#[allow(non_camel_case_types)]
pub enum SyscallNumber {
    // -- Process --
    Exit,
    Fork,
    Read,
    Write,
    Open,
    Close,
    Wait4,
    // (8 reserved)
    Link,
    Unlink,
    // (11 reserved)
    Chdir,
    Fchdir,
    Mknod,
    Chmod,
    Chown,
    // (17 reserved)
    Getfsstat,
    // (19 reserved)
    Getpid,
    // ...
    Setuid,
    Getuid,
    Geteuid,
    // ...
    Recvmsg,
    Sendmsg,
    Recvfrom,
    Accept,
    Getpeername,
    Getsockname,
    // ...
    Kill,
    // ...
    Getppid,
    // ...
    Dup,
    Pipe,
    Getegid,
    // ...
    Sigaction,
    Getgid,
    Sigprocmask,
    Getlogin,
    Setlogin,
    Acct,
    Sigpending,
    Sigaltstack,
    Ioctl,
    // ...
    Execve,
    Umask,
    Chroot,
    // ...
    Munmap,
    Mprotect,
    Madvise,
    // ...
    Mincore,
    Getgroups,
    Setgroups,
    Getpgrp,
    Setpgid,
    Setitimer,
    // ...
    Swapon,
    Getitimer,
    // ...
    Getdtablesize,
    Dup2,
    // ...
    Fcntl,
    Select,
    // ...
    Fsync,
    Setpriority,
    Socket,
    Connect,
    // ...
    Getpriority,
    // ...
    Bind,
    Setsockopt,
    Listen,
    // ...
    Sigsuspend,
    // ...
    Gettimeofday,
    Getrusage,
    Getsockopt,
    // ...
    Readv,
    Writev,
    Settimeofday,
    Fchown,
    Fchmod,
    // ...
    Setreuid,
    Setregid,
    Rename,
    // ...
    Flock,
    Mkfifo,
    Sendto,
    Shutdown,
    Socketpair,
    Mkdir,
    Rmdir,
    Utimes,
    Futimes,
    Adjtime,
    // ...
    Getpagesize,
    // ...
    Mmap,
    // ...
    Lseek,
    Truncate,
    Ftruncate,
    // ...
    Sysctl,
    Mlock,
    Munlock,
    Undelete,
    // ...
    Issetugid,
    // ...
    Posix_spawn,
    // ...
    // Catch-all for unrecognised numbers.
    Unknown,
}

/// The Darwin number of each syscall (the enum's `u32` representation).
pub open spec fn syscall_code(s: SyscallNumber) -> u32 {
    match s {
            SyscallNumber::Exit => 1,
            SyscallNumber::Fork => 2,
            SyscallNumber::Read => 3,
            SyscallNumber::Write => 4,
            SyscallNumber::Open => 5,
            SyscallNumber::Close => 6,
            SyscallNumber::Wait4 => 7,
            SyscallNumber::Link => 9,
            SyscallNumber::Unlink => 10,
            SyscallNumber::Chdir => 12,
            SyscallNumber::Fchdir => 13,
            SyscallNumber::Mknod => 14,
            SyscallNumber::Chmod => 15,
            SyscallNumber::Chown => 16,
            SyscallNumber::Getfsstat => 18,
            SyscallNumber::Getpid => 20,
            SyscallNumber::Setuid => 23,
            SyscallNumber::Getuid => 24,
            SyscallNumber::Geteuid => 25,
            SyscallNumber::Recvmsg => 27,
            SyscallNumber::Sendmsg => 28,
            SyscallNumber::Recvfrom => 29,
            SyscallNumber::Accept => 30,
            SyscallNumber::Getpeername => 31,
            SyscallNumber::Getsockname => 32,
            SyscallNumber::Kill => 37,
            SyscallNumber::Getppid => 39,
            SyscallNumber::Dup => 41,
            SyscallNumber::Pipe => 42,
            SyscallNumber::Getegid => 43,
            SyscallNumber::Sigaction => 46,
            SyscallNumber::Getgid => 47,
            SyscallNumber::Sigprocmask => 48,
            SyscallNumber::Getlogin => 49,
            SyscallNumber::Setlogin => 50,
            SyscallNumber::Acct => 51,
            SyscallNumber::Sigpending => 52,
            SyscallNumber::Sigaltstack => 53,
            SyscallNumber::Ioctl => 54,
            SyscallNumber::Execve => 59,
            SyscallNumber::Umask => 60,
            SyscallNumber::Chroot => 61,
            SyscallNumber::Munmap => 73,
            SyscallNumber::Mprotect => 74,
            SyscallNumber::Madvise => 75,
            SyscallNumber::Mincore => 78,
            SyscallNumber::Getgroups => 79,
            SyscallNumber::Setgroups => 80,
            SyscallNumber::Getpgrp => 81,
            SyscallNumber::Setpgid => 82,
            SyscallNumber::Setitimer => 83,
            SyscallNumber::Swapon => 85,
            SyscallNumber::Getitimer => 86,
            SyscallNumber::Getdtablesize => 89,
            SyscallNumber::Dup2 => 90,
            SyscallNumber::Fcntl => 92,
            SyscallNumber::Select => 93,
            SyscallNumber::Fsync => 95,
            SyscallNumber::Setpriority => 96,
            SyscallNumber::Socket => 97,
            SyscallNumber::Connect => 98,
            SyscallNumber::Getpriority => 100,
            SyscallNumber::Bind => 104,
            SyscallNumber::Setsockopt => 105,
            SyscallNumber::Listen => 106,
            SyscallNumber::Sigsuspend => 111,
            SyscallNumber::Gettimeofday => 116,
            SyscallNumber::Getrusage => 117,
            SyscallNumber::Getsockopt => 118,
            SyscallNumber::Readv => 120,
            SyscallNumber::Writev => 121,
            SyscallNumber::Settimeofday => 122,
            SyscallNumber::Fchown => 123,
            SyscallNumber::Fchmod => 124,
            SyscallNumber::Setreuid => 126,
            SyscallNumber::Setregid => 127,
            SyscallNumber::Rename => 128,
            SyscallNumber::Flock => 131,
            SyscallNumber::Mkfifo => 132,
            SyscallNumber::Sendto => 133,
            SyscallNumber::Shutdown => 134,
            SyscallNumber::Socketpair => 135,
            SyscallNumber::Mkdir => 136,
            SyscallNumber::Rmdir => 137,
            SyscallNumber::Utimes => 138,
            SyscallNumber::Futimes => 139,
            SyscallNumber::Adjtime => 140,
            SyscallNumber::Getpagesize => 190,
            SyscallNumber::Mmap => 197,
            SyscallNumber::Lseek => 199,
            SyscallNumber::Truncate => 200,
            SyscallNumber::Ftruncate => 201,
            SyscallNumber::Sysctl => 202,
            SyscallNumber::Mlock => 203,
            SyscallNumber::Munlock => 204,
            SyscallNumber::Undelete => 205,
            SyscallNumber::Issetugid => 327,
            SyscallNumber::Posix_spawn => 244,
            SyscallNumber::Unknown => 0xFFFF_FFFF,
    }
}

/// The variants that [`SyscallNumber::from_raw`] recognises: every named
/// syscall, that is all but the catch-all `Unknown`.
pub open spec fn is_decoded(s: SyscallNumber) -> bool {
    s != SyscallNumber::Unknown
}

/// The variant that a raw number decodes to: the recognised syscall that
/// carries that number, or `Unknown` when there is none.
pub open spec fn syscall_from_code(n: u32) -> SyscallNumber {
    if exists|s: SyscallNumber| #[trigger] is_decoded(s) && syscall_code(s) == n {
        choose|s: SyscallNumber| #[trigger] is_decoded(s) && syscall_code(s) == n
    } else {
        SyscallNumber::Unknown
    }
}

/// Distinct syscalls carry distinct numbers.
pub proof fn lemma_syscall_code_injective(a: SyscallNumber, b: SyscallNumber)
    requires
        syscall_code(a) == syscall_code(b),
    ensures
        a == b,
{
}


/// Decoding inverts numbering: every variant, `Unknown` included, is decoded
/// back from its own number.
pub proof fn lemma_from_code_of_code(s: SyscallNumber)
    ensures
        syscall_from_code(syscall_code(s)) == s,
{
    let n = syscall_code(s);
    if is_decoded(s) {
        assert(is_decoded(s) && syscall_code(s) == n);
        let c = choose|t: SyscallNumber| #[trigger] is_decoded(t) && syscall_code(t) == n;
        lemma_syscall_code_injective(c, s);
    } else {
        assert forall|t: SyscallNumber| #[trigger] is_decoded(t) implies syscall_code(t) != n by {
            if syscall_code(t) == n {
                lemma_syscall_code_injective(t, s);
            }
        }
    }
}

/// Numbering inverts decoding: a number that decodes to a named syscall is
/// that syscall's number.
pub proof fn lemma_code_of_from_code(n: u32)
    requires
        syscall_from_code(n) != SyscallNumber::Unknown,
    ensures
        is_decoded(syscall_from_code(n)),
        syscall_code(syscall_from_code(n)) == n,
{
}

/// Part 1 of the XNU syscall table, in the order of the enum.
proof fn lemma_xnu_syscall_numbers_1()
    ensures
        syscall_code(SyscallNumber::Exit) == 1 && syscall_from_code(1) == SyscallNumber::Exit,
        syscall_code(SyscallNumber::Fork) == 2 && syscall_from_code(2) == SyscallNumber::Fork,
        syscall_code(SyscallNumber::Read) == 3 && syscall_from_code(3) == SyscallNumber::Read,
        syscall_code(SyscallNumber::Write) == 4 && syscall_from_code(4) == SyscallNumber::Write,
        syscall_code(SyscallNumber::Open) == 5 && syscall_from_code(5) == SyscallNumber::Open,
        syscall_code(SyscallNumber::Close) == 6 && syscall_from_code(6) == SyscallNumber::Close,
        syscall_code(SyscallNumber::Wait4) == 7 && syscall_from_code(7) == SyscallNumber::Wait4,
        syscall_code(SyscallNumber::Link) == 9 && syscall_from_code(9) == SyscallNumber::Link,
        syscall_code(SyscallNumber::Unlink) == 10 && syscall_from_code(10) == SyscallNumber::Unlink,
        syscall_code(SyscallNumber::Chdir) == 12 && syscall_from_code(12) == SyscallNumber::Chdir,
        syscall_code(SyscallNumber::Fchdir) == 13 && syscall_from_code(13) == SyscallNumber::Fchdir,
        syscall_code(SyscallNumber::Mknod) == 14 && syscall_from_code(14) == SyscallNumber::Mknod,
        syscall_code(SyscallNumber::Chmod) == 15 && syscall_from_code(15) == SyscallNumber::Chmod,
        syscall_code(SyscallNumber::Chown) == 16 && syscall_from_code(16) == SyscallNumber::Chown,
        syscall_code(SyscallNumber::Getfsstat) == 18 && syscall_from_code(18) == SyscallNumber::Getfsstat,
        syscall_code(SyscallNumber::Getpid) == 20 && syscall_from_code(20) == SyscallNumber::Getpid,
        syscall_code(SyscallNumber::Setuid) == 23 && syscall_from_code(23) == SyscallNumber::Setuid,
        syscall_code(SyscallNumber::Getuid) == 24 && syscall_from_code(24) == SyscallNumber::Getuid,
        syscall_code(SyscallNumber::Geteuid) == 25 && syscall_from_code(25) == SyscallNumber::Geteuid,
        syscall_code(SyscallNumber::Recvmsg) == 27 && syscall_from_code(27) == SyscallNumber::Recvmsg,
{
    assert(syscall_from_code(1) == SyscallNumber::Exit) by {
        lemma_from_code_of_code(SyscallNumber::Exit);
    }
    assert(syscall_from_code(2) == SyscallNumber::Fork) by {
        lemma_from_code_of_code(SyscallNumber::Fork);
    }
    assert(syscall_from_code(3) == SyscallNumber::Read) by {
        lemma_from_code_of_code(SyscallNumber::Read);
    }
    assert(syscall_from_code(4) == SyscallNumber::Write) by {
        lemma_from_code_of_code(SyscallNumber::Write);
    }
    assert(syscall_from_code(5) == SyscallNumber::Open) by {
        lemma_from_code_of_code(SyscallNumber::Open);
    }
    assert(syscall_from_code(6) == SyscallNumber::Close) by {
        lemma_from_code_of_code(SyscallNumber::Close);
    }
    assert(syscall_from_code(7) == SyscallNumber::Wait4) by {
        lemma_from_code_of_code(SyscallNumber::Wait4);
    }
    assert(syscall_from_code(9) == SyscallNumber::Link) by {
        lemma_from_code_of_code(SyscallNumber::Link);
    }
    assert(syscall_from_code(10) == SyscallNumber::Unlink) by {
        lemma_from_code_of_code(SyscallNumber::Unlink);
    }
    assert(syscall_from_code(12) == SyscallNumber::Chdir) by {
        lemma_from_code_of_code(SyscallNumber::Chdir);
    }
    assert(syscall_from_code(13) == SyscallNumber::Fchdir) by {
        lemma_from_code_of_code(SyscallNumber::Fchdir);
    }
    assert(syscall_from_code(14) == SyscallNumber::Mknod) by {
        lemma_from_code_of_code(SyscallNumber::Mknod);
    }
    assert(syscall_from_code(15) == SyscallNumber::Chmod) by {
        lemma_from_code_of_code(SyscallNumber::Chmod);
    }
    assert(syscall_from_code(16) == SyscallNumber::Chown) by {
        lemma_from_code_of_code(SyscallNumber::Chown);
    }
    assert(syscall_from_code(18) == SyscallNumber::Getfsstat) by {
        lemma_from_code_of_code(SyscallNumber::Getfsstat);
    }
    assert(syscall_from_code(20) == SyscallNumber::Getpid) by {
        lemma_from_code_of_code(SyscallNumber::Getpid);
    }
    assert(syscall_from_code(23) == SyscallNumber::Setuid) by {
        lemma_from_code_of_code(SyscallNumber::Setuid);
    }
    assert(syscall_from_code(24) == SyscallNumber::Getuid) by {
        lemma_from_code_of_code(SyscallNumber::Getuid);
    }
    assert(syscall_from_code(25) == SyscallNumber::Geteuid) by {
        lemma_from_code_of_code(SyscallNumber::Geteuid);
    }
    assert(syscall_from_code(27) == SyscallNumber::Recvmsg) by {
        lemma_from_code_of_code(SyscallNumber::Recvmsg);
    }
}

/// Part 2 of the XNU syscall table, in the order of the enum.
proof fn lemma_xnu_syscall_numbers_2()
    ensures
        syscall_code(SyscallNumber::Sendmsg) == 28 && syscall_from_code(28) == SyscallNumber::Sendmsg,
        syscall_code(SyscallNumber::Recvfrom) == 29 && syscall_from_code(29) == SyscallNumber::Recvfrom,
        syscall_code(SyscallNumber::Accept) == 30 && syscall_from_code(30) == SyscallNumber::Accept,
        syscall_code(SyscallNumber::Getpeername) == 31 && syscall_from_code(31) == SyscallNumber::Getpeername,
        syscall_code(SyscallNumber::Getsockname) == 32 && syscall_from_code(32) == SyscallNumber::Getsockname,
        syscall_code(SyscallNumber::Kill) == 37 && syscall_from_code(37) == SyscallNumber::Kill,
        syscall_code(SyscallNumber::Getppid) == 39 && syscall_from_code(39) == SyscallNumber::Getppid,
        syscall_code(SyscallNumber::Dup) == 41 && syscall_from_code(41) == SyscallNumber::Dup,
        syscall_code(SyscallNumber::Pipe) == 42 && syscall_from_code(42) == SyscallNumber::Pipe,
        syscall_code(SyscallNumber::Getegid) == 43 && syscall_from_code(43) == SyscallNumber::Getegid,
        syscall_code(SyscallNumber::Sigaction) == 46 && syscall_from_code(46) == SyscallNumber::Sigaction,
        syscall_code(SyscallNumber::Getgid) == 47 && syscall_from_code(47) == SyscallNumber::Getgid,
        syscall_code(SyscallNumber::Sigprocmask) == 48 && syscall_from_code(48) == SyscallNumber::Sigprocmask,
        syscall_code(SyscallNumber::Getlogin) == 49 && syscall_from_code(49) == SyscallNumber::Getlogin,
        syscall_code(SyscallNumber::Setlogin) == 50 && syscall_from_code(50) == SyscallNumber::Setlogin,
        syscall_code(SyscallNumber::Acct) == 51 && syscall_from_code(51) == SyscallNumber::Acct,
        syscall_code(SyscallNumber::Sigpending) == 52 && syscall_from_code(52) == SyscallNumber::Sigpending,
        syscall_code(SyscallNumber::Sigaltstack) == 53 && syscall_from_code(53) == SyscallNumber::Sigaltstack,
        syscall_code(SyscallNumber::Ioctl) == 54 && syscall_from_code(54) == SyscallNumber::Ioctl,
        syscall_code(SyscallNumber::Execve) == 59 && syscall_from_code(59) == SyscallNumber::Execve,
{
    assert(syscall_from_code(28) == SyscallNumber::Sendmsg) by {
        lemma_from_code_of_code(SyscallNumber::Sendmsg);
    }
    assert(syscall_from_code(29) == SyscallNumber::Recvfrom) by {
        lemma_from_code_of_code(SyscallNumber::Recvfrom);
    }
    assert(syscall_from_code(30) == SyscallNumber::Accept) by {
        lemma_from_code_of_code(SyscallNumber::Accept);
    }
    assert(syscall_from_code(31) == SyscallNumber::Getpeername) by {
        lemma_from_code_of_code(SyscallNumber::Getpeername);
    }
    assert(syscall_from_code(32) == SyscallNumber::Getsockname) by {
        lemma_from_code_of_code(SyscallNumber::Getsockname);
    }
    assert(syscall_from_code(37) == SyscallNumber::Kill) by {
        lemma_from_code_of_code(SyscallNumber::Kill);
    }
    assert(syscall_from_code(39) == SyscallNumber::Getppid) by {
        lemma_from_code_of_code(SyscallNumber::Getppid);
    }
    assert(syscall_from_code(41) == SyscallNumber::Dup) by {
        lemma_from_code_of_code(SyscallNumber::Dup);
    }
    assert(syscall_from_code(42) == SyscallNumber::Pipe) by {
        lemma_from_code_of_code(SyscallNumber::Pipe);
    }
    assert(syscall_from_code(43) == SyscallNumber::Getegid) by {
        lemma_from_code_of_code(SyscallNumber::Getegid);
    }
    assert(syscall_from_code(46) == SyscallNumber::Sigaction) by {
        lemma_from_code_of_code(SyscallNumber::Sigaction);
    }
    assert(syscall_from_code(47) == SyscallNumber::Getgid) by {
        lemma_from_code_of_code(SyscallNumber::Getgid);
    }
    assert(syscall_from_code(48) == SyscallNumber::Sigprocmask) by {
        lemma_from_code_of_code(SyscallNumber::Sigprocmask);
    }
    assert(syscall_from_code(49) == SyscallNumber::Getlogin) by {
        lemma_from_code_of_code(SyscallNumber::Getlogin);
    }
    assert(syscall_from_code(50) == SyscallNumber::Setlogin) by {
        lemma_from_code_of_code(SyscallNumber::Setlogin);
    }
    assert(syscall_from_code(51) == SyscallNumber::Acct) by {
        lemma_from_code_of_code(SyscallNumber::Acct);
    }
    assert(syscall_from_code(52) == SyscallNumber::Sigpending) by {
        lemma_from_code_of_code(SyscallNumber::Sigpending);
    }
    assert(syscall_from_code(53) == SyscallNumber::Sigaltstack) by {
        lemma_from_code_of_code(SyscallNumber::Sigaltstack);
    }
    assert(syscall_from_code(54) == SyscallNumber::Ioctl) by {
        lemma_from_code_of_code(SyscallNumber::Ioctl);
    }
    assert(syscall_from_code(59) == SyscallNumber::Execve) by {
        lemma_from_code_of_code(SyscallNumber::Execve);
    }
}

/// Part 3 of the XNU syscall table, in the order of the enum.
proof fn lemma_xnu_syscall_numbers_3()
    ensures
        syscall_code(SyscallNumber::Umask) == 60 && syscall_from_code(60) == SyscallNumber::Umask,
        syscall_code(SyscallNumber::Chroot) == 61 && syscall_from_code(61) == SyscallNumber::Chroot,
        syscall_code(SyscallNumber::Munmap) == 73 && syscall_from_code(73) == SyscallNumber::Munmap,
        syscall_code(SyscallNumber::Mprotect) == 74 && syscall_from_code(74) == SyscallNumber::Mprotect,
        syscall_code(SyscallNumber::Madvise) == 75 && syscall_from_code(75) == SyscallNumber::Madvise,
        syscall_code(SyscallNumber::Mincore) == 78 && syscall_from_code(78) == SyscallNumber::Mincore,
        syscall_code(SyscallNumber::Getgroups) == 79 && syscall_from_code(79) == SyscallNumber::Getgroups,
        syscall_code(SyscallNumber::Setgroups) == 80 && syscall_from_code(80) == SyscallNumber::Setgroups,
        syscall_code(SyscallNumber::Getpgrp) == 81 && syscall_from_code(81) == SyscallNumber::Getpgrp,
        syscall_code(SyscallNumber::Setpgid) == 82 && syscall_from_code(82) == SyscallNumber::Setpgid,
        syscall_code(SyscallNumber::Setitimer) == 83 && syscall_from_code(83) == SyscallNumber::Setitimer,
        syscall_code(SyscallNumber::Swapon) == 85 && syscall_from_code(85) == SyscallNumber::Swapon,
        syscall_code(SyscallNumber::Getitimer) == 86 && syscall_from_code(86) == SyscallNumber::Getitimer,
        syscall_code(SyscallNumber::Getdtablesize) == 89 && syscall_from_code(89) == SyscallNumber::Getdtablesize,
        syscall_code(SyscallNumber::Dup2) == 90 && syscall_from_code(90) == SyscallNumber::Dup2,
        syscall_code(SyscallNumber::Fcntl) == 92 && syscall_from_code(92) == SyscallNumber::Fcntl,
        syscall_code(SyscallNumber::Select) == 93 && syscall_from_code(93) == SyscallNumber::Select,
        syscall_code(SyscallNumber::Fsync) == 95 && syscall_from_code(95) == SyscallNumber::Fsync,
        syscall_code(SyscallNumber::Setpriority) == 96 && syscall_from_code(96) == SyscallNumber::Setpriority,
        syscall_code(SyscallNumber::Socket) == 97 && syscall_from_code(97) == SyscallNumber::Socket,
{
    assert(syscall_from_code(60) == SyscallNumber::Umask) by {
        lemma_from_code_of_code(SyscallNumber::Umask);
    }
    assert(syscall_from_code(61) == SyscallNumber::Chroot) by {
        lemma_from_code_of_code(SyscallNumber::Chroot);
    }
    assert(syscall_from_code(73) == SyscallNumber::Munmap) by {
        lemma_from_code_of_code(SyscallNumber::Munmap);
    }
    assert(syscall_from_code(74) == SyscallNumber::Mprotect) by {
        lemma_from_code_of_code(SyscallNumber::Mprotect);
    }
    assert(syscall_from_code(75) == SyscallNumber::Madvise) by {
        lemma_from_code_of_code(SyscallNumber::Madvise);
    }
    assert(syscall_from_code(78) == SyscallNumber::Mincore) by {
        lemma_from_code_of_code(SyscallNumber::Mincore);
    }
    assert(syscall_from_code(79) == SyscallNumber::Getgroups) by {
        lemma_from_code_of_code(SyscallNumber::Getgroups);
    }
    assert(syscall_from_code(80) == SyscallNumber::Setgroups) by {
        lemma_from_code_of_code(SyscallNumber::Setgroups);
    }
    assert(syscall_from_code(81) == SyscallNumber::Getpgrp) by {
        lemma_from_code_of_code(SyscallNumber::Getpgrp);
    }
    assert(syscall_from_code(82) == SyscallNumber::Setpgid) by {
        lemma_from_code_of_code(SyscallNumber::Setpgid);
    }
    assert(syscall_from_code(83) == SyscallNumber::Setitimer) by {
        lemma_from_code_of_code(SyscallNumber::Setitimer);
    }
    assert(syscall_from_code(85) == SyscallNumber::Swapon) by {
        lemma_from_code_of_code(SyscallNumber::Swapon);
    }
    assert(syscall_from_code(86) == SyscallNumber::Getitimer) by {
        lemma_from_code_of_code(SyscallNumber::Getitimer);
    }
    assert(syscall_from_code(89) == SyscallNumber::Getdtablesize) by {
        lemma_from_code_of_code(SyscallNumber::Getdtablesize);
    }
    assert(syscall_from_code(90) == SyscallNumber::Dup2) by {
        lemma_from_code_of_code(SyscallNumber::Dup2);
    }
    assert(syscall_from_code(92) == SyscallNumber::Fcntl) by {
        lemma_from_code_of_code(SyscallNumber::Fcntl);
    }
    assert(syscall_from_code(93) == SyscallNumber::Select) by {
        lemma_from_code_of_code(SyscallNumber::Select);
    }
    assert(syscall_from_code(95) == SyscallNumber::Fsync) by {
        lemma_from_code_of_code(SyscallNumber::Fsync);
    }
    assert(syscall_from_code(96) == SyscallNumber::Setpriority) by {
        lemma_from_code_of_code(SyscallNumber::Setpriority);
    }
    assert(syscall_from_code(97) == SyscallNumber::Socket) by {
        lemma_from_code_of_code(SyscallNumber::Socket);
    }
}

/// Part 4 of the XNU syscall table, in the order of the enum.
proof fn lemma_xnu_syscall_numbers_4()
    ensures
        syscall_code(SyscallNumber::Connect) == 98 && syscall_from_code(98) == SyscallNumber::Connect,
        syscall_code(SyscallNumber::Getpriority) == 100 && syscall_from_code(100) == SyscallNumber::Getpriority,
        syscall_code(SyscallNumber::Bind) == 104 && syscall_from_code(104) == SyscallNumber::Bind,
        syscall_code(SyscallNumber::Setsockopt) == 105 && syscall_from_code(105) == SyscallNumber::Setsockopt,
        syscall_code(SyscallNumber::Listen) == 106 && syscall_from_code(106) == SyscallNumber::Listen,
        syscall_code(SyscallNumber::Sigsuspend) == 111 && syscall_from_code(111) == SyscallNumber::Sigsuspend,
        syscall_code(SyscallNumber::Gettimeofday) == 116 && syscall_from_code(116) == SyscallNumber::Gettimeofday,
        syscall_code(SyscallNumber::Getrusage) == 117 && syscall_from_code(117) == SyscallNumber::Getrusage,
        syscall_code(SyscallNumber::Getsockopt) == 118 && syscall_from_code(118) == SyscallNumber::Getsockopt,
        syscall_code(SyscallNumber::Readv) == 120 && syscall_from_code(120) == SyscallNumber::Readv,
        syscall_code(SyscallNumber::Writev) == 121 && syscall_from_code(121) == SyscallNumber::Writev,
        syscall_code(SyscallNumber::Settimeofday) == 122 && syscall_from_code(122) == SyscallNumber::Settimeofday,
        syscall_code(SyscallNumber::Fchown) == 123 && syscall_from_code(123) == SyscallNumber::Fchown,
        syscall_code(SyscallNumber::Fchmod) == 124 && syscall_from_code(124) == SyscallNumber::Fchmod,
        syscall_code(SyscallNumber::Setreuid) == 126 && syscall_from_code(126) == SyscallNumber::Setreuid,
        syscall_code(SyscallNumber::Setregid) == 127 && syscall_from_code(127) == SyscallNumber::Setregid,
        syscall_code(SyscallNumber::Rename) == 128 && syscall_from_code(128) == SyscallNumber::Rename,
        syscall_code(SyscallNumber::Flock) == 131 && syscall_from_code(131) == SyscallNumber::Flock,
        syscall_code(SyscallNumber::Mkfifo) == 132 && syscall_from_code(132) == SyscallNumber::Mkfifo,
        syscall_code(SyscallNumber::Sendto) == 133 && syscall_from_code(133) == SyscallNumber::Sendto,
{
    assert(syscall_from_code(98) == SyscallNumber::Connect) by {
        lemma_from_code_of_code(SyscallNumber::Connect);
    }
    assert(syscall_from_code(100) == SyscallNumber::Getpriority) by {
        lemma_from_code_of_code(SyscallNumber::Getpriority);
    }
    assert(syscall_from_code(104) == SyscallNumber::Bind) by {
        lemma_from_code_of_code(SyscallNumber::Bind);
    }
    assert(syscall_from_code(105) == SyscallNumber::Setsockopt) by {
        lemma_from_code_of_code(SyscallNumber::Setsockopt);
    }
    assert(syscall_from_code(106) == SyscallNumber::Listen) by {
        lemma_from_code_of_code(SyscallNumber::Listen);
    }
    assert(syscall_from_code(111) == SyscallNumber::Sigsuspend) by {
        lemma_from_code_of_code(SyscallNumber::Sigsuspend);
    }
    assert(syscall_from_code(116) == SyscallNumber::Gettimeofday) by {
        lemma_from_code_of_code(SyscallNumber::Gettimeofday);
    }
    assert(syscall_from_code(117) == SyscallNumber::Getrusage) by {
        lemma_from_code_of_code(SyscallNumber::Getrusage);
    }
    assert(syscall_from_code(118) == SyscallNumber::Getsockopt) by {
        lemma_from_code_of_code(SyscallNumber::Getsockopt);
    }
    assert(syscall_from_code(120) == SyscallNumber::Readv) by {
        lemma_from_code_of_code(SyscallNumber::Readv);
    }
    assert(syscall_from_code(121) == SyscallNumber::Writev) by {
        lemma_from_code_of_code(SyscallNumber::Writev);
    }
    assert(syscall_from_code(122) == SyscallNumber::Settimeofday) by {
        lemma_from_code_of_code(SyscallNumber::Settimeofday);
    }
    assert(syscall_from_code(123) == SyscallNumber::Fchown) by {
        lemma_from_code_of_code(SyscallNumber::Fchown);
    }
    assert(syscall_from_code(124) == SyscallNumber::Fchmod) by {
        lemma_from_code_of_code(SyscallNumber::Fchmod);
    }
    assert(syscall_from_code(126) == SyscallNumber::Setreuid) by {
        lemma_from_code_of_code(SyscallNumber::Setreuid);
    }
    assert(syscall_from_code(127) == SyscallNumber::Setregid) by {
        lemma_from_code_of_code(SyscallNumber::Setregid);
    }
    assert(syscall_from_code(128) == SyscallNumber::Rename) by {
        lemma_from_code_of_code(SyscallNumber::Rename);
    }
    assert(syscall_from_code(131) == SyscallNumber::Flock) by {
        lemma_from_code_of_code(SyscallNumber::Flock);
    }
    assert(syscall_from_code(132) == SyscallNumber::Mkfifo) by {
        lemma_from_code_of_code(SyscallNumber::Mkfifo);
    }
    assert(syscall_from_code(133) == SyscallNumber::Sendto) by {
        lemma_from_code_of_code(SyscallNumber::Sendto);
    }
}

/// Part 5 of the XNU syscall table, in the order of the enum.
proof fn lemma_xnu_syscall_numbers_5()
    ensures
        syscall_code(SyscallNumber::Shutdown) == 134 && syscall_from_code(134) == SyscallNumber::Shutdown,
        syscall_code(SyscallNumber::Socketpair) == 135 && syscall_from_code(135) == SyscallNumber::Socketpair,
        syscall_code(SyscallNumber::Mkdir) == 136 && syscall_from_code(136) == SyscallNumber::Mkdir,
        syscall_code(SyscallNumber::Rmdir) == 137 && syscall_from_code(137) == SyscallNumber::Rmdir,
        syscall_code(SyscallNumber::Utimes) == 138 && syscall_from_code(138) == SyscallNumber::Utimes,
        syscall_code(SyscallNumber::Futimes) == 139 && syscall_from_code(139) == SyscallNumber::Futimes,
        syscall_code(SyscallNumber::Adjtime) == 140 && syscall_from_code(140) == SyscallNumber::Adjtime,
        syscall_code(SyscallNumber::Getpagesize) == 190 && syscall_from_code(190) == SyscallNumber::Getpagesize,
        syscall_code(SyscallNumber::Mmap) == 197 && syscall_from_code(197) == SyscallNumber::Mmap,
        syscall_code(SyscallNumber::Lseek) == 199 && syscall_from_code(199) == SyscallNumber::Lseek,
        syscall_code(SyscallNumber::Truncate) == 200 && syscall_from_code(200) == SyscallNumber::Truncate,
        syscall_code(SyscallNumber::Ftruncate) == 201 && syscall_from_code(201) == SyscallNumber::Ftruncate,
        syscall_code(SyscallNumber::Sysctl) == 202 && syscall_from_code(202) == SyscallNumber::Sysctl,
        syscall_code(SyscallNumber::Mlock) == 203 && syscall_from_code(203) == SyscallNumber::Mlock,
        syscall_code(SyscallNumber::Munlock) == 204 && syscall_from_code(204) == SyscallNumber::Munlock,
        syscall_code(SyscallNumber::Undelete) == 205 && syscall_from_code(205) == SyscallNumber::Undelete,
        syscall_code(SyscallNumber::Issetugid) == 327 && syscall_from_code(327) == SyscallNumber::Issetugid,
        syscall_code(SyscallNumber::Posix_spawn) == 244 && syscall_from_code(244) == SyscallNumber::Posix_spawn,
{
    assert(syscall_from_code(134) == SyscallNumber::Shutdown) by {
        lemma_from_code_of_code(SyscallNumber::Shutdown);
    }
    assert(syscall_from_code(135) == SyscallNumber::Socketpair) by {
        lemma_from_code_of_code(SyscallNumber::Socketpair);
    }
    assert(syscall_from_code(136) == SyscallNumber::Mkdir) by {
        lemma_from_code_of_code(SyscallNumber::Mkdir);
    }
    assert(syscall_from_code(137) == SyscallNumber::Rmdir) by {
        lemma_from_code_of_code(SyscallNumber::Rmdir);
    }
    assert(syscall_from_code(138) == SyscallNumber::Utimes) by {
        lemma_from_code_of_code(SyscallNumber::Utimes);
    }
    assert(syscall_from_code(139) == SyscallNumber::Futimes) by {
        lemma_from_code_of_code(SyscallNumber::Futimes);
    }
    assert(syscall_from_code(140) == SyscallNumber::Adjtime) by {
        lemma_from_code_of_code(SyscallNumber::Adjtime);
    }
    assert(syscall_from_code(190) == SyscallNumber::Getpagesize) by {
        lemma_from_code_of_code(SyscallNumber::Getpagesize);
    }
    assert(syscall_from_code(197) == SyscallNumber::Mmap) by {
        lemma_from_code_of_code(SyscallNumber::Mmap);
    }
    assert(syscall_from_code(199) == SyscallNumber::Lseek) by {
        lemma_from_code_of_code(SyscallNumber::Lseek);
    }
    assert(syscall_from_code(200) == SyscallNumber::Truncate) by {
        lemma_from_code_of_code(SyscallNumber::Truncate);
    }
    assert(syscall_from_code(201) == SyscallNumber::Ftruncate) by {
        lemma_from_code_of_code(SyscallNumber::Ftruncate);
    }
    assert(syscall_from_code(202) == SyscallNumber::Sysctl) by {
        lemma_from_code_of_code(SyscallNumber::Sysctl);
    }
    assert(syscall_from_code(203) == SyscallNumber::Mlock) by {
        lemma_from_code_of_code(SyscallNumber::Mlock);
    }
    assert(syscall_from_code(204) == SyscallNumber::Munlock) by {
        lemma_from_code_of_code(SyscallNumber::Munlock);
    }
    assert(syscall_from_code(205) == SyscallNumber::Undelete) by {
        lemma_from_code_of_code(SyscallNumber::Undelete);
    }
    assert(syscall_from_code(327) == SyscallNumber::Issetugid) by {
        lemma_from_code_of_code(SyscallNumber::Issetugid);
    }
    assert(syscall_from_code(244) == SyscallNumber::Posix_spawn) by {
        lemma_from_code_of_code(SyscallNumber::Posix_spawn);
    }
}

/// The syscall table of XNU's `bsd/kern/syscalls.master`: each named
/// syscall carries its Darwin number, and that number decodes back to it.
pub proof fn lemma_xnu_syscall_numbers()
    ensures
        syscall_code(SyscallNumber::Exit) == 1 && syscall_from_code(1) == SyscallNumber::Exit,
        syscall_code(SyscallNumber::Fork) == 2 && syscall_from_code(2) == SyscallNumber::Fork,
        syscall_code(SyscallNumber::Read) == 3 && syscall_from_code(3) == SyscallNumber::Read,
        syscall_code(SyscallNumber::Write) == 4 && syscall_from_code(4) == SyscallNumber::Write,
        syscall_code(SyscallNumber::Open) == 5 && syscall_from_code(5) == SyscallNumber::Open,
        syscall_code(SyscallNumber::Close) == 6 && syscall_from_code(6) == SyscallNumber::Close,
        syscall_code(SyscallNumber::Wait4) == 7 && syscall_from_code(7) == SyscallNumber::Wait4,
        syscall_code(SyscallNumber::Link) == 9 && syscall_from_code(9) == SyscallNumber::Link,
        syscall_code(SyscallNumber::Unlink) == 10 && syscall_from_code(10) == SyscallNumber::Unlink,
        syscall_code(SyscallNumber::Chdir) == 12 && syscall_from_code(12) == SyscallNumber::Chdir,
        syscall_code(SyscallNumber::Fchdir) == 13 && syscall_from_code(13) == SyscallNumber::Fchdir,
        syscall_code(SyscallNumber::Mknod) == 14 && syscall_from_code(14) == SyscallNumber::Mknod,
        syscall_code(SyscallNumber::Chmod) == 15 && syscall_from_code(15) == SyscallNumber::Chmod,
        syscall_code(SyscallNumber::Chown) == 16 && syscall_from_code(16) == SyscallNumber::Chown,
        syscall_code(SyscallNumber::Getfsstat) == 18 && syscall_from_code(18) == SyscallNumber::Getfsstat,
        syscall_code(SyscallNumber::Getpid) == 20 && syscall_from_code(20) == SyscallNumber::Getpid,
        syscall_code(SyscallNumber::Setuid) == 23 && syscall_from_code(23) == SyscallNumber::Setuid,
        syscall_code(SyscallNumber::Getuid) == 24 && syscall_from_code(24) == SyscallNumber::Getuid,
        syscall_code(SyscallNumber::Geteuid) == 25 && syscall_from_code(25) == SyscallNumber::Geteuid,
        syscall_code(SyscallNumber::Recvmsg) == 27 && syscall_from_code(27) == SyscallNumber::Recvmsg,
        syscall_code(SyscallNumber::Sendmsg) == 28 && syscall_from_code(28) == SyscallNumber::Sendmsg,
        syscall_code(SyscallNumber::Recvfrom) == 29 && syscall_from_code(29) == SyscallNumber::Recvfrom,
        syscall_code(SyscallNumber::Accept) == 30 && syscall_from_code(30) == SyscallNumber::Accept,
        syscall_code(SyscallNumber::Getpeername) == 31 && syscall_from_code(31) == SyscallNumber::Getpeername,
        syscall_code(SyscallNumber::Getsockname) == 32 && syscall_from_code(32) == SyscallNumber::Getsockname,
        syscall_code(SyscallNumber::Kill) == 37 && syscall_from_code(37) == SyscallNumber::Kill,
        syscall_code(SyscallNumber::Getppid) == 39 && syscall_from_code(39) == SyscallNumber::Getppid,
        syscall_code(SyscallNumber::Dup) == 41 && syscall_from_code(41) == SyscallNumber::Dup,
        syscall_code(SyscallNumber::Pipe) == 42 && syscall_from_code(42) == SyscallNumber::Pipe,
        syscall_code(SyscallNumber::Getegid) == 43 && syscall_from_code(43) == SyscallNumber::Getegid,
        syscall_code(SyscallNumber::Sigaction) == 46 && syscall_from_code(46) == SyscallNumber::Sigaction,
        syscall_code(SyscallNumber::Getgid) == 47 && syscall_from_code(47) == SyscallNumber::Getgid,
        syscall_code(SyscallNumber::Sigprocmask) == 48 && syscall_from_code(48) == SyscallNumber::Sigprocmask,
        syscall_code(SyscallNumber::Getlogin) == 49 && syscall_from_code(49) == SyscallNumber::Getlogin,
        syscall_code(SyscallNumber::Setlogin) == 50 && syscall_from_code(50) == SyscallNumber::Setlogin,
        syscall_code(SyscallNumber::Acct) == 51 && syscall_from_code(51) == SyscallNumber::Acct,
        syscall_code(SyscallNumber::Sigpending) == 52 && syscall_from_code(52) == SyscallNumber::Sigpending,
        syscall_code(SyscallNumber::Sigaltstack) == 53 && syscall_from_code(53) == SyscallNumber::Sigaltstack,
        syscall_code(SyscallNumber::Ioctl) == 54 && syscall_from_code(54) == SyscallNumber::Ioctl,
        syscall_code(SyscallNumber::Execve) == 59 && syscall_from_code(59) == SyscallNumber::Execve,
        syscall_code(SyscallNumber::Umask) == 60 && syscall_from_code(60) == SyscallNumber::Umask,
        syscall_code(SyscallNumber::Chroot) == 61 && syscall_from_code(61) == SyscallNumber::Chroot,
        syscall_code(SyscallNumber::Munmap) == 73 && syscall_from_code(73) == SyscallNumber::Munmap,
        syscall_code(SyscallNumber::Mprotect) == 74 && syscall_from_code(74) == SyscallNumber::Mprotect,
        syscall_code(SyscallNumber::Madvise) == 75 && syscall_from_code(75) == SyscallNumber::Madvise,
        syscall_code(SyscallNumber::Mincore) == 78 && syscall_from_code(78) == SyscallNumber::Mincore,
        syscall_code(SyscallNumber::Getgroups) == 79 && syscall_from_code(79) == SyscallNumber::Getgroups,
        syscall_code(SyscallNumber::Setgroups) == 80 && syscall_from_code(80) == SyscallNumber::Setgroups,
        syscall_code(SyscallNumber::Getpgrp) == 81 && syscall_from_code(81) == SyscallNumber::Getpgrp,
        syscall_code(SyscallNumber::Setpgid) == 82 && syscall_from_code(82) == SyscallNumber::Setpgid,
        syscall_code(SyscallNumber::Setitimer) == 83 && syscall_from_code(83) == SyscallNumber::Setitimer,
        syscall_code(SyscallNumber::Swapon) == 85 && syscall_from_code(85) == SyscallNumber::Swapon,
        syscall_code(SyscallNumber::Getitimer) == 86 && syscall_from_code(86) == SyscallNumber::Getitimer,
        syscall_code(SyscallNumber::Getdtablesize) == 89 && syscall_from_code(89) == SyscallNumber::Getdtablesize,
        syscall_code(SyscallNumber::Dup2) == 90 && syscall_from_code(90) == SyscallNumber::Dup2,
        syscall_code(SyscallNumber::Fcntl) == 92 && syscall_from_code(92) == SyscallNumber::Fcntl,
        syscall_code(SyscallNumber::Select) == 93 && syscall_from_code(93) == SyscallNumber::Select,
        syscall_code(SyscallNumber::Fsync) == 95 && syscall_from_code(95) == SyscallNumber::Fsync,
        syscall_code(SyscallNumber::Setpriority) == 96 && syscall_from_code(96) == SyscallNumber::Setpriority,
        syscall_code(SyscallNumber::Socket) == 97 && syscall_from_code(97) == SyscallNumber::Socket,
        syscall_code(SyscallNumber::Connect) == 98 && syscall_from_code(98) == SyscallNumber::Connect,
        syscall_code(SyscallNumber::Getpriority) == 100 && syscall_from_code(100) == SyscallNumber::Getpriority,
        syscall_code(SyscallNumber::Bind) == 104 && syscall_from_code(104) == SyscallNumber::Bind,
        syscall_code(SyscallNumber::Setsockopt) == 105 && syscall_from_code(105) == SyscallNumber::Setsockopt,
        syscall_code(SyscallNumber::Listen) == 106 && syscall_from_code(106) == SyscallNumber::Listen,
        syscall_code(SyscallNumber::Sigsuspend) == 111 && syscall_from_code(111) == SyscallNumber::Sigsuspend,
        syscall_code(SyscallNumber::Gettimeofday) == 116 && syscall_from_code(116) == SyscallNumber::Gettimeofday,
        syscall_code(SyscallNumber::Getrusage) == 117 && syscall_from_code(117) == SyscallNumber::Getrusage,
        syscall_code(SyscallNumber::Getsockopt) == 118 && syscall_from_code(118) == SyscallNumber::Getsockopt,
        syscall_code(SyscallNumber::Readv) == 120 && syscall_from_code(120) == SyscallNumber::Readv,
        syscall_code(SyscallNumber::Writev) == 121 && syscall_from_code(121) == SyscallNumber::Writev,
        syscall_code(SyscallNumber::Settimeofday) == 122 && syscall_from_code(122) == SyscallNumber::Settimeofday,
        syscall_code(SyscallNumber::Fchown) == 123 && syscall_from_code(123) == SyscallNumber::Fchown,
        syscall_code(SyscallNumber::Fchmod) == 124 && syscall_from_code(124) == SyscallNumber::Fchmod,
        syscall_code(SyscallNumber::Setreuid) == 126 && syscall_from_code(126) == SyscallNumber::Setreuid,
        syscall_code(SyscallNumber::Setregid) == 127 && syscall_from_code(127) == SyscallNumber::Setregid,
        syscall_code(SyscallNumber::Rename) == 128 && syscall_from_code(128) == SyscallNumber::Rename,
        syscall_code(SyscallNumber::Flock) == 131 && syscall_from_code(131) == SyscallNumber::Flock,
        syscall_code(SyscallNumber::Mkfifo) == 132 && syscall_from_code(132) == SyscallNumber::Mkfifo,
        syscall_code(SyscallNumber::Sendto) == 133 && syscall_from_code(133) == SyscallNumber::Sendto,
        syscall_code(SyscallNumber::Shutdown) == 134 && syscall_from_code(134) == SyscallNumber::Shutdown,
        syscall_code(SyscallNumber::Socketpair) == 135 && syscall_from_code(135) == SyscallNumber::Socketpair,
        syscall_code(SyscallNumber::Mkdir) == 136 && syscall_from_code(136) == SyscallNumber::Mkdir,
        syscall_code(SyscallNumber::Rmdir) == 137 && syscall_from_code(137) == SyscallNumber::Rmdir,
        syscall_code(SyscallNumber::Utimes) == 138 && syscall_from_code(138) == SyscallNumber::Utimes,
        syscall_code(SyscallNumber::Futimes) == 139 && syscall_from_code(139) == SyscallNumber::Futimes,
        syscall_code(SyscallNumber::Adjtime) == 140 && syscall_from_code(140) == SyscallNumber::Adjtime,
        syscall_code(SyscallNumber::Getpagesize) == 190 && syscall_from_code(190) == SyscallNumber::Getpagesize,
        syscall_code(SyscallNumber::Mmap) == 197 && syscall_from_code(197) == SyscallNumber::Mmap,
        syscall_code(SyscallNumber::Lseek) == 199 && syscall_from_code(199) == SyscallNumber::Lseek,
        syscall_code(SyscallNumber::Truncate) == 200 && syscall_from_code(200) == SyscallNumber::Truncate,
        syscall_code(SyscallNumber::Ftruncate) == 201 && syscall_from_code(201) == SyscallNumber::Ftruncate,
        syscall_code(SyscallNumber::Sysctl) == 202 && syscall_from_code(202) == SyscallNumber::Sysctl,
        syscall_code(SyscallNumber::Mlock) == 203 && syscall_from_code(203) == SyscallNumber::Mlock,
        syscall_code(SyscallNumber::Munlock) == 204 && syscall_from_code(204) == SyscallNumber::Munlock,
        syscall_code(SyscallNumber::Undelete) == 205 && syscall_from_code(205) == SyscallNumber::Undelete,
        syscall_code(SyscallNumber::Issetugid) == 327 && syscall_from_code(327) == SyscallNumber::Issetugid,
        syscall_code(SyscallNumber::Posix_spawn) == 244 && syscall_from_code(244) == SyscallNumber::Posix_spawn,
{
    lemma_xnu_syscall_numbers_1();
    lemma_xnu_syscall_numbers_2();
    lemma_xnu_syscall_numbers_3();
    lemma_xnu_syscall_numbers_4();
    lemma_xnu_syscall_numbers_5();
}

/// Numbers that XNU leaves unassigned, or that this table does not know,
/// decode to `Unknown`: a number decodes to a named syscall only when that
/// syscall carries it.
pub proof fn lemma_unassigned_numbers_unknown(n: u32)
    requires
        forall|s: SyscallNumber| is_decoded(s) ==> #[trigger] syscall_code(s) != n,
    ensures
        syscall_from_code(n) == SyscallNumber::Unknown,
{
}

impl SyscallNumber {
    /// Convert a raw `u32` syscall number (BSD class stripped) to the enum.
    pub fn from_raw(n: u32) -> (r: Self)
        ensures
            r == syscall_from_code(n),
            r != SyscallNumber::Unknown ==> is_decoded(r) && syscall_code(r) == n,
    {
        let r = match n {
            1 => SyscallNumber::Exit,
            2 => SyscallNumber::Fork,
            3 => SyscallNumber::Read,
            4 => SyscallNumber::Write,
            5 => SyscallNumber::Open,
            6 => SyscallNumber::Close,
            7 => SyscallNumber::Wait4,
            9 => SyscallNumber::Link,
            10 => SyscallNumber::Unlink,
            12 => SyscallNumber::Chdir,
            13 => SyscallNumber::Fchdir,
            14 => SyscallNumber::Mknod,
            15 => SyscallNumber::Chmod,
            16 => SyscallNumber::Chown,
            18 => SyscallNumber::Getfsstat,
            20 => SyscallNumber::Getpid,
            23 => SyscallNumber::Setuid,
            24 => SyscallNumber::Getuid,
            25 => SyscallNumber::Geteuid,
            27 => SyscallNumber::Recvmsg,
            28 => SyscallNumber::Sendmsg,
            29 => SyscallNumber::Recvfrom,
            30 => SyscallNumber::Accept,
            31 => SyscallNumber::Getpeername,
            32 => SyscallNumber::Getsockname,
            37 => SyscallNumber::Kill,
            39 => SyscallNumber::Getppid,
            41 => SyscallNumber::Dup,
            42 => SyscallNumber::Pipe,
            43 => SyscallNumber::Getegid,
            46 => SyscallNumber::Sigaction,
            47 => SyscallNumber::Getgid,
            48 => SyscallNumber::Sigprocmask,
            49 => SyscallNumber::Getlogin,
            50 => SyscallNumber::Setlogin,
            51 => SyscallNumber::Acct,
            52 => SyscallNumber::Sigpending,
            53 => SyscallNumber::Sigaltstack,
            54 => SyscallNumber::Ioctl,
            59 => SyscallNumber::Execve,
            60 => SyscallNumber::Umask,
            61 => SyscallNumber::Chroot,
            73 => SyscallNumber::Munmap,
            74 => SyscallNumber::Mprotect,
            75 => SyscallNumber::Madvise,
            78 => SyscallNumber::Mincore,
            79 => SyscallNumber::Getgroups,
            80 => SyscallNumber::Setgroups,
            81 => SyscallNumber::Getpgrp,
            82 => SyscallNumber::Setpgid,
            83 => SyscallNumber::Setitimer,
            85 => SyscallNumber::Swapon,
            86 => SyscallNumber::Getitimer,
            89 => SyscallNumber::Getdtablesize,
            90 => SyscallNumber::Dup2,
            92 => SyscallNumber::Fcntl,
            93 => SyscallNumber::Select,
            95 => SyscallNumber::Fsync,
            96 => SyscallNumber::Setpriority,
            97 => SyscallNumber::Socket,
            98 => SyscallNumber::Connect,
            100 => SyscallNumber::Getpriority,
            104 => SyscallNumber::Bind,
            105 => SyscallNumber::Setsockopt,
            106 => SyscallNumber::Listen,
            111 => SyscallNumber::Sigsuspend,
            116 => SyscallNumber::Gettimeofday,
            117 => SyscallNumber::Getrusage,
            118 => SyscallNumber::Getsockopt,
            120 => SyscallNumber::Readv,
            121 => SyscallNumber::Writev,
            122 => SyscallNumber::Settimeofday,
            123 => SyscallNumber::Fchown,
            124 => SyscallNumber::Fchmod,
            126 => SyscallNumber::Setreuid,
            127 => SyscallNumber::Setregid,
            128 => SyscallNumber::Rename,
            131 => SyscallNumber::Flock,
            132 => SyscallNumber::Mkfifo,
            133 => SyscallNumber::Sendto,
            134 => SyscallNumber::Shutdown,
            135 => SyscallNumber::Socketpair,
            136 => SyscallNumber::Mkdir,
            137 => SyscallNumber::Rmdir,
            138 => SyscallNumber::Utimes,
            139 => SyscallNumber::Futimes,
            140 => SyscallNumber::Adjtime,
            190 => SyscallNumber::Getpagesize,
            197 => SyscallNumber::Mmap,
            199 => SyscallNumber::Lseek,
            200 => SyscallNumber::Truncate,
            201 => SyscallNumber::Ftruncate,
            202 => SyscallNumber::Sysctl,
            203 => SyscallNumber::Mlock,
            204 => SyscallNumber::Munlock,
            205 => SyscallNumber::Undelete,
            244 => SyscallNumber::Posix_spawn,
            327 => SyscallNumber::Issetugid,
            _ => SyscallNumber::Unknown,
        };
        proof {
            if r != SyscallNumber::Unknown {
                let c = choose|s: SyscallNumber| #[trigger] is_decoded(s) && syscall_code(s) == n;
                assert(is_decoded(r) && syscall_code(r) == n);
                lemma_syscall_code_injective(c, r);
            }
        }
        r
    }

    /// The Darwin number of this syscall.
    pub fn to_raw(self) -> (n: u32)
        ensures
            n == syscall_code(self),
    {
        match self {
            SyscallNumber::Exit => 1,
            SyscallNumber::Fork => 2,
            SyscallNumber::Read => 3,
            SyscallNumber::Write => 4,
            SyscallNumber::Open => 5,
            SyscallNumber::Close => 6,
            SyscallNumber::Wait4 => 7,
            SyscallNumber::Link => 9,
            SyscallNumber::Unlink => 10,
            SyscallNumber::Chdir => 12,
            SyscallNumber::Fchdir => 13,
            SyscallNumber::Mknod => 14,
            SyscallNumber::Chmod => 15,
            SyscallNumber::Chown => 16,
            SyscallNumber::Getfsstat => 18,
            SyscallNumber::Getpid => 20,
            SyscallNumber::Setuid => 23,
            SyscallNumber::Getuid => 24,
            SyscallNumber::Geteuid => 25,
            SyscallNumber::Recvmsg => 27,
            SyscallNumber::Sendmsg => 28,
            SyscallNumber::Recvfrom => 29,
            SyscallNumber::Accept => 30,
            SyscallNumber::Getpeername => 31,
            SyscallNumber::Getsockname => 32,
            SyscallNumber::Kill => 37,
            SyscallNumber::Getppid => 39,
            SyscallNumber::Dup => 41,
            SyscallNumber::Pipe => 42,
            SyscallNumber::Getegid => 43,
            SyscallNumber::Sigaction => 46,
            SyscallNumber::Getgid => 47,
            SyscallNumber::Sigprocmask => 48,
            SyscallNumber::Getlogin => 49,
            SyscallNumber::Setlogin => 50,
            SyscallNumber::Acct => 51,
            SyscallNumber::Sigpending => 52,
            SyscallNumber::Sigaltstack => 53,
            SyscallNumber::Ioctl => 54,
            SyscallNumber::Execve => 59,
            SyscallNumber::Umask => 60,
            SyscallNumber::Chroot => 61,
            SyscallNumber::Munmap => 73,
            SyscallNumber::Mprotect => 74,
            SyscallNumber::Madvise => 75,
            SyscallNumber::Mincore => 78,
            SyscallNumber::Getgroups => 79,
            SyscallNumber::Setgroups => 80,
            SyscallNumber::Getpgrp => 81,
            SyscallNumber::Setpgid => 82,
            SyscallNumber::Setitimer => 83,
            SyscallNumber::Swapon => 85,
            SyscallNumber::Getitimer => 86,
            SyscallNumber::Getdtablesize => 89,
            SyscallNumber::Dup2 => 90,
            SyscallNumber::Fcntl => 92,
            SyscallNumber::Select => 93,
            SyscallNumber::Fsync => 95,
            SyscallNumber::Setpriority => 96,
            SyscallNumber::Socket => 97,
            SyscallNumber::Connect => 98,
            SyscallNumber::Getpriority => 100,
            SyscallNumber::Bind => 104,
            SyscallNumber::Setsockopt => 105,
            SyscallNumber::Listen => 106,
            SyscallNumber::Sigsuspend => 111,
            SyscallNumber::Gettimeofday => 116,
            SyscallNumber::Getrusage => 117,
            SyscallNumber::Getsockopt => 118,
            SyscallNumber::Readv => 120,
            SyscallNumber::Writev => 121,
            SyscallNumber::Settimeofday => 122,
            SyscallNumber::Fchown => 123,
            SyscallNumber::Fchmod => 124,
            SyscallNumber::Setreuid => 126,
            SyscallNumber::Setregid => 127,
            SyscallNumber::Rename => 128,
            SyscallNumber::Flock => 131,
            SyscallNumber::Mkfifo => 132,
            SyscallNumber::Sendto => 133,
            SyscallNumber::Shutdown => 134,
            SyscallNumber::Socketpair => 135,
            SyscallNumber::Mkdir => 136,
            SyscallNumber::Rmdir => 137,
            SyscallNumber::Utimes => 138,
            SyscallNumber::Futimes => 139,
            SyscallNumber::Adjtime => 140,
            SyscallNumber::Getpagesize => 190,
            SyscallNumber::Mmap => 197,
            SyscallNumber::Lseek => 199,
            SyscallNumber::Truncate => 200,
            SyscallNumber::Ftruncate => 201,
            SyscallNumber::Sysctl => 202,
            SyscallNumber::Mlock => 203,
            SyscallNumber::Munlock => 204,
            SyscallNumber::Undelete => 205,
            SyscallNumber::Issetugid => 327,
            SyscallNumber::Posix_spawn => 244,
            SyscallNumber::Unknown => 0xFFFF_FFFF,
        }
    }
}


// ── Result type ───────────────────────────────────────────────────────────────

/// The result of a Darwin syscall dispatch.
#[derive(Debug, Clone, Copy, PartialEq, Eq, Structural)]
pub enum DarwinSyscallResult {
    /// Success: primary return value and optional secondary return value.
    Success(u64, u64),
    /// Error: Darwin `errno` value.
    Errno(u32),
    /// Syscall is not yet implemented.
    Unimplemented,
}

// ── Errno constants (POSIX / Darwin) ─────────────────────────────────────────

pub const EPERM: u32 = 1;
pub const ENOENT: u32 = 2;
pub const ESRCH: u32 = 3;
pub const EINTR: u32 = 4;
pub const EIO: u32 = 5;
pub const ENXIO: u32 = 6;
pub const E2BIG: u32 = 7;
pub const ENOEXEC: u32 = 8;
pub const EBADF: u32 = 9;
pub const ECHILD: u32 = 10;
pub const EDEADLK: u32 = 11;
pub const ENOMEM: u32 = 12;
pub const EACCES: u32 = 13;
pub const EFAULT: u32 = 14;
pub const ENOTBLK: u32 = 15;
pub const EBUSY: u32 = 16;
pub const EEXIST: u32 = 17;
pub const EXDEV: u32 = 18;
pub const ENODEV: u32 = 19;
pub const ENOTDIR: u32 = 20;
pub const EISDIR: u32 = 21;
pub const EINVAL: u32 = 22;
pub const ENFILE: u32 = 23;
pub const EMFILE: u32 = 24;
pub const ENOTTY: u32 = 25;
pub const ETXTBSY: u32 = 26;
pub const EFBIG: u32 = 27;
pub const ENOSPC: u32 = 28;
pub const ESPIPE: u32 = 29;
pub const EROFS: u32 = 30;
pub const EMLINK: u32 = 31;
pub const EPIPE: u32 = 32;
pub const ENOSYS: u32 = 78;

// ── Dispatcher ────────────────────────────────────────────────────────────────

/// What the compatibility layer answers to each syscall, given its six
/// argument registers.
pub open spec fn syscall_outcome(nr: SyscallNumber, args: Seq<u64>) -> DarwinSyscallResult {
    match nr {
        // The exit code is echoed back; the caller tears the process down.
        SyscallNumber::Exit => DarwinSyscallResult::Success(args[0], 0),
        // A single process, with PID 1.
        SyscallNumber::Getpid => DarwinSyscallResult::Success(1, 0),
        // Running as root, not set-uid / set-gid.
        SyscallNumber::Getuid | SyscallNumber::Geteuid | SyscallNumber::Getgid
        | SyscallNumber::Getegid | SyscallNumber::Issetugid => DarwinSyscallResult::Success(0, 0),
        SyscallNumber::Getpagesize => DarwinSyscallResult::Success(4096, 0),
        // Not wired to a kernel subsystem yet, or not a syscall at all.
        SyscallNumber::Read | SyscallNumber::Write | SyscallNumber::Mmap
        | SyscallNumber::Munmap | SyscallNumber::Mprotect | SyscallNumber::Open
        | SyscallNumber::Close | SyscallNumber::Unknown => DarwinSyscallResult::Errno(ENOSYS),
        _ => DarwinSyscallResult::Unimplemented,
    }
}

/// Dispatch a Darwin BSD syscall.
///
/// `nr_raw` is the raw `rax` value with the BSD class bits (`0x2000000`)
/// already stripped.  `args` are `[rdi, rsi, rdx, r10, r8, r9]`.
///
/// Returns a [`DarwinSyscallResult`] which the low-level syscall stub
/// translates back into registers and the carry flag.
pub fn darwin_syscall(nr_raw: u32, args: [u64; 6]) -> (r: DarwinSyscallResult)
    ensures
        r == syscall_outcome(syscall_from_code(nr_raw), args@),
{
    let nr = SyscallNumber::from_raw(nr_raw);
    match nr {
        SyscallNumber::Exit => {
            // args[0] = exit code; in the full kernel this tears down the process.
            DarwinSyscallResult::Success(args[0], 0)
        },
        SyscallNumber::Getpid => {
            // Placeholder PID; the real value comes from the process table.
            DarwinSyscallResult::Success(1, 0)
        },
        SyscallNumber::Getuid | SyscallNumber::Geteuid => {
            // Running as root in the compatibility layer.
            DarwinSyscallResult::Success(0, 0)
        },
        SyscallNumber::Getgid | SyscallNumber::Getegid => DarwinSyscallResult::Success(0, 0),
        SyscallNumber::Issetugid => {
            // Not a set-uid / set-gid binary.
            DarwinSyscallResult::Success(0, 0)
        },
        SyscallNumber::Getpagesize => DarwinSyscallResult::Success(4096, 0),
        SyscallNumber::Read => {
            // fd=args[0], buf=args[1], count=args[2]; will be wired to the VFS.
            DarwinSyscallResult::Errno(ENOSYS)
        },
        SyscallNumber::Write => DarwinSyscallResult::Errno(ENOSYS),
        SyscallNumber::Mmap => {
            // addr=args[0], len=args[1], prot=args[2], flags=args[3],
            // fd=args[4], offset=args[5]
            DarwinSyscallResult::Errno(ENOSYS)
        },
        SyscallNumber::Munmap => DarwinSyscallResult::Errno(ENOSYS),
        SyscallNumber::Mprotect => DarwinSyscallResult::Errno(ENOSYS),
        SyscallNumber::Open => DarwinSyscallResult::Errno(ENOSYS),
        SyscallNumber::Close => DarwinSyscallResult::Errno(ENOSYS),
        SyscallNumber::Unknown => DarwinSyscallResult::Errno(ENOSYS),
        _ => DarwinSyscallResult::Unimplemented,
    }
}

} // verus!
