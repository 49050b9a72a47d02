use pamplemouche::darwin::syscalls::{ENOSYS, EPERM, EINVAL};
use pamplemouche::darwin::{darwin_syscall, DarwinSyscallResult, SyscallNumber};

#[test]
fn from_raw_decodes_known_numbers() {
    assert_eq!(SyscallNumber::from_raw(1), SyscallNumber::Exit);
    assert_eq!(SyscallNumber::from_raw(4), SyscallNumber::Write);
    assert_eq!(SyscallNumber::from_raw(20), SyscallNumber::Getpid);
    assert_eq!(SyscallNumber::from_raw(197), SyscallNumber::Mmap);
    assert_eq!(SyscallNumber::from_raw(244), SyscallNumber::Posix_spawn);
    assert_eq!(SyscallNumber::from_raw(327), SyscallNumber::Issetugid);
    assert_eq!(SyscallNumber::from_raw(18), SyscallNumber::Getfsstat);
}

#[test]
fn from_raw_unknown_numbers() {
    assert_eq!(SyscallNumber::from_raw(0), SyscallNumber::Unknown);
    assert_eq!(SyscallNumber::from_raw(8), SyscallNumber::Unknown);
    assert_eq!(SyscallNumber::from_raw(1000), SyscallNumber::Unknown);
    assert_eq!(SyscallNumber::from_raw(0xFFFF_FFFF), SyscallNumber::Unknown);
    assert_eq!(SyscallNumber::from_raw(11), SyscallNumber::Unknown);
    assert_eq!(SyscallNumber::from_raw(17), SyscallNumber::Unknown);
}

#[test]
fn to_raw_round_trips() {
    for n in 0u32..400 {
        let s = SyscallNumber::from_raw(n);
        if s != SyscallNumber::Unknown {
            assert_eq!(s.to_raw(), n);
        }
    }
    assert_eq!(SyscallNumber::Unknown.to_raw(), 0xFFFF_FFFF);
    assert_eq!(SyscallNumber::from_raw(SyscallNumber::Unknown.to_raw()), SyscallNumber::Unknown);
    assert_eq!(SyscallNumber::from_raw(SyscallNumber::Getfsstat.to_raw()), SyscallNumber::Getfsstat);
    assert_eq!(SyscallNumber::from_raw(SyscallNumber::Sysctl.to_raw()), SyscallNumber::Sysctl);
}

#[test]
fn dispatch_exit_echoes_code() {
    assert_eq!(darwin_syscall(1, [42, 7, 0, 0, 0, 0]), DarwinSyscallResult::Success(42, 0));
}

#[test]
fn dispatch_identity_queries() {
    let args = [9u64; 6];
    assert_eq!(darwin_syscall(20, args), DarwinSyscallResult::Success(1, 0));
    for n in [24u32, 25, 43, 47, 327] {
        assert_eq!(darwin_syscall(n, args), DarwinSyscallResult::Success(0, 0));
    }
    assert_eq!(darwin_syscall(190, args), DarwinSyscallResult::Success(4096, 0));
}

#[test]
fn dispatch_not_wired_gives_enosys() {
    let args = [0u64; 6];
    for n in [3u32, 4, 197, 73, 74, 5, 6, 999] {
        assert_eq!(darwin_syscall(n, args), DarwinSyscallResult::Errno(ENOSYS));
    }
    assert_eq!(ENOSYS, 78);
    assert_eq!(EPERM, 1);
    assert_eq!(EINVAL, 22);
}

#[test]
fn dispatch_other_known_is_unimplemented() {
    let args = [0u64; 6];
    assert_eq!(darwin_syscall(2, args), DarwinSyscallResult::Unimplemented);
    assert_eq!(darwin_syscall(59, args), DarwinSyscallResult::Unimplemented);
    assert_eq!(darwin_syscall(18, args), DarwinSyscallResult::Unimplemented);
}
