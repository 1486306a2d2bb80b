use rvhwfuzzer::risico::syscall::{linux_syscall, testing_syscall, AssertType, LinuxSyscall, TestingSyscall};

#[test]
fn testing_exit_and_print() {
    assert_eq!(testing_syscall(0, [0xFFFF_FFFF, 0, 0, 0, 0, 0]), TestingSyscall::Exit(-1));
    assert_eq!(testing_syscall(1, [0xAB, 0, 0, 0, 0, 0]), TestingSyscall::PrintRegister(0xAB));
    assert_eq!(testing_syscall(2, [0x100, 0, 0, 0, 0, 0]), TestingSyscall::Continue);
}

#[test]
fn testing_assertions() {
    assert_eq!(testing_syscall(3, [0, 0, 0, 0, 0, 0]), TestingSyscall::Continue);
    assert_eq!(testing_syscall(3, [7, 0, 0, 0, 0, 0]), TestingSyscall::AbortNonZero);
    assert_eq!(testing_syscall(4, [1, 5, 5, 0, 0, 0]), TestingSyscall::Continue);
    assert_eq!(
        testing_syscall(4, [2, 5, 6, 0, 0, 0]),
        TestingSyscall::AbortNotEqual { kind: AssertType::I32, lhs: 5, rhs: 6 }
    );
    assert_eq!(
        testing_syscall(4, [4, 5, 6, 0, 0, 0]),
        TestingSyscall::AbortNotEqual { kind: AssertType::Invalid, lhs: 5, rhs: 6 }
    );
}

#[test]
fn testing_panics_and_unknown_numbers() {
    assert_eq!(testing_syscall(5, [0, 3, 9, 0, 0, 0]), TestingSyscall::AbortPanicUnknownLocation);
    assert_eq!(
        testing_syscall(5, [0x2000, 3, 9, 0, 0, 0]),
        TestingSyscall::AbortPanicAt { filename: 0x2000, filename_len: 3, line: 9 }
    );
    assert_eq!(testing_syscall(6, [0; 6]), TestingSyscall::InvalidNumber);
}

#[test]
fn linux_calls() {
    assert_eq!(linux_syscall(63, [0, 0x100, 0, 0, 0, 0]), LinuxSyscall::Return(0));
    assert_eq!(linux_syscall(63, [0, 0x100, 8, 0, 0, 0]), LinuxSyscall::ReadStdin { buf: 0x100, count: 8 });
    assert_eq!(linux_syscall(64, [2, 0x100, 8, 0, 0, 0]), LinuxSyscall::WriteStdout { buf: 0x100, count: 8 });
    assert_eq!(linux_syscall(93, [3, 0, 0, 0, 0, 0]), LinuxSyscall::Exit(3));
    assert_eq!(linux_syscall(441, [0; 6]), LinuxSyscall::InvalidNumber);
}
