//! What an environment call asks of the emulator, decided from the system call number and its
//! arguments (the registers a7 and a0 to a5). Printing, reading and writing are left to the
//! caller, which carries out the decision.
use vstd::prelude::*;

verus! {

/// How the two values of a failed equality assertion are to be shown.
#[derive(Debug, Clone, Copy, PartialEq, Eq, Structural)]
pub enum AssertType {
    Unknown,
    U32,
    I32,
    F32,
    Ptr,
    Invalid,
}

/// The type of assertion that a number names.
pub open spec fn assert_type_spec(value: u32) -> AssertType {
    if value == 0 {
        AssertType::Unknown
    } else if value == 1 {
        AssertType::U32
    } else if value == 2 {
        AssertType::I32
    } else if value == 3 {
        AssertType::F32
    } else {
        AssertType::Invalid
    }
}

impl AssertType {
    /// The type of assertion that `value` names: 0 to 3 are unknown, `u32`, `i32` and `f32`;
    /// every other number is invalid.
    pub fn from_u32(value: u32) -> (r: Self)
        ensures
            r == assert_type_spec(value),
    {
        match value {
            0 => Self::Unknown,
            1 => Self::U32,
            2 => Self::I32,
            3 => Self::F32,
            _ => Self::Invalid,
        }
    }
}

/// What a system call of the testing convention comes to.
#[derive(Debug, Clone, Copy, PartialEq, Eq, Structural)]
pub enum TestingSyscall {
    /// Stop the program with this exit code.
    Exit(i32),
    /// Print the value as eight hexadecimal digits, then go on.
    PrintRegister(u32),
    /// Go on, leaving the registers as they are.
    Continue,
    /// Stop the program: an assertion that a register is zero failed.
    AbortNonZero,
    /// Stop the program: the two values differ; report them as `kind` says.
    AbortNotEqual { kind: AssertType, lhs: u32, rhs: u32 },
    /// Stop the program: it panicked, and did not say where.
    AbortPanicUnknownLocation,
    /// Stop the program: it panicked in the file whose name (UTF-8) is stored at `filename`
    /// with `filename_len` bytes, at `line`.
    AbortPanicAt { filename: u32, filename_len: u32, line: u32 },
    /// No system call has this number.
    InvalidNumber,
}

/// The testing convention: 0 exits, 1 prints a register, 2 dumps memory (only an empty range is
/// supported), 3 asserts a register is zero, 4 asserts two registers are equal, 5 panics.
pub open spec fn testing_syscall_spec(number: u32, args: Seq<u32>) -> TestingSyscall {
    if number == 0 {
        TestingSyscall::Exit(args[0] as i32)
    } else if number == 1 {
        TestingSyscall::PrintRegister(args[0])
    } else if number == 2 {
        TestingSyscall::Continue
    } else if number == 3 {
        if args[0] == 0 {
            TestingSyscall::Continue
        } else {
            TestingSyscall::AbortNonZero
        }
    } else if number == 4 {
        if args[1] != args[2] {
            TestingSyscall::AbortNotEqual { kind: assert_type_spec(args[0]), lhs: args[1], rhs: args[2] }
        } else {
            TestingSyscall::Continue
        }
    } else if number == 5 {
        if args[0] == 0 {
            TestingSyscall::AbortPanicUnknownLocation
        } else {
            TestingSyscall::AbortPanicAt { filename: args[0], filename_len: args[1], line: args[2] }
        }
    } else {
        TestingSyscall::InvalidNumber
    }
}

/// Decide a system call of the testing convention. Dumping memory (number 2) is supported only
/// for an empty range.
pub fn testing_syscall(number: u32, args: [u32; 6]) -> (r: TestingSyscall)
    requires
        number == 2 ==> args@[1] == 0,
    ensures
        r == testing_syscall_spec(number, args@),
{
    match number {
        0 => TestingSyscall::Exit(args[0] as i32),
        1 => TestingSyscall::PrintRegister(args[0]),
        2 => TestingSyscall::Continue,
        3 => if args[0] == 0 {
            TestingSyscall::Continue
        } else {
            TestingSyscall::AbortNonZero
        },
        4 => {
            let lhs = args[1];
            let rhs = args[2];
            if lhs != rhs {
                TestingSyscall::AbortNotEqual { kind: AssertType::from_u32(args[0]), lhs, rhs }
            } else {
                TestingSyscall::Continue
            }
        },
        5 => if args[0] == 0 {
            TestingSyscall::AbortPanicUnknownLocation
        } else {
            TestingSyscall::AbortPanicAt { filename: args[0], filename_len: args[1], line: args[2] }
        },
        _ => TestingSyscall::InvalidNumber,
    }
}

/// What a system call of the Linux convention comes to.
#[derive(Debug, Clone, Copy, PartialEq, Eq, Structural)]
pub enum LinuxSyscall {
    /// Read at most `count` bytes from standard input into memory at `buf`, and return how many.
    ReadStdin { buf: u32, count: u32 },
    /// Write the `count` bytes at `buf` to standard output, and return how many were written.
    WriteStdout { buf: u32, count: u32 },
    /// Return this value in a0.
    Return(u32),
    /// Stop the program with this exit code.
    Exit(i32),
    /// No system call has this number.
    InvalidNumber,
}

/// Whether the Linux convention supports a system call: `read` from standard input (63), `write`
/// to standard output or error (64), `exit` (93), and any number above 440.
pub open spec fn linux_syscall_supported(number: u32, args: Seq<u32>) -> bool {
    ||| number == 63 && args[0] == 0
    ||| number == 64 && (args[0] == 1 || args[0] == 2)
    ||| number == 93
    ||| number > 440
}

/// The Linux convention, for the system calls it supports.
pub open spec fn linux_syscall_spec(number: u32, args: Seq<u32>) -> LinuxSyscall {
    if number == 63 {
        if args[2] == 0 {
            LinuxSyscall::Return(0)
        } else {
            LinuxSyscall::ReadStdin { buf: args[1], count: args[2] }
        }
    } else if number == 64 {
        if args[2] == 0 {
            LinuxSyscall::Return(0)
        } else {
            LinuxSyscall::WriteStdout { buf: args[1], count: args[2] }
        }
    } else if number == 93 {
        LinuxSyscall::Exit(args[0] as i32)
    } else {
        LinuxSyscall::InvalidNumber
    }
}

/// Decide a system call of the Linux convention, one that it supports.
pub fn linux_syscall(number: u32, args: [u32; 6]) -> (r: LinuxSyscall)
    requires
        linux_syscall_supported(number, args@),
    ensures
        r == linux_syscall_spec(number, args@),
{
    if number == 63 || number == 64 {
        let count = args[2];
        if count == 0 {
            LinuxSyscall::Return(0)
        } else if number == 63 {
            LinuxSyscall::ReadStdin { buf: args[1], count }
        } else {
            LinuxSyscall::WriteStdout { buf: args[1], count }
        }
    } else if number == 93 {
        LinuxSyscall::Exit(args[0] as i32)
    } else {
        LinuxSyscall::InvalidNumber
    }
}

/// The testing convention reads its arguments from the call's registers in order: `exit` ends
/// with the first argument as its exit code, register printing
/// prints the first argument, the zero assertion aborts exactly when the first argument is not
/// zero, the equality assertion aborts exactly when the second and third arguments differ,
/// reporting the second as the left and the third as the right value, and a panic reports the
/// file name at the first argument, of the length in the second, and the line in the third.
pub proof fn law_testing_arguments(args: Seq<u32>)
    requires
        args.len() == 6,
    ensures
        testing_syscall_spec(0, args) == TestingSyscall::Exit(args[0] as i32),
        testing_syscall_spec(1, args) == TestingSyscall::PrintRegister(args[0]),
        (testing_syscall_spec(3, args) == TestingSyscall::AbortNonZero) == (args[0] != 0),
        (testing_syscall_spec(3, args) == TestingSyscall::Continue) == (args[0] == 0),
        args[1] != args[2] ==> (testing_syscall_spec(4, args) matches TestingSyscall::AbortNotEqual { lhs, rhs, .. }
            && lhs == args[1] && rhs == args[2]),
        args[1] == args[2] ==> testing_syscall_spec(4, args) == TestingSyscall::Continue,
        args[0] != 0 ==> testing_syscall_spec(5, args) == (TestingSyscall::AbortPanicAt {
            filename: args[0],
            filename_len: args[1],
            line: args[2],
        }),
{
}

} // verus!
