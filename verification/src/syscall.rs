//! Decoding of system calls.
use vstd::prelude::*;

verus! {

/// Number of the `exit` system call.
pub const SYSCALL_EXIT: usize = 1;

/// A decoded system call, for the kernel to carry out.
#[derive(Clone, Copy, PartialEq, Eq, Structural, Debug)]
pub enum SyscallRequest {
    /// Terminate the calling thread with the given exit code.
    Exit(i32),
}

/// Decodes system call `syscall_id` with arguments `args`. Only `exit` is
/// supported; its exit code is the low 32 bits of the first argument.
pub fn syscall(syscall_id: usize, args: [usize; 3]) -> (r: SyscallRequest)
    requires
        syscall_id == SYSCALL_EXIT,
    ensures
        r == SyscallRequest::Exit(args@[0] as i32),
{
    match syscall_id {
        SYSCALL_EXIT => SyscallRequest::Exit(args[0] as i32),
        _ => {
            proof {
                assert(false);
            }
            SyscallRequest::Exit(0)
        },
    }
}

} // verus!
