//! Decoding of the tagged payload returned by the get-syscall-info
//! request.
//!
//! The kernel fills a caller-supplied buffer with a discriminant, a
//! common header, and a union whose active arm the discriminant names.
//! [`SyscallInfoPayload`] holds that buffer's fields as plain values;
//! [`SyscallInfo::from_raw`] performs the decode.  An unrecognised
//! discriminant is a decode failure, never a default variant.

use crate::errno::Errno;
use crate::errno::ENOSYS;
use vstd::prelude::*;

verus! {

/// The raw syscall-info record, field by field, as the kernel lays it
/// out: the discriminant `op`, the common header, and all three arms of
/// the union.  Only the arm named by `op` is meaningful; the caller
/// that fetched the buffer hands every arm over and the decode picks.
#[derive(Clone, Copy, Debug, PartialEq, Eq, Hash)]
pub struct SyscallInfoPayload {
    /// The discriminant naming the active union arm.
    pub op: u8,
    /// AUDIT_ARCH_* value of the tracee; see seccomp(2).
    pub arch: u32,
    /// CPU instruction pointer of the tracee.
    pub instruction_pointer: u64,
    /// CPU stack pointer of the tracee.
    pub stack_pointer: u64,
    /// Entry arm: the system call number.
    pub entry_nr: u64,
    /// Entry arm: the six system call arguments.
    pub entry_args: [u64; 6],
    /// Exit arm: the system call's return value.
    pub exit_sval: i64,
    /// Exit arm: whether the return value is an error.
    pub exit_is_error: u8,
    /// Seccomp arm: the system call number.
    pub seccomp_nr: u64,
    /// Seccomp arm: the six system call arguments.
    pub seccomp_args: [u64; 6],
    /// Seccomp arm: the SECCOMP_RET_DATA portion of the rule's return
    /// value.
    pub seccomp_ret_data: u32,
}

/// The nature of a syscall stop.
#[derive(Clone, Copy, Debug, PartialEq, Eq, Hash)]
pub enum SyscallInfoOp {
    /// Not in a syscall stop.
    NoSyscall,
    /// Stopped on entry to a system call.
    Entry {
        /// System call number.
        nr: i64,
        /// System call arguments.
        args: [u64; 6],
    },
    /// Stopped on exit from a system call.
    Exit {
        /// System call return value.
        ret_val: i64,
        /// System call error flag.
        is_error: u8,
    },
    /// Stopped by a seccomp trace rule.
    Seccomp {
        /// System call number.
        nr: i64,
        /// System call arguments.
        args: [u64; 6],
        /// SECCOMP_RET_DATA portion of the rule's return value.
        ret_data: u32,
    },
}

/// A decoded syscall stop report.
#[derive(Clone, Copy, Debug, PartialEq, Eq, Hash)]
pub struct SyscallInfo {
    /// Type of the syscall stop.
    pub op: SyscallInfoOp,
    /// AUDIT_ARCH_* value; see seccomp(2).
    pub arch: u32,
    /// CPU instruction pointer.
    pub instruction_pointer: u64,
    /// CPU stack pointer.
    pub stack_pointer: u64,
}

impl SyscallInfo {
    /// What decoding a payload yields: the variant the discriminant
    /// names, or the `ENOSYS` error for a discriminant outside the
    /// known set.
    pub open spec fn spec_from_raw(raw: SyscallInfoPayload) -> Result<SyscallInfo, Errno> {
        if raw.op == 0 {
            Ok(SyscallInfo {
                op: SyscallInfoOp::NoSyscall,
                arch: raw.arch,
                instruction_pointer: raw.instruction_pointer,
                stack_pointer: raw.stack_pointer,
            })
        } else if raw.op == 1 {
            Ok(SyscallInfo {
                op: SyscallInfoOp::Entry { nr: raw.entry_nr as i64, args: raw.entry_args },
                arch: raw.arch,
                instruction_pointer: raw.instruction_pointer,
                stack_pointer: raw.stack_pointer,
            })
        } else if raw.op == 2 {
            Ok(SyscallInfo {
                op: SyscallInfoOp::Exit { ret_val: raw.exit_sval, is_error: raw.exit_is_error },
                arch: raw.arch,
                instruction_pointer: raw.instruction_pointer,
                stack_pointer: raw.stack_pointer,
            })
        } else if raw.op == 3 {
            Ok(SyscallInfo {
                op: SyscallInfoOp::Seccomp {
                    nr: raw.seccomp_nr as i64,
                    args: raw.seccomp_args,
                    ret_data: raw.seccomp_ret_data,
                },
                arch: raw.arch,
                instruction_pointer: raw.instruction_pointer,
                stack_pointer: raw.stack_pointer,
            })
        } else {
            Err(Errno { code: ENOSYS })
        }
    }

    /// Decode a raw syscall-info record.  The discriminant selects the
    /// variant: `0` is no syscall stop, `1` a syscall entry, `2` a
    /// syscall exit, `3` a seccomp stop; any other value is rejected
    /// with `ENOSYS` rather than coerced to a default.
    pub fn from_raw(raw: SyscallInfoPayload) -> (r: Result<SyscallInfo, Errno>)
        ensures
            r == Self::spec_from_raw(raw),
    {
        let op = if raw.op == 0 {
            SyscallInfoOp::NoSyscall
        } else if raw.op == 1 {
            SyscallInfoOp::Entry { nr: #[verifier::truncate] (raw.entry_nr as i64), args: raw.entry_args }
        } else if raw.op == 2 {
            SyscallInfoOp::Exit { ret_val: raw.exit_sval, is_error: raw.exit_is_error }
        } else if raw.op == 3 {
            SyscallInfoOp::Seccomp {
                nr: #[verifier::truncate] (raw.seccomp_nr as i64),
                args: raw.seccomp_args,
                ret_data: raw.seccomp_ret_data,
            }
        } else {
            return Err(Errno { code: ENOSYS });
        };
        Ok(SyscallInfo {
            op,
            arch: raw.arch,
            instruction_pointer: raw.instruction_pointer,
            stack_pointer: raw.stack_pointer,
        })
    }
}

/// A payload whose discriminant lies outside the known set decodes to
/// an error, and to nothing else: decoding fails exactly on the
/// discriminants the kernel does not define.
pub proof fn lemma_unknown_discriminant_rejected(raw: SyscallInfoPayload)
    ensures
        (SyscallInfo::spec_from_raw(raw) matches Err(e) && e == (Errno { code: ENOSYS }))
            <==> raw.op > 3,
{
}

} // verus!
