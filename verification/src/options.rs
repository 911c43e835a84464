//! The tracer-behaviour flags passed with the set-options request.
//!
//! The bit values are fixed by the kernel ABI.  Flags combine by
//! bitwise or and travel to the kernel in the data slot of the
//! set-options (or seize) call.

use vstd::prelude::*;

verus! {

/// A bit-set of `ptrace` options, combined with [`Options::or`] and
/// passed as the raw data argument of the set-options request.
#[derive(Clone, Copy, Debug, PartialEq, Eq, Hash, Structural)]
pub struct Options {
    /// The raw option bits, exactly as the kernel takes them.
    pub bits: u32,
}

impl Options {
    /// No options.
    pub fn empty() -> (r: Options)
        ensures
            r.bits == 0,
    {
        Options { bits: 0 }
    }

    /// When delivering system call traps, set bit 7 in the signal
    /// number, so the tracer can tell syscall stops from other stops.
    pub fn trace_sysgood() -> (r: Options)
        ensures
            r.bits == 0x1,
    {
        Options { bits: 0x1 }
    }

    /// Stop the tracee at the next fork and start tracing the child.
    pub fn trace_fork() -> (r: Options)
        ensures
            r.bits == 0x2,
    {
        Options { bits: 0x2 }
    }

    /// Stop the tracee at the next vfork and start tracing the child.
    pub fn trace_vfork() -> (r: Options)
        ensures
            r.bits == 0x4,
    {
        Options { bits: 0x4 }
    }

    /// Stop the tracee at the next clone and start tracing the child.
    pub fn trace_clone() -> (r: Options)
        ensures
            r.bits == 0x8,
    {
        Options { bits: 0x8 }
    }

    /// Stop the tracee at the next execve.
    pub fn trace_exec() -> (r: Options)
        ensures
            r.bits == 0x10,
    {
        Options { bits: 0x10 }
    }

    /// Stop the tracee at the completion of a vfork.
    pub fn trace_vfork_done() -> (r: Options)
        ensures
            r.bits == 0x20,
    {
        Options { bits: 0x20 }
    }

    /// Stop the tracee before it exits, while its registers can still
    /// be examined.
    pub fn trace_exit() -> (r: Options)
        ensures
            r.bits == 0x40,
    {
        Options { bits: 0x40 }
    }

    /// Stop the tracee when a seccomp trace rule is triggered.
    pub fn trace_seccomp() -> (r: Options)
        ensures
            r.bits == 0x80,
    {
        Options { bits: 0x80 }
    }

    /// Send the tracee a SIGKILL when the tracer exits.
    pub fn exit_kill() -> (r: Options)
        ensures
            r.bits == 0x100000,
    {
        Options { bits: 0x100000 }
    }

    /// The union of two option sets.
    pub fn or(self, other: Options) -> (r: Options)
        ensures
            r.bits == self.bits | other.bits,
    {
        Options { bits: self.bits | other.bits }
    }

    /// Whether every flag of `other` is also set in `self`.
    pub fn contains(self, other: Options) -> (r: bool)
        ensures
            r == (self.bits & other.bits == other.bits),
    {
        self.bits & other.bits == other.bits
    }

    /// The raw option bits, as the data slot of the set-options call
    /// takes them.
    pub fn bits(self) -> (r: u32)
        ensures
            r == self.bits,
    {
        self.bits
    }
}

} // verus!
