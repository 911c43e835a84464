//! Builders for every operation of the binding.
//!
//! Each public operation corresponds one-to-one with a `ptrace(2)`
//! request, and each builder here computes the exact argument quadruple
//! of that single invocation: the request, the target process, and the
//! values for the kernel's `addr` and `data` slots.  The caller
//! performs the foreign call with precisely these arguments and hands
//! the raw outcome to the decoders in [`crate::errno`].
//!
//! For detailed descriptions of the requests themselves, consult
//! `man ptrace`.

use crate::options::Options;
use crate::request::Request;
use vstd::prelude::*;

verus! {

/// A virtual address (or user-area offset) in the tracee, passed
/// through to the kernel unexamined.
pub type AddressType = u64;

/// The size in bytes of one word of tracee memory, of the signal mask,
/// and of the event message, on this platform.
pub const WORD_SIZE: u64 = 8;

/// The size in bytes of the general-purpose register set structure the
/// kernel ABI defines for this platform (twenty-seven 8-byte words).
pub const REGS_SIZE: u64 = 216;

/// The size in bytes of the signal-info structure the kernel ABI
/// defines for this platform.
pub const SIGINFO_SIZE: u64 = 128;

/// The size in bytes of the syscall-info structure the kernel ABI
/// defines for this platform: an 8-byte header, two 8-byte pointers,
/// and a 64-byte union.
pub const SYSCALL_INFO_SIZE: u64 = 88;

/// What goes in the `data` slot of a `ptrace(2)` invocation.
#[derive(Clone, Copy, Debug, PartialEq, Eq, Hash, Structural)]
pub enum DataArg {
    /// Nothing: the slot carries a null value.
    Null,
    /// The value itself is passed in the slot.
    Word(u64),
    /// The kernel reads this one word through the pointer passed in
    /// the slot; the performer points the slot at a copy of the word.
    InWord(u64),
    /// The kernel reads or writes a structure through the pointer
    /// passed in the slot; the performer supplies the buffer, sized as
    /// the `addr` slot of the call says.
    Buffer,
}

/// The argument quadruple of one `ptrace(2)` invocation: everything
/// the kernel is handed, short of the buffer addresses that only the
/// performer of the call can know.
#[derive(Clone, Copy, Debug, PartialEq, Eq, Hash, Structural)]
pub struct Call {
    /// The request to perform.
    pub request: Request,
    /// The target process.
    pub pid: i32,
    /// The kernel's `addr` slot: a tracee address for the memory and
    /// user-area requests, a buffer size for the requests that take
    /// one, null otherwise.
    pub addr: u64,
    /// The kernel's `data` slot.
    pub data: DataArg,
}

/// The word that encodes an optional signal to be delivered on
/// resumption: the signal's number, or zero for "no signal".
pub open spec fn spec_signal_word(sig: Option<i32>) -> u64 {
    match sig {
        Some(s) => s as u64,
        None => 0,
    }
}

/// Encode an optional signal for the data slot of a resuming request:
/// absence means "no signal" and becomes zero; presence is the signal
/// number itself.
pub fn signal_word(sig: Option<i32>) -> (r: u64)
    requires
        sig matches Some(s) ==> 0 <= s,
    ensures
        r == spec_signal_word(sig),
{
    match sig {
        Some(s) => s as u64,
        None => 0,
    }
}

/// Mark the calling process as traced by its parent.  This is the one
/// request issued by the tracee itself, so the target process is zero.
/// Decode the outcome with [`crate::errno::unit_result`].
pub fn traceme() -> (c: Call)
    ensures
        c == (Call { request: Request::PTRACE_TRACEME, pid: 0, addr: 0, data: DataArg::Null }),
{
    Call { request: Request::PTRACE_TRACEME, pid: 0, addr: 0, data: DataArg::Null }
}

/// Attach to the process `pid`, making it a tracee of the caller.
/// Decode the outcome with [`crate::errno::unit_result`].
pub fn attach(pid: i32) -> (c: Call)
    ensures
        c == (Call { request: Request::PTRACE_ATTACH, pid, addr: 0, data: DataArg::Null }),
{
    Call { request: Request::PTRACE_ATTACH, pid, addr: 0, data: DataArg::Null }
}

/// Attach to the process `pid` without stopping it, applying the given
/// options.  Decode the outcome with [`crate::errno::unit_result`].
pub fn seize(pid: i32, options: Options) -> (c: Call)
    ensures
        c == (Call {
            request: Request::PTRACE_SEIZE,
            pid,
            addr: 0,
            data: DataArg::Word(options.bits as u64),
        }),
{
    Call { request: Request::PTRACE_SEIZE, pid, addr: 0, data: DataArg::Word(options.bits() as u64) }
}

/// Detach from the stopped tracee `pid`, letting it run freely,
/// optionally delivering the signal `sig` on the way out.  Decode the
/// outcome with [`crate::errno::unit_result`].
pub fn detach(pid: i32, sig: Option<i32>) -> (c: Call)
    requires
        sig matches Some(s) ==> 0 <= s,
    ensures
        c == (Call {
            request: Request::PTRACE_DETACH,
            pid,
            addr: 0,
            data: DataArg::Word(spec_signal_word(sig)),
        }),
{
    Call { request: Request::PTRACE_DETACH, pid, addr: 0, data: DataArg::Word(signal_word(sig)) }
}

/// Restart the stopped tracee `pid`, optionally delivering the signal
/// `sig`.  Decode the outcome with [`crate::errno::unit_result`].
pub fn cont(pid: i32, sig: Option<i32>) -> (c: Call)
    requires
        sig matches Some(s) ==> 0 <= s,
    ensures
        c == (Call {
            request: Request::PTRACE_CONT,
            pid,
            addr: 0,
            data: DataArg::Word(spec_signal_word(sig)),
        }),
{
    Call { request: Request::PTRACE_CONT, pid, addr: 0, data: DataArg::Word(signal_word(sig)) }
}

/// Advance the stopped tracee `pid` by a single instruction,
/// optionally delivering the signal `sig`.  Decode the outcome with
/// [`crate::errno::unit_result`].
pub fn step(pid: i32, sig: Option<i32>) -> (c: Call)
    requires
        sig matches Some(s) ==> 0 <= s,
    ensures
        c == (Call {
            request: Request::PTRACE_SINGLESTEP,
            pid,
            addr: 0,
            data: DataArg::Word(spec_signal_word(sig)),
        }),
{
    Call {
        request: Request::PTRACE_SINGLESTEP,
        pid,
        addr: 0,
        data: DataArg::Word(signal_word(sig)),
    }
}

/// Restart the stopped tracee `pid` and arrange for it to stop at the
/// next entry to or exit from a system call, optionally delivering the
/// signal `sig`.  Decode the outcome with
/// [`crate::errno::unit_result`].
pub fn syscall(pid: i32, sig: Option<i32>) -> (c: Call)
    requires
        sig matches Some(s) ==> 0 <= s,
    ensures
        c == (Call {
            request: Request::PTRACE_SYSCALL,
            pid,
            addr: 0,
            data: DataArg::Word(spec_signal_word(sig)),
        }),
{
    Call { request: Request::PTRACE_SYSCALL, pid, addr: 0, data: DataArg::Word(signal_word(sig)) }
}

/// Restart the stopped tracee `pid` and stop it at the next system
/// call without executing that call, optionally delivering the signal
/// `sig`.  Decode the outcome with [`crate::errno::unit_result`].
pub fn sysemu(pid: i32, sig: Option<i32>) -> (c: Call)
    requires
        sig matches Some(s) ==> 0 <= s,
    ensures
        c == (Call {
            request: Request::PTRACE_SYSEMU,
            pid,
            addr: 0,
            data: DataArg::Word(spec_signal_word(sig)),
        }),
{
    Call { request: Request::PTRACE_SYSEMU, pid, addr: 0, data: DataArg::Word(signal_word(sig)) }
}

/// Advance the stopped tracee `pid` by a single instruction, or to the
/// next system call without executing it, optionally delivering the
/// signal `sig`.  Decode the outcome with
/// [`crate::errno::unit_result`].
pub fn sysemu_step(pid: i32, sig: Option<i32>) -> (c: Call)
    requires
        sig matches Some(s) ==> 0 <= s,
    ensures
        c == (Call {
            request: Request::PTRACE_SYSEMU_SINGLESTEP,
            pid,
            addr: 0,
            data: DataArg::Word(spec_signal_word(sig)),
        }),
{
    Call {
        request: Request::PTRACE_SYSEMU_SINGLESTEP,
        pid,
        addr: 0,
        data: DataArg::Word(signal_word(sig)),
    }
}

/// Stop the tracee `pid` (a tracee attached with the seize request).
/// Decode the outcome with [`crate::errno::unit_result`].
pub fn interrupt(pid: i32) -> (c: Call)
    ensures
        c == (Call { request: Request::PTRACE_INTERRUPT, pid, addr: 0, data: DataArg::Null }),
{
    Call { request: Request::PTRACE_INTERRUPT, pid, addr: 0, data: DataArg::Null }
}

/// Send the stopped tracee `pid` a kill request, equivalent to
/// resuming it with SIGKILL.  Decode the outcome with
/// [`crate::errno::unit_result`].
pub fn kill(pid: i32) -> (c: Call)
    ensures
        c == (Call { request: Request::PTRACE_KILL, pid, addr: 0, data: DataArg::Null }),
{
    Call { request: Request::PTRACE_KILL, pid, addr: 0, data: DataArg::Null }
}

/// Configure the tracer-behaviour options of the tracee `pid`.  Decode
/// the outcome with [`crate::errno::unit_result`].
pub fn setoptions(pid: i32, options: Options) -> (c: Call)
    ensures
        c == (Call {
            request: Request::PTRACE_SETOPTIONS,
            pid,
            addr: 0,
            data: DataArg::Word(options.bits as u64),
        }),
{
    Call {
        request: Request::PTRACE_SETOPTIONS,
        pid,
        addr: 0,
        data: DataArg::Word(options.bits() as u64),
    }
}

/// Read one word of the tracee's memory at `addr`.  The word comes
/// back as the raw return value, so the performer must clear `errno`
/// before the call and decode the outcome with
/// [`crate::errno::peek_result`].
pub fn read(pid: i32, addr: AddressType) -> (c: Call)
    ensures
        c == (Call { request: Request::PTRACE_PEEKDATA, pid, addr, data: DataArg::Null }),
{
    Call { request: Request::PTRACE_PEEKDATA, pid, addr, data: DataArg::Null }
}

/// Write the word `data` into the tracee's memory at `addr`.  The
/// caller owns the obligation that the pair is one the kernel accepts
/// for this request, as `man ptrace` describes; the kernel rejects the
/// rest with an error.  Decode the outcome with
/// [`crate::errno::unit_result`].
pub fn write(pid: i32, addr: AddressType, data: u64) -> (c: Call)
    ensures
        c == (Call { request: Request::PTRACE_POKEDATA, pid, addr, data: DataArg::Word(data) }),
{
    Call { request: Request::PTRACE_POKEDATA, pid, addr, data: DataArg::Word(data) }
}

/// Read one word from the tracee's user area at `offset`.  The word
/// comes back as the raw return value, so the performer must clear
/// `errno` before the call and decode the outcome with
/// [`crate::errno::peek_result`].
pub fn read_user(pid: i32, offset: AddressType) -> (c: Call)
    ensures
        c == (Call { request: Request::PTRACE_PEEKUSER, pid, addr: offset, data: DataArg::Null }),
{
    Call { request: Request::PTRACE_PEEKUSER, pid, addr: offset, data: DataArg::Null }
}

/// Write the word `data` into the tracee's user area at `offset`.  As
/// with [`write`], the caller owns the obligation that the pair is one
/// the kernel accepts for this request.  Decode the outcome with
/// [`crate::errno::unit_result`].
pub fn write_user(pid: i32, offset: AddressType, data: u64) -> (c: Call)
    ensures
        c == (Call { request: Request::PTRACE_POKEUSER, pid, addr: offset, data: DataArg::Word(data) }),
{
    Call { request: Request::PTRACE_POKEUSER, pid, addr: offset, data: DataArg::Word(data) }
}

/// Fetch the tracee's general-purpose registers.  The kernel fills a
/// caller-supplied buffer of [`REGS_SIZE`] bytes; decode the outcome
/// with [`crate::errno::data_result`] on what it wrote.
pub fn getregs(pid: i32) -> (c: Call)
    ensures
        c == (Call {
            request: Request::PTRACE_GETREGS,
            pid,
            addr: REGS_SIZE,
            data: DataArg::Buffer,
        }),
{
    Call { request: Request::PTRACE_GETREGS, pid, addr: REGS_SIZE, data: DataArg::Buffer }
}

/// Set the tracee's general-purpose registers.  The kernel reads a
/// caller-supplied register-set structure through the data slot.
/// Decode the outcome with [`crate::errno::unit_result`].
pub fn setregs(pid: i32) -> (c: Call)
    ensures
        c == (Call { request: Request::PTRACE_SETREGS, pid, addr: 0, data: DataArg::Buffer }),
{
    Call { request: Request::PTRACE_SETREGS, pid, addr: 0, data: DataArg::Buffer }
}

/// Fetch the message of the tracee's last event stop.  The kernel
/// writes one word into a caller-supplied buffer; decode the outcome
/// with [`crate::errno::data_result`] on that word.
pub fn getevent(pid: i32) -> (c: Call)
    ensures
        c == (Call {
            request: Request::PTRACE_GETEVENTMSG,
            pid,
            addr: WORD_SIZE,
            data: DataArg::Buffer,
        }),
{
    Call { request: Request::PTRACE_GETEVENTMSG, pid, addr: WORD_SIZE, data: DataArg::Buffer }
}

/// Fetch the signal information of the signal that stopped the tracee.
/// The kernel fills a caller-supplied buffer of [`SIGINFO_SIZE`]
/// bytes; decode the outcome with [`crate::errno::data_result`] on
/// what it wrote.
pub fn getsiginfo(pid: i32) -> (c: Call)
    ensures
        c == (Call {
            request: Request::PTRACE_GETSIGINFO,
            pid,
            addr: SIGINFO_SIZE,
            data: DataArg::Buffer,
        }),
{
    Call { request: Request::PTRACE_GETSIGINFO, pid, addr: SIGINFO_SIZE, data: DataArg::Buffer }
}

/// Replace the signal information of the signal that stopped the
/// tracee.  The kernel reads a caller-supplied signal-info structure
/// through the data slot.  Decode the outcome with
/// [`crate::errno::unit_result`].
pub fn setsiginfo(pid: i32) -> (c: Call)
    ensures
        c == (Call { request: Request::PTRACE_SETSIGINFO, pid, addr: 0, data: DataArg::Buffer }),
{
    Call { request: Request::PTRACE_SETSIGINFO, pid, addr: 0, data: DataArg::Buffer }
}

/// Fetch the tracee's mask of blocked signals.  The kernel writes one
/// word into a caller-supplied buffer whose size travels in the addr
/// slot; decode the outcome with [`crate::errno::data_result`] on that
/// word.
pub fn getsigmask(pid: i32) -> (c: Call)
    ensures
        c == (Call {
            request: Request::PTRACE_GETSIGMASK,
            pid,
            addr: WORD_SIZE,
            data: DataArg::Buffer,
        }),
{
    Call { request: Request::PTRACE_GETSIGMASK, pid, addr: WORD_SIZE, data: DataArg::Buffer }
}

/// Replace the tracee's mask of blocked signals with `mask`.  The
/// kernel reads the word through the data slot, and its size travels
/// in the addr slot.  Decode the outcome with
/// [`crate::errno::unit_result`].
pub fn setsigmask(pid: i32, mask: u64) -> (c: Call)
    ensures
        c == (Call {
            request: Request::PTRACE_SETSIGMASK,
            pid,
            addr: WORD_SIZE,
            data: DataArg::InWord(mask),
        }),
{
    Call { request: Request::PTRACE_SETSIGMASK, pid, addr: WORD_SIZE, data: DataArg::InWord(mask) }
}

/// Fetch the tracee's syscall-stop report (Linux 5.3 and later).  The
/// kernel fills up to [`SYSCALL_INFO_SIZE`] bytes of a caller-supplied
/// buffer; on success, decode what it wrote with
/// [`crate::info::SyscallInfo::from_raw`], and on failure decode with
/// [`crate::errno::data_result`] as for any out-parameter request.
pub fn getsyscallinfo(pid: i32) -> (c: Call)
    ensures
        c == (Call {
            request: Request::PTRACE_GET_SYSCALL_INFO,
            pid,
            addr: SYSCALL_INFO_SIZE,
            data: DataArg::Buffer,
        }),
{
    Call {
        request: Request::PTRACE_GET_SYSCALL_INFO,
        pid,
        addr: SYSCALL_INFO_SIZE,
        data: DataArg::Buffer,
    }
}

} // verus!
