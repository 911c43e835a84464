//! The closed enumeration of `ptrace(2)` request codes available on
//! x86_64 Linux with glibc.
//!
//! The numeric codes are fixed by the kernel ABI and are not a design
//! choice of this crate; `value` maps each request to exactly the code
//! the kernel expects in the first argument of `ptrace(2)`.

use vstd::prelude::*;

verus! {

/// The integer type in which glibc takes the request code on this
/// platform.
pub type RequestType = u32;

/// A `ptrace(2)` request, defining the action to be taken on the
/// tracee.  The member set is the one the x86_64 glibc ABI offers.
#[allow(non_camel_case_types)]
#[derive(Clone, Copy, Debug, PartialEq, Eq, Hash, Structural)]
pub enum Request {
    PTRACE_TRACEME,
    PTRACE_PEEKTEXT,
    PTRACE_PEEKDATA,
    PTRACE_PEEKUSER,
    PTRACE_POKETEXT,
    PTRACE_POKEDATA,
    PTRACE_POKEUSER,
    PTRACE_CONT,
    PTRACE_KILL,
    PTRACE_SINGLESTEP,
    PTRACE_GETREGS,
    PTRACE_SETREGS,
    PTRACE_GETFPREGS,
    PTRACE_SETFPREGS,
    PTRACE_ATTACH,
    PTRACE_DETACH,
    PTRACE_GETFPXREGS,
    PTRACE_SETFPXREGS,
    PTRACE_SYSCALL,
    PTRACE_SETOPTIONS,
    PTRACE_GETEVENTMSG,
    PTRACE_GETSIGINFO,
    PTRACE_SETSIGINFO,
    PTRACE_GETREGSET,
    PTRACE_SETREGSET,
    PTRACE_SEIZE,
    PTRACE_INTERRUPT,
    PTRACE_LISTEN,
    PTRACE_PEEKSIGINFO,
    PTRACE_SYSEMU,
    PTRACE_SYSEMU_SINGLESTEP,
    PTRACE_GET_SYSCALL_INFO,
    PTRACE_GETSIGMASK,
    PTRACE_SETSIGMASK,
}

impl Request {
    /// The kernel's numeric code for this request.
    pub open spec fn spec_value(self) -> u32 {
        match self {
            Request::PTRACE_TRACEME => 0,
            Request::PTRACE_PEEKTEXT => 1,
            Request::PTRACE_PEEKDATA => 2,
            Request::PTRACE_PEEKUSER => 3,
            Request::PTRACE_POKETEXT => 4,
            Request::PTRACE_POKEDATA => 5,
            Request::PTRACE_POKEUSER => 6,
            Request::PTRACE_CONT => 7,
            Request::PTRACE_KILL => 8,
            Request::PTRACE_SINGLESTEP => 9,
            Request::PTRACE_GETREGS => 12,
            Request::PTRACE_SETREGS => 13,
            Request::PTRACE_GETFPREGS => 14,
            Request::PTRACE_SETFPREGS => 15,
            Request::PTRACE_ATTACH => 16,
            Request::PTRACE_DETACH => 17,
            Request::PTRACE_GETFPXREGS => 18,
            Request::PTRACE_SETFPXREGS => 19,
            Request::PTRACE_SYSCALL => 24,
            Request::PTRACE_SETOPTIONS => 0x4200,
            Request::PTRACE_GETEVENTMSG => 0x4201,
            Request::PTRACE_GETSIGINFO => 0x4202,
            Request::PTRACE_SETSIGINFO => 0x4203,
            Request::PTRACE_GETREGSET => 0x4204,
            Request::PTRACE_SETREGSET => 0x4205,
            Request::PTRACE_SEIZE => 0x4206,
            Request::PTRACE_INTERRUPT => 0x4207,
            Request::PTRACE_LISTEN => 0x4208,
            Request::PTRACE_PEEKSIGINFO => 0x4209,
            Request::PTRACE_SYSEMU => 31,
            Request::PTRACE_SYSEMU_SINGLESTEP => 32,
            Request::PTRACE_GET_SYSCALL_INFO => 0x420e,
            Request::PTRACE_GETSIGMASK => 0x420a,
            Request::PTRACE_SETSIGMASK => 0x420b,
        }
    }

    /// The kernel's numeric code for this request, as the first
    /// argument of `ptrace(2)` expects it.
    pub fn value(self) -> (r: u32)
        ensures
            r == self.spec_value(),
    {
        match self {
            Request::PTRACE_TRACEME => 0,
            Request::PTRACE_PEEKTEXT => 1,
            Request::PTRACE_PEEKDATA => 2,
            Request::PTRACE_PEEKUSER => 3,
            Request::PTRACE_POKETEXT => 4,
            Request::PTRACE_POKEDATA => 5,
            Request::PTRACE_POKEUSER => 6,
            Request::PTRACE_CONT => 7,
            Request::PTRACE_KILL => 8,
            Request::PTRACE_SINGLESTEP => 9,
            Request::PTRACE_GETREGS => 12,
            Request::PTRACE_SETREGS => 13,
            Request::PTRACE_GETFPREGS => 14,
            Request::PTRACE_SETFPREGS => 15,
            Request::PTRACE_ATTACH => 16,
            Request::PTRACE_DETACH => 17,
            Request::PTRACE_GETFPXREGS => 18,
            Request::PTRACE_SETFPXREGS => 19,
            Request::PTRACE_SYSCALL => 24,
            Request::PTRACE_SETOPTIONS => 0x4200,
            Request::PTRACE_GETEVENTMSG => 0x4201,
            Request::PTRACE_GETSIGINFO => 0x4202,
            Request::PTRACE_SETSIGINFO => 0x4203,
            Request::PTRACE_GETREGSET => 0x4204,
            Request::PTRACE_SETREGSET => 0x4205,
            Request::PTRACE_SEIZE => 0x4206,
            Request::PTRACE_INTERRUPT => 0x4207,
            Request::PTRACE_LISTEN => 0x4208,
            Request::PTRACE_PEEKSIGINFO => 0x4209,
            Request::PTRACE_SYSEMU => 31,
            Request::PTRACE_SYSEMU_SINGLESTEP => 32,
            Request::PTRACE_GET_SYSCALL_INFO => 0x420e,
            Request::PTRACE_GETSIGMASK => 0x420a,
            Request::PTRACE_SETSIGMASK => 0x420b,
        }
    }
}

} // verus!
