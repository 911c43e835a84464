//! A typed, verified model of the `ptrace(2)` request family on
//! x86_64 Linux with glibc.
//!
//! Every operation of the binding corresponds one-to-one with a kernel
//! request code.  The work this layer owns — enumerating the request
//! codes, marshalling arguments into the kernel's `(request, pid, addr,
//! data)` convention, and translating the kernel's return/errno
//! convention into a typed result — is pure computation on plain values
//! and is verified here.
//!
//! The one thing that cannot be verified is the system call itself: a
//! foreign, unsafe invocation whose outcome depends on the state of the
//! traced process.  A caller therefore drives each operation in three
//! steps: build the argument quadruple with one of the builders in
//! [`calls`], invoke `ptrace(2)` with exactly those arguments, and hand
//! the raw return value and errno back to the decoders in [`errno`]
//! (or, for a syscall-info fetch, to [`info::SyscallInfo::from_raw`]).
//! The contracts pin down both directions exactly, so the unverified
//! caller has nothing to decide.

pub mod calls;
pub mod errno;
pub mod event;
pub mod info;
pub mod options;
pub mod request;

pub use calls::attach;
pub use calls::cont;
pub use calls::detach;
pub use calls::getevent;
pub use calls::getregs;
pub use calls::getsiginfo;
pub use calls::getsigmask;
pub use calls::getsyscallinfo;
pub use calls::interrupt;
pub use calls::kill;
pub use calls::read;
pub use calls::read_user;
pub use calls::seize;
pub use calls::setoptions;
pub use calls::setregs;
pub use calls::setsiginfo;
pub use calls::setsigmask;
pub use calls::signal_word;
pub use calls::spec_signal_word;
pub use calls::REGS_SIZE;
pub use calls::SIGINFO_SIZE;
pub use calls::SYSCALL_INFO_SIZE;
pub use calls::WORD_SIZE;
pub use calls::step;
pub use calls::syscall;
pub use calls::sysemu;
pub use calls::sysemu_step;
pub use calls::traceme;
// `write` stays reachable as `calls::write`: the bare name belongs to a
// macro of the standard prelude and cannot be re-exported here.
pub use calls::write_user;
pub use calls::AddressType;
pub use calls::Call;
pub use calls::DataArg;
pub use errno::data_result;
pub use errno::lemma_peek_with_clear_errno_is_data;
pub use errno::peek_result;
pub use errno::spec_data_result;
pub use errno::spec_peek_result;
pub use errno::spec_unit_result;
pub use errno::unit_result;
pub use errno::Errno;
pub use errno::ENOSYS;
pub use event::lemma_event_value_round_trip;
pub use event::Event;
pub use info::lemma_unknown_discriminant_rejected;
pub use info::SyscallInfo;
pub use info::SyscallInfoOp;
pub use info::SyscallInfoPayload;
pub use options::Options;
pub use request::Request;
pub use request::RequestType;
