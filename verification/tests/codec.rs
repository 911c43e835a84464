//! The pure half of the binding: request codes, option bits, event
//! codes, argument marshalling, and outcome decoding, checked against
//! the platform's own definitions and against concrete values.

use ptrace::calls;
use ptrace::data_result;
use ptrace::peek_result;
use ptrace::signal_word;
use ptrace::unit_result;
use ptrace::Call;
use ptrace::DataArg;
use ptrace::Errno;
use ptrace::Event;
use ptrace::Options;
use ptrace::Request;
use ptrace::SyscallInfo;
use ptrace::SyscallInfoOp;
use ptrace::SyscallInfoPayload;
use ptrace::ENOSYS;

#[test]
fn request_codes_match_the_platform() {
    assert_eq!(Request::PTRACE_TRACEME.value(), libc::PTRACE_TRACEME);
    assert_eq!(Request::PTRACE_PEEKTEXT.value(), libc::PTRACE_PEEKTEXT);
    assert_eq!(Request::PTRACE_PEEKDATA.value(), libc::PTRACE_PEEKDATA);
    assert_eq!(Request::PTRACE_PEEKUSER.value(), libc::PTRACE_PEEKUSER);
    assert_eq!(Request::PTRACE_POKETEXT.value(), libc::PTRACE_POKETEXT);
    assert_eq!(Request::PTRACE_POKEDATA.value(), libc::PTRACE_POKEDATA);
    assert_eq!(Request::PTRACE_POKEUSER.value(), libc::PTRACE_POKEUSER);
    assert_eq!(Request::PTRACE_CONT.value(), libc::PTRACE_CONT);
    assert_eq!(Request::PTRACE_KILL.value(), libc::PTRACE_KILL);
    assert_eq!(Request::PTRACE_SINGLESTEP.value(), libc::PTRACE_SINGLESTEP);
    assert_eq!(Request::PTRACE_GETREGS.value(), libc::PTRACE_GETREGS);
    assert_eq!(Request::PTRACE_SETREGS.value(), libc::PTRACE_SETREGS);
    assert_eq!(Request::PTRACE_GETFPREGS.value(), libc::PTRACE_GETFPREGS);
    assert_eq!(Request::PTRACE_SETFPREGS.value(), libc::PTRACE_SETFPREGS);
    assert_eq!(Request::PTRACE_ATTACH.value(), libc::PTRACE_ATTACH);
    assert_eq!(Request::PTRACE_DETACH.value(), libc::PTRACE_DETACH);
    assert_eq!(Request::PTRACE_GETFPXREGS.value(), libc::PTRACE_GETFPXREGS);
    assert_eq!(Request::PTRACE_SETFPXREGS.value(), libc::PTRACE_SETFPXREGS);
    assert_eq!(Request::PTRACE_SYSCALL.value(), libc::PTRACE_SYSCALL);
    assert_eq!(Request::PTRACE_SETOPTIONS.value(), libc::PTRACE_SETOPTIONS);
    assert_eq!(Request::PTRACE_GETEVENTMSG.value(), libc::PTRACE_GETEVENTMSG);
    assert_eq!(Request::PTRACE_GETSIGINFO.value(), libc::PTRACE_GETSIGINFO);
    assert_eq!(Request::PTRACE_SETSIGINFO.value(), libc::PTRACE_SETSIGINFO);
    assert_eq!(Request::PTRACE_GETREGSET.value(), libc::PTRACE_GETREGSET);
    assert_eq!(Request::PTRACE_SETREGSET.value(), libc::PTRACE_SETREGSET);
    assert_eq!(Request::PTRACE_SEIZE.value(), libc::PTRACE_SEIZE);
    assert_eq!(Request::PTRACE_INTERRUPT.value(), libc::PTRACE_INTERRUPT);
    assert_eq!(Request::PTRACE_LISTEN.value(), libc::PTRACE_LISTEN);
    assert_eq!(Request::PTRACE_PEEKSIGINFO.value(), libc::PTRACE_PEEKSIGINFO);
    assert_eq!(Request::PTRACE_SYSEMU.value(), libc::PTRACE_SYSEMU);
    assert_eq!(
        Request::PTRACE_SYSEMU_SINGLESTEP.value(),
        libc::PTRACE_SYSEMU_SINGLESTEP
    );
    assert_eq!(
        Request::PTRACE_GET_SYSCALL_INFO.value(),
        libc::PTRACE_GET_SYSCALL_INFO
    );
    assert_eq!(Request::PTRACE_GETSIGMASK.value(), libc::PTRACE_GETSIGMASK);
    assert_eq!(Request::PTRACE_SETSIGMASK.value(), libc::PTRACE_SETSIGMASK);
}

#[test]
fn option_bits_match_the_platform() {
    assert_eq!(Options::trace_sysgood().bits(), libc::PTRACE_O_TRACESYSGOOD as u32);
    assert_eq!(Options::trace_fork().bits(), libc::PTRACE_O_TRACEFORK as u32);
    assert_eq!(Options::trace_vfork().bits(), libc::PTRACE_O_TRACEVFORK as u32);
    assert_eq!(Options::trace_clone().bits(), libc::PTRACE_O_TRACECLONE as u32);
    assert_eq!(Options::trace_exec().bits(), libc::PTRACE_O_TRACEEXEC as u32);
    assert_eq!(
        Options::trace_vfork_done().bits(),
        libc::PTRACE_O_TRACEVFORKDONE as u32
    );
    assert_eq!(Options::trace_exit().bits(), libc::PTRACE_O_TRACEEXIT as u32);
    assert_eq!(Options::trace_seccomp().bits(), libc::PTRACE_O_TRACESECCOMP as u32);
    assert_eq!(Options::exit_kill().bits(), libc::PTRACE_O_EXITKILL as u32);
    assert_eq!(Options::empty().bits(), 0);
}

#[test]
fn options_combine_by_bitwise_or() {
    let o = Options::trace_fork().or(Options::trace_exec());
    assert_eq!(o.bits(), 0x12);
    assert!(o.contains(Options::trace_fork()));
    assert!(o.contains(Options::trace_exec()));
    assert!(!o.contains(Options::trace_exit()));
    assert!(o.contains(Options::empty()));
}

#[test]
fn event_codes_match_the_platform() {
    assert_eq!(Event::PTRACE_EVENT_FORK.value(), libc::PTRACE_EVENT_FORK);
    assert_eq!(Event::PTRACE_EVENT_VFORK.value(), libc::PTRACE_EVENT_VFORK);
    assert_eq!(Event::PTRACE_EVENT_CLONE.value(), libc::PTRACE_EVENT_CLONE);
    assert_eq!(Event::PTRACE_EVENT_EXEC.value(), libc::PTRACE_EVENT_EXEC);
    assert_eq!(
        Event::PTRACE_EVENT_VFORK_DONE.value(),
        libc::PTRACE_EVENT_VFORK_DONE
    );
    assert_eq!(Event::PTRACE_EVENT_EXIT.value(), libc::PTRACE_EVENT_EXIT);
    assert_eq!(Event::PTRACE_EVENT_SECCOMP.value(), libc::PTRACE_EVENT_SECCOMP);
    // The group-stop code is not exported by this libc build for this
    // target; the kernel defines it as 128.
    assert_eq!(Event::PTRACE_EVENT_STOP.value(), 128);
}

#[test]
fn event_decoding_inverts_the_codes() {
    assert_eq!(Event::from_value(1), Some(Event::PTRACE_EVENT_FORK));
    assert_eq!(Event::from_value(4), Some(Event::PTRACE_EVENT_EXEC));
    assert_eq!(Event::from_value(7), Some(Event::PTRACE_EVENT_SECCOMP));
    assert_eq!(Event::from_value(128), Some(Event::PTRACE_EVENT_STOP));
    assert_eq!(Event::from_value(0), None);
    assert_eq!(Event::from_value(8), None);
    assert_eq!(Event::from_value(127), None);
    assert_eq!(Event::from_value(-1), None);
    for e in [
        Event::PTRACE_EVENT_FORK,
        Event::PTRACE_EVENT_VFORK,
        Event::PTRACE_EVENT_CLONE,
        Event::PTRACE_EVENT_EXEC,
        Event::PTRACE_EVENT_VFORK_DONE,
        Event::PTRACE_EVENT_EXIT,
        Event::PTRACE_EVENT_SECCOMP,
        Event::PTRACE_EVENT_STOP,
    ] {
        assert_eq!(Event::from_value(e.value()), Some(e));
    }
}

#[test]
fn unit_result_decodes_the_return_convention() {
    assert_eq!(unit_result(0, 0), Ok(()));
    assert_eq!(unit_result(24, 0), Ok(()));
    assert_eq!(unit_result(-1, 3), Err(Errno { code: 3 }));
    assert_eq!(unit_result(-1, 0), Err(Errno { code: 0 }));
}

#[test]
fn peek_result_tells_a_fetched_word_from_a_failure() {
    // A fetched word, even `-1`, is data while errno stays clear.
    assert_eq!(peek_result(-1, 0), Ok(-1));
    assert_eq!(peek_result(7, 0), Ok(7));
    // A word fetched while errno was set is still data unless it is
    // the sentinel.
    assert_eq!(peek_result(7, 14), Ok(7));
    assert_eq!(peek_result(-1, 14), Err(Errno { code: 14 }));
}

#[test]
fn data_result_hands_the_buffer_through_on_success_only() {
    assert_eq!(data_result(0, 0, 0xfeedu64), Ok(0xfeedu64));
    assert_eq!(data_result(-1, 3, 0xfeedu64), Err(Errno { code: 3 }));
}

#[test]
fn signal_words_encode_absence_as_zero() {
    assert_eq!(signal_word(None), 0);
    assert_eq!(signal_word(Some(libc::SIGUSR1)), libc::SIGUSR1 as u64);
    assert_eq!(signal_word(Some(0)), 0);
}

#[test]
fn buffer_sizes_match_the_platform_structures() {
    assert_eq!(
        std::mem::size_of::<libc::user_regs_struct>() as u64,
        ptrace::REGS_SIZE
    );
    assert_eq!(
        std::mem::size_of::<libc::siginfo_t>() as u64,
        ptrace::SIGINFO_SIZE
    );
    assert_eq!(
        std::mem::size_of::<libc::ptrace_syscall_info>() as u64,
        ptrace::SYSCALL_INFO_SIZE
    );
    assert_eq!(std::mem::size_of::<libc::c_long>() as u64, ptrace::WORD_SIZE);
}

#[test]
fn builders_produce_the_documented_quadruples() {
    assert_eq!(
        ptrace::attach(7),
        Call {
            request: Request::PTRACE_ATTACH,
            pid: 7,
            addr: 0,
            data: DataArg::Null,
        }
    );
    assert_eq!(
        ptrace::traceme(),
        Call {
            request: Request::PTRACE_TRACEME,
            pid: 0,
            addr: 0,
            data: DataArg::Null,
        }
    );
    assert_eq!(
        ptrace::cont(5, Some(libc::SIGTERM)),
        Call {
            request: Request::PTRACE_CONT,
            pid: 5,
            addr: 0,
            data: DataArg::Word(libc::SIGTERM as u64),
        }
    );
    assert_eq!(
        ptrace::step(5, None),
        Call {
            request: Request::PTRACE_SINGLESTEP,
            pid: 5,
            addr: 0,
            data: DataArg::Word(0),
        }
    );
    assert_eq!(
        ptrace::read(9, 0x1000),
        Call {
            request: Request::PTRACE_PEEKDATA,
            pid: 9,
            addr: 0x1000,
            data: DataArg::Null,
        }
    );
    assert_eq!(
        calls::write(9, 0x1000, 0xabcd),
        Call {
            request: Request::PTRACE_POKEDATA,
            pid: 9,
            addr: 0x1000,
            data: DataArg::Word(0xabcd),
        }
    );
    assert_eq!(
        ptrace::read_user(9, 0x20),
        Call {
            request: Request::PTRACE_PEEKUSER,
            pid: 9,
            addr: 0x20,
            data: DataArg::Null,
        }
    );
    assert_eq!(
        ptrace::write_user(9, 0x20, 0x1),
        Call {
            request: Request::PTRACE_POKEUSER,
            pid: 9,
            addr: 0x20,
            data: DataArg::Word(0x1),
        }
    );
    assert_eq!(
        ptrace::setoptions(3, Options::trace_sysgood()),
        Call {
            request: Request::PTRACE_SETOPTIONS,
            pid: 3,
            addr: 0,
            data: DataArg::Word(1),
        }
    );
    assert_eq!(
        ptrace::seize(3, Options::exit_kill()),
        Call {
            request: Request::PTRACE_SEIZE,
            pid: 3,
            addr: 0,
            data: DataArg::Word(0x100000),
        }
    );
    assert_eq!(
        ptrace::setsigmask(3, 0xdead),
        Call {
            request: Request::PTRACE_SETSIGMASK,
            pid: 3,
            addr: 8,
            data: DataArg::InWord(0xdead),
        }
    );
    assert_eq!(
        ptrace::getsigmask(3),
        Call {
            request: Request::PTRACE_GETSIGMASK,
            pid: 3,
            addr: 8,
            data: DataArg::Buffer,
        }
    );
    assert_eq!(
        ptrace::getevent(3),
        Call {
            request: Request::PTRACE_GETEVENTMSG,
            pid: 3,
            addr: 8,
            data: DataArg::Buffer,
        }
    );
    assert_eq!(
        ptrace::getregs(3),
        Call {
            request: Request::PTRACE_GETREGS,
            pid: 3,
            addr: 216,
            data: DataArg::Buffer,
        }
    );
    assert_eq!(
        ptrace::setregs(3),
        Call {
            request: Request::PTRACE_SETREGS,
            pid: 3,
            addr: 0,
            data: DataArg::Buffer,
        }
    );
    assert_eq!(
        ptrace::getsiginfo(3),
        Call {
            request: Request::PTRACE_GETSIGINFO,
            pid: 3,
            addr: 128,
            data: DataArg::Buffer,
        }
    );
    assert_eq!(
        ptrace::setsiginfo(3),
        Call {
            request: Request::PTRACE_SETSIGINFO,
            pid: 3,
            addr: 0,
            data: DataArg::Buffer,
        }
    );
    assert_eq!(
        ptrace::getsyscallinfo(3),
        Call {
            request: Request::PTRACE_GET_SYSCALL_INFO,
            pid: 3,
            addr: 88,
            data: DataArg::Buffer,
        }
    );
    assert_eq!(
        ptrace::detach(3, None),
        Call {
            request: Request::PTRACE_DETACH,
            pid: 3,
            addr: 0,
            data: DataArg::Word(0),
        }
    );
    assert_eq!(
        ptrace::interrupt(3).request,
        Request::PTRACE_INTERRUPT
    );
    assert_eq!(ptrace::kill(3).request, Request::PTRACE_KILL);
    assert_eq!(ptrace::syscall(3, None).request, Request::PTRACE_SYSCALL);
    assert_eq!(ptrace::sysemu(3, None).request, Request::PTRACE_SYSEMU);
    assert_eq!(
        ptrace::sysemu_step(3, None).request,
        Request::PTRACE_SYSEMU_SINGLESTEP
    );
}

fn payload(op: u8) -> SyscallInfoPayload {
    SyscallInfoPayload {
        op,
        arch: 0xc000003e,
        instruction_pointer: 0x401000,
        stack_pointer: 0x7ffd1000,
        entry_nr: 3,
        entry_args: [10, 20, 30, 40, 50, 60],
        exit_sval: -9,
        exit_is_error: 1,
        seccomp_nr: 59,
        seccomp_args: [1, 2, 3, 4, 5, 6],
        seccomp_ret_data: 0x7fff,
    }
}

#[test]
fn syscall_info_discriminants_match_the_platform() {
    assert_eq!(0u8, libc::PTRACE_SYSCALL_INFO_NONE);
    assert_eq!(1u8, libc::PTRACE_SYSCALL_INFO_ENTRY);
    assert_eq!(2u8, libc::PTRACE_SYSCALL_INFO_EXIT);
    assert_eq!(3u8, libc::PTRACE_SYSCALL_INFO_SECCOMP);
}

#[test]
fn syscall_info_decodes_each_known_discriminant() {
    let none = SyscallInfo::from_raw(payload(0)).unwrap();
    assert_eq!(none.op, SyscallInfoOp::NoSyscall);
    assert_eq!(none.arch, 0xc000003e);
    assert_eq!(none.instruction_pointer, 0x401000);
    assert_eq!(none.stack_pointer, 0x7ffd1000);

    let entry = SyscallInfo::from_raw(payload(1)).unwrap();
    assert_eq!(
        entry.op,
        SyscallInfoOp::Entry {
            nr: 3,
            args: [10, 20, 30, 40, 50, 60],
        }
    );

    let exit = SyscallInfo::from_raw(payload(2)).unwrap();
    assert_eq!(
        exit.op,
        SyscallInfoOp::Exit {
            ret_val: -9,
            is_error: 1,
        }
    );

    let seccomp = SyscallInfo::from_raw(payload(3)).unwrap();
    assert_eq!(
        seccomp.op,
        SyscallInfoOp::Seccomp {
            nr: 59,
            args: [1, 2, 3, 4, 5, 6],
            ret_data: 0x7fff,
        }
    );
}

#[test]
fn syscall_info_rejects_unknown_discriminants() {
    for op in [4u8, 5, 100, 255] {
        assert_eq!(
            SyscallInfo::from_raw(payload(op)),
            Err(Errno { code: ENOSYS })
        );
    }
    // ENOSYS is the platform's "function not implemented".
    assert_eq!(ENOSYS, 38);
}
