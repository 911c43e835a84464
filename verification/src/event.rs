//! The stop-reason codes a tracee can report through the event-message
//! mechanism.
//!
//! When the tracee stops for one of these reasons, the wait status
//! carries the code and the get-event-message request yields the
//! accompanying message.  The codes are fixed by the kernel ABI.

use vstd::prelude::*;

verus! {

/// A `ptrace` event: the reason for an event stop, as reported in the
/// tracee's wait status.
#[allow(non_camel_case_types)]
#[derive(Clone, Copy, Debug, PartialEq, Eq, Hash, Structural)]
pub enum Event {
    /// Stop before a return from fork.
    PTRACE_EVENT_FORK,
    /// Stop before a return from vfork.
    PTRACE_EVENT_VFORK,
    /// Stop before a return from clone.
    PTRACE_EVENT_CLONE,
    /// Stop before a return from execve.
    PTRACE_EVENT_EXEC,
    /// Stop at the completion of a vfork.
    PTRACE_EVENT_VFORK_DONE,
    /// Stop before an exit, while registers can still be examined.
    PTRACE_EVENT_EXIT,
    /// Stop triggered by a seccomp trace rule.
    PTRACE_EVENT_SECCOMP,
    /// Group stop, or the stop induced by an interrupt request or by
    /// attaching to a new child.
    PTRACE_EVENT_STOP,
}

impl Event {
    /// The kernel's numeric code for this event.
    pub open spec fn spec_value(self) -> i32 {
        match self {
            Event::PTRACE_EVENT_FORK => 1,
            Event::PTRACE_EVENT_VFORK => 2,
            Event::PTRACE_EVENT_CLONE => 3,
            Event::PTRACE_EVENT_EXEC => 4,
            Event::PTRACE_EVENT_VFORK_DONE => 5,
            Event::PTRACE_EVENT_EXIT => 6,
            Event::PTRACE_EVENT_SECCOMP => 7,
            Event::PTRACE_EVENT_STOP => 128,
        }
    }

    /// The kernel's numeric code for this event, as it appears in the
    /// high byte of a stopped tracee's wait status.
    pub fn value(self) -> (r: i32)
        ensures
            r == self.spec_value(),
    {
        match self {
            Event::PTRACE_EVENT_FORK => 1,
            Event::PTRACE_EVENT_VFORK => 2,
            Event::PTRACE_EVENT_CLONE => 3,
            Event::PTRACE_EVENT_EXEC => 4,
            Event::PTRACE_EVENT_VFORK_DONE => 5,
            Event::PTRACE_EVENT_EXIT => 6,
            Event::PTRACE_EVENT_SECCOMP => 7,
            Event::PTRACE_EVENT_STOP => 128,
        }
    }

    /// The event a numeric code stands for, if any.
    pub open spec fn spec_from_value(v: i32) -> Option<Event> {
        if v == 1 {
            Some(Event::PTRACE_EVENT_FORK)
        } else if v == 2 {
            Some(Event::PTRACE_EVENT_VFORK)
        } else if v == 3 {
            Some(Event::PTRACE_EVENT_CLONE)
        } else if v == 4 {
            Some(Event::PTRACE_EVENT_EXEC)
        } else if v == 5 {
            Some(Event::PTRACE_EVENT_VFORK_DONE)
        } else if v == 6 {
            Some(Event::PTRACE_EVENT_EXIT)
        } else if v == 7 {
            Some(Event::PTRACE_EVENT_SECCOMP)
        } else if v == 128 {
            Some(Event::PTRACE_EVENT_STOP)
        } else {
            None
        }
    }

    /// Decode a numeric event code.  Exactly the eight codes the kernel
    /// defines are accepted; anything else is `None`.
    pub fn from_value(v: i32) -> (r: Option<Event>)
        ensures
            r == Event::spec_from_value(v),
    {
        if v == 1 {
            Some(Event::PTRACE_EVENT_FORK)
        } else if v == 2 {
            Some(Event::PTRACE_EVENT_VFORK)
        } else if v == 3 {
            Some(Event::PTRACE_EVENT_CLONE)
        } else if v == 4 {
            Some(Event::PTRACE_EVENT_EXEC)
        } else if v == 5 {
            Some(Event::PTRACE_EVENT_VFORK_DONE)
        } else if v == 6 {
            Some(Event::PTRACE_EVENT_EXIT)
        } else if v == 7 {
            Some(Event::PTRACE_EVENT_SECCOMP)
        } else if v == 128 {
            Some(Event::PTRACE_EVENT_STOP)
        } else {
            None
        }
    }
}

/// Decoding a code is the inverse of taking an event's code: every
/// event comes back from its own code, and a code that decodes at all
/// decodes to the one event that owns it.
pub proof fn lemma_event_value_round_trip(e: Event, v: i32)
    ensures
        Event::spec_from_value(e.spec_value()) == Some(e),
        Event::spec_from_value(v) matches Some(d) ==> d.spec_value() == v,
{
}

} // verus!
