use vstd::prelude::*;

verus! {

/// Signal numbers, as the kernel delivers them when a resource limit is
/// violated.  These are the Linux values; the whole platform-coupled
/// signal-to-verdict mapping is isolated in `spec_signal_verdict` /
/// `signal_verdict` so that porting touches one place.
pub const SIGNAL_KILL: i32 = 9;

pub const SIGNAL_SEGV: i32 = 11;

pub const SIGNAL_XCPU: i32 = 24;

pub const SIGNAL_XFSZ: i32 = 25;

/// The verdict of one supervised run: exactly one of these holds.
#[derive(Clone, Copy, PartialEq, Eq, Structural, Debug)]
pub enum RunResult {
    RunSuccess,
    TimeLimitExceeded,
    MemoryLimitExceeded,
    RunTimeError,
    OutputLimitExceeded,
}

/// How the child was observed to terminate: a normal exit with a status
/// code, termination by a signal (given by its number), or a state change
/// that is not a termination at all (stopped, still alive), which the
/// supervisor treats as its own failure rather than a verdict.
#[derive(Clone, Copy, PartialEq, Eq, Structural, Debug)]
pub enum ChildStatus {
    Exited(i32),
    Signaled(i32),
    NotTerminated,
}

/// The signal-to-verdict mapping: CPU-time-exceeded or forced kill means the
/// time limit was hit, a memory-protection violation means the memory limit,
/// a file-size violation means the output limit, and anything else is a
/// runtime error of the child's own.
pub open spec fn spec_signal_verdict(sig: int) -> RunResult {
    if sig == SIGNAL_XCPU || sig == SIGNAL_KILL {
        RunResult::TimeLimitExceeded
    } else if sig == SIGNAL_SEGV {
        RunResult::MemoryLimitExceeded
    } else if sig == SIGNAL_XFSZ {
        RunResult::OutputLimitExceeded
    } else {
        RunResult::RunTimeError
    }
}

/// The full classification: a normal exit (any code) is a success and a
/// signal goes through the signal mapping, but directly measured memory
/// usage above the configured limit overrides either, because the kernel is
/// not guaranteed to deliver the expected signal on every platform.  A
/// non-terminated status yields no verdict.
pub open spec fn spec_verdict(status: ChildStatus, memory_used: nat, memory_limit: nat) -> Option<
    RunResult,
> {
    match status {
        ChildStatus::Exited(_) => if memory_used > memory_limit {
            Some(RunResult::MemoryLimitExceeded)
        } else {
            Some(RunResult::RunSuccess)
        },
        ChildStatus::Signaled(sig) => if memory_used > memory_limit {
            Some(RunResult::MemoryLimitExceeded)
        } else {
            Some(spec_signal_verdict(sig as int))
        },
        ChildStatus::NotTerminated => None,
    }
}

/// Translates a termination signal into a verdict.
pub fn signal_verdict(sig: i32) -> (v: RunResult)
    ensures
        v == spec_signal_verdict(sig as int),
        sig == SIGNAL_XCPU || sig == SIGNAL_KILL ==> v == RunResult::TimeLimitExceeded,
        sig == SIGNAL_SEGV ==> v == RunResult::MemoryLimitExceeded,
        sig == SIGNAL_XFSZ ==> v == RunResult::OutputLimitExceeded,
        sig != SIGNAL_XCPU && sig != SIGNAL_KILL && sig != SIGNAL_SEGV && sig != SIGNAL_XFSZ ==> v
            == RunResult::RunTimeError,
{
    if sig == SIGNAL_XCPU || sig == SIGNAL_KILL {
        RunResult::TimeLimitExceeded
    } else if sig == SIGNAL_SEGV {
        RunResult::MemoryLimitExceeded
    } else if sig == SIGNAL_XFSZ {
        RunResult::OutputLimitExceeded
    } else {
        RunResult::RunTimeError
    }
}

/// Classifies a terminated child: the signal mapping (or success on a normal
/// exit), with the measured-memory override applied on top.  Returns `None`
/// exactly when the status is not a termination.
pub fn classify(status: &ChildStatus, memory_used: u64, memory_limit: u64) -> (v: Option<
    RunResult,
>)
    ensures
        v == spec_verdict(*status, memory_used as nat, memory_limit as nat),
{
    let base = match status {
        ChildStatus::Exited(_) => RunResult::RunSuccess,
        ChildStatus::Signaled(sig) => signal_verdict(*sig),
        ChildStatus::NotTerminated => { return None },
    };
    if memory_used > memory_limit {
        Some(RunResult::MemoryLimitExceeded)
    } else {
        Some(base)
    }
}

/// The measured-memory override holds on every termination path: whenever a
/// verdict exists at all and the measured usage exceeds the limit, that
/// verdict is `MemoryLimitExceeded`; and a normal exit within the limit is
/// always `RunSuccess`, whatever the exit code.
pub proof fn lemma_memory_override(status: ChildStatus, memory_used: nat, memory_limit: nat)
    ensures
        memory_used > memory_limit && !(status is NotTerminated) ==> spec_verdict(
            status,
            memory_used,
            memory_limit,
        ) == Some(RunResult::MemoryLimitExceeded),
        memory_used <= memory_limit && status is Exited ==> spec_verdict(
            status,
            memory_used,
            memory_limit,
        ) == Some(RunResult::RunSuccess),
        spec_verdict(status, memory_used, memory_limit) is None <==> status is NotTerminated,
{
}

} // verus!
