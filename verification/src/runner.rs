use crate::config::Config;
use crate::judge::judge;
use crate::verdict::lemma_memory_override;
use vstd::prelude::*;

pub use crate::judge::JudgeResult;
pub use crate::verdict::{ChildStatus, RunResult};

verus! {

/// The fixed ceiling, in bytes, on what the child may write to any one
/// file: it bounds how much a misbehaving program can put on disk no
/// matter what limits the invocation declared.
pub const OUTPUT_LIMIT: u64 = 1024 * 100;

/// The fixed ceiling on open file descriptors in the child.
pub const FILE_LIMIT: u64 = 5;

/// The unlimited resource value: on this platform the rlimit type is a
/// 64-bit unsigned integer whose all-ones value is RLIM_INFINITY.
pub const NO_LIMIT: u64 = u64::MAX;

/// Why the supervisor itself failed; these are not verdicts.
#[derive(Clone, Copy, PartialEq, Eq, Structural, Debug)]
pub enum RunnerError {
    LimitNotSet,
    UsageQueryFailed,
    WaitFailed,
    ChildNotExited,
}

/// The message reported for each supervisor failure.
pub open spec fn spec_runner_error_message(e: RunnerError) -> Seq<char> {
    match e {
        RunnerError::LimitNotSet => "Cannot install a resource limit"@,
        RunnerError::UsageQueryFailed => "Cannot read the child's resource usage"@,
        RunnerError::WaitFailed => "Cannot wait for the child process"@,
        RunnerError::ChildNotExited => "Child process is not exited"@,
    }
}

impl RunnerError {
    /// The human-readable description of the failure.
    pub fn message(&self) -> (s: &'static str)
        ensures
            s@ == spec_runner_error_message(*self),
    {
        match self {
            RunnerError::LimitNotSet => "Cannot install a resource limit",
            RunnerError::UsageQueryFailed => "Cannot read the child's resource usage",
            RunnerError::WaitFailed => "Cannot wait for the child process",
            RunnerError::ChildNotExited => "Child process is not exited",
        }
    }
}

/// The operating-system resources the launcher limits.
#[derive(Clone, Copy, PartialEq, Eq, Structural, Debug)]
pub enum LimitKind {
    Cpu,
    AddressSpace,
    Stack,
    FileSize,
    FileCount,
    CoreDump,
}

/// The ceilings one run installs in the child, in order, each as soft and
/// hard limit at once: CPU seconds and memory bytes from the configuration
/// (the memory ceiling on the address space and the stack alike), the two
/// fixed hardening ceilings, and unlimited core dumps.
pub open spec fn spec_limit_plan(config: Config) -> Seq<(LimitKind, u64, u64)> {
    seq![
        (LimitKind::Cpu, config.time_limit, config.time_limit),
        (LimitKind::AddressSpace, config.memory_limit, config.memory_limit),
        (LimitKind::Stack, config.memory_limit, config.memory_limit),
        (LimitKind::FileSize, OUTPUT_LIMIT, OUTPUT_LIMIT),
        (LimitKind::FileCount, FILE_LIMIT, FILE_LIMIT),
        (LimitKind::CoreDump, NO_LIMIT, NO_LIMIT),
    ]
}

/// Builds exactly the ceilings of `spec_limit_plan` for this configuration.
pub fn limit_plan(config: &Config) -> (plan: Vec<(LimitKind, u64, u64)>)
    ensures
        plan@ == spec_limit_plan(*config),
{
    let mut plan: Vec<(LimitKind, u64, u64)> = Vec::new();
    plan.push((LimitKind::Cpu, config.time_limit, config.time_limit));
    plan.push((LimitKind::AddressSpace, config.memory_limit, config.memory_limit));
    plan.push((LimitKind::Stack, config.memory_limit, config.memory_limit));
    plan.push((LimitKind::FileSize, OUTPUT_LIMIT, OUTPUT_LIMIT));
    plan.push((LimitKind::FileCount, FILE_LIMIT, FILE_LIMIT));
    plan.push((LimitKind::CoreDump, NO_LIMIT, NO_LIMIT));
    proof {
        assert(plan@ =~= spec_limit_plan(*config));
    }
    plan
}

#[verifier::external_type_specification]
#[verifier::external_body]
pub struct ExPid(nix::unistd::Pid);

/// Relies on nix::sys::resource::setrlimit: installs the given soft and
/// hard ceilings for the chosen resource in the calling process, and
/// returns the OS error number when the kernel refuses.
#[verifier::external_body]
fn set_limit(kind: &LimitKind, soft: u64, hard: u64) -> (r: Result<(), i32>) {
    let resource = match kind {
        LimitKind::Cpu => nix::sys::resource::Resource::RLIMIT_CPU,
        LimitKind::AddressSpace => nix::sys::resource::Resource::RLIMIT_AS,
        LimitKind::Stack => nix::sys::resource::Resource::RLIMIT_STACK,
        LimitKind::FileSize => nix::sys::resource::Resource::RLIMIT_FSIZE,
        LimitKind::FileCount => nix::sys::resource::Resource::RLIMIT_NOFILE,
        LimitKind::CoreDump => nix::sys::resource::Resource::RLIMIT_CORE,
    };
    nix::sys::resource::setrlimit(resource, soft, hard).map_err(|e| e as i32)
}

/// Relies on nix::sys::wait::waitpid, called with the WUNTRACED option on
/// one child: reports a normal exit with its code, a killing signal by its
/// raw number, and any other reported state change (stopped, still alive)
/// as NotTerminated; the OS error number comes back when the wait fails.
#[verifier::external_body]
fn wait_for_child(pid: nix::unistd::Pid) -> (r: Result<ChildStatus, i32>) {
    match nix::sys::wait::waitpid(pid, Some(nix::sys::wait::WaitPidFlag::WUNTRACED)) {
        Ok(nix::sys::wait::WaitStatus::Exited(_, code)) => Ok(ChildStatus::Exited(code)),
        Ok(nix::sys::wait::WaitStatus::Signaled(_, sig, _)) => Ok(
            ChildStatus::Signaled(sig as i32),
        ),
        Ok(_) => Ok(ChildStatus::NotTerminated),
        Err(e) => Err(e as i32),
    }
}

/// Relies on libproc::libproc::pid_rusage::pidrusage with RUsageInfoV0: it
/// reads the operating system's per-process resource accounting for the
/// given process and yields the user CPU time and memory fields of that
/// record, in bytes of memory, or fails when the process's accounting
/// entry cannot be read.
#[verifier::external_body]
fn query_usage(pid: nix::unistd::Pid) -> (r: Result<(u64, u64), ()>) {
    match libproc::libproc::pid_rusage::pidrusage::<libproc::libproc::pid_rusage::RUsageInfoV0>(
        pid.as_raw(),
    ) {
        Ok(usage) => Ok(
            (usage.ri_user_time, libproc::libproc::pid_rusage::PIDRUsage::memory_used(&usage)),
        ),
        Err(_) => Err(()),
    }
}

/// Installs every ceiling of `spec_limit_plan` in the calling (child)
/// process, in order, each fatal on failure so that an unlimited child
/// never runs.  Whether the kernel accepts a request depends on the
/// environment, so success cannot be promised; the requests themselves
/// are fixed by the verified `limit_plan`, and the only failure this
/// function reports is that a ceiling could not be installed.
pub fn set_child_limit(config: &Config) -> (r: Result<(), RunnerError>)
    ensures
        r is Err ==> r == Err::<(), RunnerError>(RunnerError::LimitNotSet),
{
    let plan = limit_plan(config);
    let mut i: usize = 0;
    while i < plan.len()
        invariant
            0 <= i <= plan@.len(),
        decreases plan@.len() - i,
    {
        let (kind, soft, hard) = plan[i];
        if set_limit(&kind, soft, hard).is_err() {
            return Err(RunnerError::LimitNotSet);
        }
        i = i + 1;
    }
    Ok(())
}

/// The supervisor: samples the child's resource accounting, waits for the
/// child to terminate, and classifies the outcome.  Whatever the operating
/// system reported, a produced result obeys the measured-memory override:
/// usage above the configured limit always reads MemoryLimitExceeded, and
/// a RunSuccess verdict never exceeds it.  A state change that is not a
/// termination, or a failed query, is a supervisor failure, not a verdict.
pub fn listen_child_process(child_pid: nix::unistd::Pid, config: &Config) -> (r: Result<
    JudgeResult,
    RunnerError,
>)
    ensures
        match r {
            Ok(res) => (res.memory > config.memory_limit ==> res.result
                == RunResult::MemoryLimitExceeded) && (res.result == RunResult::RunSuccess
                ==> res.memory <= config.memory_limit),
            Err(e) => e is UsageQueryFailed || e is WaitFailed || e is ChildNotExited,
        },
{
    let usage = match query_usage(child_pid) {
        Ok(u) => u,
        Err(_) => { return Err(RunnerError::UsageQueryFailed) },
    };
    let status = match wait_for_child(child_pid) {
        Ok(s) => s,
        Err(_) => { return Err(RunnerError::WaitFailed) },
    };
    proof {
        lemma_memory_override(status, usage.1 as nat, config.memory_limit as nat);
    }
    match judge(&status, usage.0, usage.1, config.memory_limit) {
        Some(res) => Ok(res),
        None => Err(RunnerError::ChildNotExited),
    }
}

/// The parent branch of the run: supervise the child and produce the
/// judge result.
pub fn father_program(child_pid: nix::unistd::Pid, config: &Config) -> (r: Result<
    JudgeResult,
    RunnerError,
>)
    ensures
        match r {
            Ok(res) => (res.memory > config.memory_limit ==> res.result
                == RunResult::MemoryLimitExceeded) && (res.result == RunResult::RunSuccess
                ==> res.memory <= config.memory_limit),
            Err(e) => e is UsageQueryFailed || e is WaitFailed || e is ChildNotExited,
        },
{
    listen_child_process(child_pid, config)
}

} // verus!
