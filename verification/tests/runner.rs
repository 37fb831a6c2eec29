use rust_runner::config::Config;
use rust_runner::runner::{
    limit_plan, JudgeResult, LimitKind, RunResult, RunnerError, FILE_LIMIT, NO_LIMIT, OUTPUT_LIMIT,
};

#[test]
fn out() {
    let res = JudgeResult { result: RunResult::RunSuccess, time: 101, memory: 100 };
    println!("{}", res.to_line());
}

#[test]
fn error_messages_name_each_failure() {
    assert_eq!(RunnerError::ChildNotExited.message(), "Child process is not exited");
    assert_eq!(RunnerError::LimitNotSet.message(), "Cannot install a resource limit");
    assert_eq!(RunnerError::UsageQueryFailed.message(), "Cannot read the child's resource usage");
    assert_eq!(RunnerError::WaitFailed.message(), "Cannot wait for the child process");
}

#[test]
fn the_limit_plan_holds_exactly_six_ceilings() {
    let config = Config {
        program_path: "./a.out".to_string(),
        input_path: "in.txt".to_string(),
        output_path: "out.txt".to_string(),
        time_limit: 2,
        memory_limit: 268_435_456,
    };
    let plan = limit_plan(&config);
    assert_eq!(
        plan,
        vec![
            (LimitKind::Cpu, 2, 2),
            (LimitKind::AddressSpace, 268_435_456, 268_435_456),
            (LimitKind::Stack, 268_435_456, 268_435_456),
            (LimitKind::FileSize, OUTPUT_LIMIT, OUTPUT_LIMIT),
            (LimitKind::FileCount, FILE_LIMIT, FILE_LIMIT),
            (LimitKind::CoreDump, NO_LIMIT, NO_LIMIT),
        ]
    );
    assert_eq!(OUTPUT_LIMIT, 102_400);
    assert_eq!(FILE_LIMIT, 5);
    assert_eq!(NO_LIMIT, u64::MAX);
}
