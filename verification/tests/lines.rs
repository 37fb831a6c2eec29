use rust_runner::judge::JudgeResult;
use rust_runner::numbers::{parse_u64, u64_to_string};
use rust_runner::runner::RunResult;

#[test]
fn a_successful_run_formats_as_one_line() {
    let res = JudgeResult { result: RunResult::RunSuccess, time: 50, memory: 40_000_000 };
    assert_eq!(res.to_line(), "Success 50 40000000");
}

#[test]
fn every_verdict_formats_under_its_name() {
    let mk = |result| JudgeResult { result, time: 1, memory: 2 };
    assert_eq!(mk(RunResult::RunSuccess).to_line(), "Success 1 2");
    assert_eq!(mk(RunResult::TimeLimitExceeded).to_line(), "TimeLimitExceeded 1 2");
    assert_eq!(mk(RunResult::MemoryLimitExceeded).to_line(), "MemoryLimitExceeded 1 2");
    assert_eq!(mk(RunResult::RunTimeError).to_line(), "RuntimeError 1 2");
    assert_eq!(mk(RunResult::OutputLimitExceeded).to_line(), "OutputLimitExceeded 1 2");
}

#[test]
fn zero_measurements_format_as_zero() {
    let res = JudgeResult { result: RunResult::TimeLimitExceeded, time: 0, memory: 0 };
    assert_eq!(res.to_line(), "TimeLimitExceeded 0 0");
}

#[test]
fn serializing_and_parsing_a_result_round_trips() {
    let samples = vec![
        JudgeResult { result: RunResult::RunSuccess, time: 50, memory: 40_000_000 },
        JudgeResult { result: RunResult::TimeLimitExceeded, time: 1_000, memory: 0 },
        JudgeResult { result: RunResult::MemoryLimitExceeded, time: 3, memory: u64::MAX },
        JudgeResult { result: RunResult::RunTimeError, time: 0, memory: 1 },
        JudgeResult { result: RunResult::OutputLimitExceeded, time: 12, memory: 102_400 },
    ];
    for sample in samples {
        let line = sample.to_line();
        assert_eq!(JudgeResult::parse_line(&line), Some(sample));
    }
}

#[test]
fn malformed_lines_do_not_parse() {
    assert_eq!(JudgeResult::parse_line(""), None);
    assert_eq!(JudgeResult::parse_line("Success"), None);
    assert_eq!(JudgeResult::parse_line("Success 12"), None);
    assert_eq!(JudgeResult::parse_line("Nonsense 1 2"), None);
    assert_eq!(JudgeResult::parse_line("Success x 2"), None);
    assert_eq!(JudgeResult::parse_line("Success 1 2 3"), None);
    assert_eq!(JudgeResult::parse_line("Success  1 2"), None);
    assert_eq!(JudgeResult::parse_line("Success 1 -2"), None);
    assert_eq!(JudgeResult::parse_line(" Success 1 2"), None);
}

#[test]
fn decimal_formatting_is_exact() {
    assert_eq!(u64_to_string(0), "0");
    assert_eq!(u64_to_string(7), "7");
    assert_eq!(u64_to_string(40_000_000), "40000000");
    assert_eq!(u64_to_string(u64::MAX), "18446744073709551615");
}

#[test]
fn decimal_parsing_is_exact() {
    assert_eq!(parse_u64("0"), Some(0));
    assert_eq!(parse_u64("007"), Some(7));
    assert_eq!(parse_u64("1000"), Some(1000));
    assert_eq!(parse_u64("18446744073709551615"), Some(u64::MAX));
    assert_eq!(parse_u64("18446744073709551616"), None);
    assert_eq!(parse_u64(""), None);
    assert_eq!(parse_u64("+1"), Some(1));
    assert_eq!(parse_u64("+"), None);
    assert_eq!(parse_u64("++1"), None);
    assert_eq!(parse_u64("-1000"), None);
    assert_eq!(parse_u64("12a"), None);
    assert_eq!(parse_u64(" 1"), None);
}
