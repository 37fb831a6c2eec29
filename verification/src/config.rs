use crate::numbers::{parse_u64, spec_parse_u64};
use vstd::prelude::*;

verus! {

/// The invocation record both roles work from: the program to run, the
/// files its standard input and output are bound to, and the two configured
/// ceilings (CPU seconds and bytes of memory).  Immutable once parsed.
pub struct Config {
    pub program_path: String,
    pub input_path: String,
    pub output_path: String,
    pub time_limit: u64,
    pub memory_limit: u64,
}

/// Why an argument list was rejected before any process was started.
#[derive(Clone, Copy, PartialEq, Eq, Structural, Debug)]
pub enum ConfigError {
    Usage,
    InvalidTimeLimit,
    InvalidMemoryLimit,
}

/// The message reported for each rejection.
pub open spec fn spec_config_error_message(e: ConfigError) -> Seq<char> {
    match e {
        ConfigError::Usage => "Usage: rust-runner <program_path> <input_path> <output_path> <time_limit> <memory_limit>"@,
        ConfigError::InvalidTimeLimit => "time limit is not an unsigned integer"@,
        ConfigError::InvalidMemoryLimit => "memory limit is not an unsigned integer"@,
    }
}

impl ConfigError {
    /// The human-readable description of the rejection.
    pub fn message(&self) -> (s: &'static str)
        ensures
            s@ == spec_config_error_message(*self),
    {
        match self {
            ConfigError::Usage => "Usage: rust-runner <program_path> <input_path> <output_path> <time_limit> <memory_limit>",
            ConfigError::InvalidTimeLimit => "time limit is not an unsigned integer",
            ConfigError::InvalidMemoryLimit => "memory limit is not an unsigned integer",
        }
    }
}

impl Config {
    /// Parses the six positional arguments (the invoking program's own name
    /// first): program path, input path, output path, then the time limit
    /// and the memory limit as non-negative decimal integers.  Succeeds on
    /// exactly those argument lists, and names what was wrong otherwise.
    pub fn parse(args: &[String]) -> (r: Result<Config, ConfigError>)
        ensures
            match r {
                Ok(c) => args@.len() == 6 && c.program_path@ == args@[1]@ && c.input_path@
                    == args@[2]@ && c.output_path@ == args@[3]@ && Some(c.time_limit)
                    == spec_parse_u64(args@[4]@) && Some(c.memory_limit) == spec_parse_u64(
                    args@[5]@,
                ),
                Err(e) => match e {
                    ConfigError::Usage => args@.len() != 6,
                    ConfigError::InvalidTimeLimit => args@.len() == 6 && spec_parse_u64(args@[4]@)
                        is None,
                    ConfigError::InvalidMemoryLimit => args@.len() == 6 && spec_parse_u64(
                        args@[4]@,
                    ) is Some && spec_parse_u64(args@[5]@) is None,
                },
            },
    {
        if args.len() != 6 {
            return Err(ConfigError::Usage);
        }
        let time_limit = match parse_u64(args[4].as_str()) {
            Some(t) => t,
            None => { return Err(ConfigError::InvalidTimeLimit) },
        };
        let memory_limit = match parse_u64(args[5].as_str()) {
            Some(m) => m,
            None => { return Err(ConfigError::InvalidMemoryLimit) },
        };
        Ok(
            Config {
                program_path: args[1].clone(),
                input_path: args[2].clone(),
                output_path: args[3].clone(),
                time_limit,
                memory_limit,
            },
        )
    }
}

} // verus!
