use rust_runner::config::{Config, ConfigError};

#[test]
fn test_parse() {
    let args = vec![
        "rust_runner".to_string(),
        "./a.out".to_string(),
        "in.txt".to_string(),
        "out.txt".to_string(),
        "1000".to_string(),
        "1000".to_string(),
    ];
    let config = Config::parse(&args).unwrap();
    assert_eq!(config.program_path, "./a.out");
    assert_eq!(config.input_path, "in.txt");
    assert_eq!(config.output_path, "out.txt");
    assert_eq!(config.time_limit, 1000);
    assert_eq!(config.memory_limit, 1000);
}

#[test]
fn test_parse_error() {
    let args = vec![
        "rust_runner".to_string(),
        "./a.out".to_string(),
        "in.txt".to_string(),
        "out.txt".to_string(),
        "1000".to_string(),
        "-1000".to_string(),
    ];
    let config = Config::parse(&args).unwrap_or_else(|err| {
        println!("Error: {}", err.message());
        Config {
            program_path: "".to_string(),
            input_path: "".to_string(),
            output_path: "".to_string(),
            time_limit: 0,
            memory_limit: 0,
        }
    });
    assert_eq!(config.program_path, "");
    assert_eq!(config.input_path, "");
    assert_eq!(config.output_path, "");
    assert_eq!(config.time_limit, 0);
    assert_eq!(config.memory_limit, 0);
}

#[test]
fn wrong_argument_count_is_a_usage_error() {
    let four = vec![
        "rust_runner".to_string(),
        "./a.out".to_string(),
        "in.txt".to_string(),
        "out.txt".to_string(),
        "1000".to_string(),
    ];
    assert!(matches!(Config::parse(&four), Err(ConfigError::Usage)));
    let none: Vec<String> = vec![];
    assert!(matches!(Config::parse(&none), Err(ConfigError::Usage)));
}

#[test]
fn non_numeric_time_limit_is_rejected() {
    let args = vec![
        "rust_runner".to_string(),
        "./a.out".to_string(),
        "in.txt".to_string(),
        "out.txt".to_string(),
        "fast".to_string(),
        "1000".to_string(),
    ];
    assert!(matches!(Config::parse(&args), Err(ConfigError::InvalidTimeLimit)));
}

#[test]
fn non_numeric_memory_limit_is_rejected() {
    let args = vec![
        "rust_runner".to_string(),
        "./a.out".to_string(),
        "in.txt".to_string(),
        "out.txt".to_string(),
        "1000".to_string(),
        "".to_string(),
    ];
    assert!(matches!(Config::parse(&args), Err(ConfigError::InvalidMemoryLimit)));
}

#[test]
fn limits_at_the_integer_ceiling_parse() {
    let args = vec![
        "rust_runner".to_string(),
        "./a.out".to_string(),
        "in.txt".to_string(),
        "out.txt".to_string(),
        "18446744073709551615".to_string(),
        "18446744073709551615".to_string(),
    ];
    let config = Config::parse(&args).unwrap();
    assert_eq!(config.time_limit, u64::MAX);
    assert_eq!(config.memory_limit, u64::MAX);
}

#[test]
fn limits_over_the_integer_ceiling_are_rejected() {
    let args = vec![
        "rust_runner".to_string(),
        "./a.out".to_string(),
        "in.txt".to_string(),
        "out.txt".to_string(),
        "18446744073709551616".to_string(),
        "1000".to_string(),
    ];
    assert!(matches!(Config::parse(&args), Err(ConfigError::InvalidTimeLimit)));
}

#[test]
fn a_leading_plus_sign_is_accepted_on_a_limit() {
    let args = vec![
        "rust_runner".to_string(),
        "./a.out".to_string(),
        "in.txt".to_string(),
        "out.txt".to_string(),
        "+1000".to_string(),
        "1000".to_string(),
    ];
    let config = Config::parse(&args).unwrap();
    assert_eq!(config.time_limit, 1000);
}
