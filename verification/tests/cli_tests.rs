use shawl::cli::{parse_env_var, Cli, CliError, CommonOpts, LogRotation, Priority, Subcommand};

fn s(text: &str) -> String {
    text.to_string()
}

const PRIORITIES: [Priority; 6] = [
    Priority::Realtime,
    Priority::High,
    Priority::AboveNormal,
    Priority::Normal,
    Priority::BelowNormal,
    Priority::Idle,
];

#[test]
fn priority_to_cli_writes_the_names() {
    assert_eq!(Priority::Realtime.to_cli(), "realtime");
    assert_eq!(Priority::High.to_cli(), "high");
    assert_eq!(Priority::AboveNormal.to_cli(), "above-normal");
    assert_eq!(Priority::Normal.to_cli(), "normal");
    assert_eq!(Priority::BelowNormal.to_cli(), "below-normal");
    assert_eq!(Priority::Idle.to_cli(), "idle");
}

#[test]
fn priority_all_lists_the_names_in_order() {
    let names: Vec<String> = PRIORITIES.iter().map(|p| p.to_cli()).collect();
    assert_eq!(names, Priority::ALL.to_vec());
}

#[test]
fn priority_from_str_reads_the_names() {
    assert_eq!(Priority::from_str("realtime"), Ok(Priority::Realtime));
    assert_eq!(Priority::from_str("high"), Ok(Priority::High));
    assert_eq!(Priority::from_str("above-normal"), Ok(Priority::AboveNormal));
    assert_eq!(Priority::from_str("normal"), Ok(Priority::Normal));
    assert_eq!(Priority::from_str("below-normal"), Ok(Priority::BelowNormal));
    assert_eq!(Priority::from_str("idle"), Ok(Priority::Idle));
}

#[test]
fn priority_from_str_refuses_other_texts() {
    assert_eq!(Priority::from_str("High"), Err(s("invalid priority: High")));
    assert_eq!(Priority::from_str(""), Err(s("invalid priority: ")));
    assert_eq!(Priority::from_str("normal "), Err(s("invalid priority: normal ")));
    assert_eq!(Priority::from_str("above_normal"), Err(s("invalid priority: above_normal")));
}

#[test]
fn priority_names_read_back() {
    for priority in PRIORITIES {
        assert_eq!(Priority::from_str(&priority.to_cli()), Ok(priority));
    }
}

#[test]
fn priority_to_winapi_gives_the_class_values() {
    assert_eq!(Priority::Realtime.to_winapi(), 0x100);
    assert_eq!(Priority::High.to_winapi(), 0x80);
    assert_eq!(Priority::AboveNormal.to_winapi(), 0x8000);
    assert_eq!(Priority::Normal.to_winapi(), 0x20);
    assert_eq!(Priority::BelowNormal.to_winapi(), 0x4000);
    assert_eq!(Priority::Idle.to_winapi(), 0x40);
}

#[test]
fn priority_default_is_normal() {
    assert_eq!(Priority::default(), Priority::Normal);
}

#[test]
fn log_rotation_to_cli_writes_each_form() {
    assert_eq!(LogRotation::Bytes(0).to_cli(), "bytes=0");
    assert_eq!(LogRotation::Bytes(123).to_cli(), "bytes=123");
    assert_eq!(LogRotation::Bytes(u64::MAX).to_cli(), "bytes=18446744073709551615");
    assert_eq!(LogRotation::Daily.to_cli(), "daily");
    assert_eq!(LogRotation::Hourly.to_cli(), "hourly");
}

#[test]
fn log_rotation_from_str_reads_each_form() {
    assert_eq!(LogRotation::from_str("daily"), Ok(LogRotation::Daily));
    assert_eq!(LogRotation::from_str("hourly"), Ok(LogRotation::Hourly));
    assert_eq!(LogRotation::from_str("bytes=123"), Ok(LogRotation::Bytes(123)));
    assert_eq!(LogRotation::from_str("bytes=+7"), Ok(LogRotation::Bytes(7)));
    assert_eq!(LogRotation::from_str("bytes=007"), Ok(LogRotation::Bytes(7)));
    assert_eq!(
        LogRotation::from_str("bytes=18446744073709551615"),
        Ok(LogRotation::Bytes(u64::MAX))
    );
}

#[test]
fn log_rotation_from_str_refuses_bad_byte_counts() {
    assert_eq!(
        LogRotation::from_str("bytes="),
        Err(s("Unable to parse log rotation as bytes: ParseIntError { kind: Empty }"))
    );
    assert_eq!(
        LogRotation::from_str("bytes=12k"),
        Err(s("Unable to parse log rotation as bytes: ParseIntError { kind: InvalidDigit }"))
    );
    assert_eq!(
        LogRotation::from_str("bytes=-1"),
        Err(s("Unable to parse log rotation as bytes: ParseIntError { kind: InvalidDigit }"))
    );
    assert_eq!(
        LogRotation::from_str("bytes==1"),
        Err(s("Unable to parse log rotation as bytes: ParseIntError { kind: InvalidDigit }"))
    );
    assert_eq!(
        LogRotation::from_str("bytes=18446744073709551616"),
        Err(s("Unable to parse log rotation as bytes: ParseIntError { kind: PosOverflow }"))
    );
}

#[test]
fn log_rotation_error_shows_the_standard_error() {
    for digits in ["", "x", "-", "+", "99999999999999999999", "1 "] {
        let theirs = digits.parse::<u64>().unwrap_err();
        assert_eq!(
            LogRotation::from_str(&format!("bytes={}", digits)),
            Err(format!("Unable to parse log rotation as bytes: {:?}", theirs))
        );
    }
}

#[test]
fn log_rotation_from_str_refuses_other_texts() {
    assert_eq!(LogRotation::from_str("weekly"), Err(s("Unable to parse log rotation: weekly")));
    assert_eq!(LogRotation::from_str(""), Err(s("Unable to parse log rotation: ")));
    assert_eq!(LogRotation::from_str("Daily"), Err(s("Unable to parse log rotation: Daily")));
    assert_eq!(LogRotation::from_str("bytes"), Err(s("Unable to parse log rotation: bytes")));
    assert_eq!(LogRotation::from_str("byte=1"), Err(s("Unable to parse log rotation: byte=1")));
    assert_eq!(LogRotation::from_str(" bytes=1"), Err(s("Unable to parse log rotation:  bytes=1")));
}

#[test]
fn log_rotation_texts_read_back() {
    for rotation in [
        LogRotation::Daily,
        LogRotation::Hourly,
        LogRotation::Bytes(0),
        LogRotation::Bytes(1),
        LogRotation::Bytes(2097152),
        LogRotation::Bytes(u64::MAX),
    ] {
        assert_eq!(LogRotation::from_str(&rotation.to_cli()), Ok(rotation));
    }
}

#[test]
fn log_rotation_default_is_two_mebibytes() {
    assert_eq!(LogRotation::default(), LogRotation::Bytes(2097152));
    assert_eq!(LogRotation::default().to_cli(), "bytes=2097152");
}

#[test]
fn parse_env_var_splits_at_the_first_equals_sign() {
    let pairs = [
        ("KEY=value", "KEY", "value"),
        ("KEY=", "KEY", ""),
        ("=value", "", "value"),
        ("=", "", ""),
        ("A=b=c", "A", "b=c"),
        ("A==", "A", "="),
        ("päth=ü=1", "päth", "ü=1"),
    ];
    for (text, key, value) in pairs {
        match parse_env_var(text) {
            Ok((k, v)) => {
                assert_eq!(k, key);
                assert_eq!(v, value);
            }
            Err(e) => panic!("{:?} was refused: {:?}", text, e),
        }
    }
}

#[test]
fn parse_env_var_refuses_a_text_without_equals_sign() {
    for text in ["", "KEY", "KEY value", "päth"] {
        match parse_env_var(text) {
            Err(CliError::InvalidEnvVar { specification }) => assert_eq!(specification, text),
            Ok(pair) => panic!("{:?} was read as {:?}", text, pair),
        }
    }
}

#[test]
fn cli_error_describes_itself() {
    let error = CliError::InvalidEnvVar { specification: s("KEY value") };
    assert_eq!(error.to_string(), "Invalid KEY=value formatting in 'KEY value'");
    let empty = CliError::InvalidEnvVar { specification: s("") };
    assert_eq!(empty.to_string(), "Invalid KEY=value formatting in ''");
}

#[test]
fn common_opts_default_is_empty() {
    let opts = CommonOpts::default();
    assert_eq!(opts.pass, None);
    assert!(!opts.restart && !opts.no_restart);
    assert!(opts.restart_if.is_empty() && opts.restart_if_not.is_empty());
    assert_eq!(opts.stop_timeout, None);
    assert!(!opts.no_log && !opts.no_log_cmd && !opts.pass_start_args);
    assert_eq!(opts.log_dir, None);
    assert_eq!(opts.log_as, None);
    assert_eq!(opts.log_cmd_as, None);
    assert_eq!(opts.log_rotate, None);
    assert_eq!(opts.log_retain, None);
    assert!(opts.env.is_empty() && opts.path.is_empty() && opts.command.is_empty());
    assert_eq!(opts.priority, None);
}

#[test]
fn cli_values_compare_by_their_fields() {
    let run = |name: &str| Cli {
        sub: Subcommand::Run {
            common: CommonOpts { command: vec![s("foo")], ..CommonOpts::default() },
            cwd: None,
            name: s(name),
        },
    };
    assert_eq!(run("Shawl"), run("Shawl"));
    assert_ne!(run("Shawl"), run("other"));
    let add = Cli {
        sub: Subcommand::Add {
            common: CommonOpts { command: vec![s("foo")], ..CommonOpts::default() },
            cwd: None,
            dependencies: vec![s("a"), s("b")],
            name: s("Shawl"),
        },
    };
    assert_ne!(add, run("Shawl"));
    assert_eq!(add.clone(), add);
}

#[test]
fn values_parse_from_text() {
    assert_eq!("high".parse::<Priority>(), Ok(Priority::High));
    assert_eq!("lofty".parse::<Priority>(), Err(s("invalid priority: lofty")));
    assert_eq!("bytes=10".parse::<LogRotation>(), Ok(LogRotation::Bytes(10)));
    assert_eq!("hourly".parse::<LogRotation>(), Ok(LogRotation::Hourly));
    assert_eq!(
        "yearly".parse::<LogRotation>(),
        Err(s("Unable to parse log rotation: yearly"))
    );
    assert_eq!(
        "bytes=1x".parse::<LogRotation>(),
        Err(s("Unable to parse log rotation as bytes: ParseIntError { kind: InvalidDigit }"))
    );
    for text in ["realtime", "idle", "", "Idle", "daily", "bytes=", "bytes=+0", "hourly "] {
        assert_eq!(text.parse::<Priority>(), Priority::from_str(text));
        assert_eq!(text.parse::<LogRotation>(), LogRotation::from_str(text));
    }
}
