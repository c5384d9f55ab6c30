use daemon_config::config::run_options;
use daemon_config::{
    combine, configure, init_config, serialize, ConfigError, EncryptionMode, ParseError,
    RawOptions, ResolveError, RunOptions, SchemaError, SessionSettings,
};

fn args(words: &[&str]) -> Vec<String> {
    words.iter().map(|w| w.to_string()).collect()
}

fn fresh() -> SessionSettings {
    SessionSettings::with_platform(None, None, "http://www.example.com/blocklist".to_string())
}

fn plain_run() -> RunOptions {
    RunOptions {
        dump_settings: false,
        foreground: false,
        paused: false,
        logfile: None,
        config_dir: None,
        pid_file: None,
    }
}

#[test]
fn a_start_without_arguments_or_document_gives_fresh_settings() {
    let home = Some("/custom".to_string());
    let downloads = Some("/downloads".to_string());
    let (settings, run) =
        init_config(&args(&[]), false, None, home.clone(), downloads.clone()).unwrap();
    assert_eq!(settings, SessionSettings::default(home, downloads));
    assert_eq!(settings.incomplete_dir, Some("/downloads".to_string()));
    assert_eq!(run, plain_run());
}

#[test]
fn a_start_lays_the_options_over_the_persisted_settings() {
    let mut persisted = fresh();
    persisted.encryption = EncryptionMode::EncryptionRequired;
    persisted.rpc_port = 7000;
    persisted.peer_port = 7001;
    let document = serialize(&persisted);
    let (settings, run) = init_config(
        &args(&["--encryption-preferred", "-P", "6000", "-d", "-e", "daemon.log", "-x", "17"]),
        false,
        Some(&document),
        None,
        Some("/ignored".to_string()),
    )
    .unwrap();
    let mut expected = persisted.clone();
    expected.encryption = EncryptionMode::EncryptionPreferred;
    expected.peer_port = 6000;
    assert_eq!(settings, expected);
    assert_eq!(
        run,
        RunOptions {
            dump_settings: true,
            logfile: Some("daemon.log".to_string()),
            pid_file: Some(17),
            ..plain_run()
        }
    );
}

#[test]
fn a_start_fails_on_the_command_line_first() {
    let outcome = init_config(&args(&["--allowed", "bad-ip"]), false, Some(b"garbage"), None, None);
    assert_eq!(
        outcome,
        Err(ConfigError::Parse(ParseError::InvalidAddress("allowed", "bad-ip".to_string())))
    );
    let outcome = init_config(&args(&["--config-dir", "/nonexistent"]), false, None, None, None);
    assert_eq!(
        outcome,
        Err(ConfigError::Parse(ParseError::InvalidPath("config_dir", "/nonexistent".to_string())))
    );
}

#[test]
fn a_start_fails_on_a_document_that_cannot_be_read() {
    let outcome = init_config(&args(&["--dht"]), false, Some(b"garbage"), None, None);
    assert_eq!(outcome, Err(ConfigError::Schema(SchemaError::Malformed("garbage".to_string()))));
    let outcome = init_config(&args(&[]), false, Some(b""), None, None);
    assert_eq!(outcome, Err(ConfigError::Schema(SchemaError::MissingField("blocklist_enabled"))));
    let outcome = init_config(&args(&[]), false, Some(&[0xff]), None, None);
    assert_eq!(outcome, Err(ConfigError::Schema(SchemaError::NotText)));
}

#[test]
fn a_start_fails_on_flags_given_against_one_another() {
    let document = serialize(&fresh());
    let outcome = init_config(&args(&["--dht", "--no-dht"]), false, Some(&document), None, None);
    assert_eq!(outcome, Err(ConfigError::Resolve(ResolveError::ConflictingFlags("dht"))));
    let outcome = init_config(&args(&["-y", "-Y"]), false, None, None, None);
    assert_eq!(outcome, Err(ConfigError::Resolve(ResolveError::ConflictingFlags("lpd"))));
}

#[test]
fn configuring_over_given_settings() {
    let outcome = configure(&args(&["-g", "/etc", "--port", "9000", "--no-dht", "-f"]), true, fresh());
    let mut expected = fresh();
    expected.rpc_port = 9000;
    expected.dht_enabled = false;
    let run = RunOptions { foreground: true, config_dir: Some("/etc".to_string()), ..plain_run() };
    assert_eq!(outcome, Ok((expected, run)));
    assert_eq!(
        configure(&args(&["-g", "/etc"]), false, fresh()),
        Err(ConfigError::Parse(ParseError::InvalidPath("config_dir", "/etc".to_string())))
    );
}

#[test]
fn combining_keeps_what_concerns_the_run() {
    let cli = RawOptions::empty().with_paused().with_logfile("l".to_string()).with_utp();
    assert_eq!(
        run_options(&cli),
        RunOptions { paused: true, logfile: Some("l".to_string()), ..plain_run() }
    );
    let (settings, run) = combine(cli, fresh()).unwrap();
    assert!(settings.utp_enabled);
    assert!(run.paused);
    let mut broken = fresh();
    broken.alt_speed_time_begin = 1440;
    assert_eq!(
        combine(RawOptions::empty(), broken),
        Err(ConfigError::Resolve(ResolveError::OutOfRange("alt_speed_time_begin", 1440)))
    );
}
