use daemon_config::{ConfigError, ParseError, ResolveError, SchemaError};

#[test]
fn lines_for_errors_of_the_command_line() {
    let text = |s: &str| s.to_string();
    assert_eq!(
        ParseError::InvalidAddress("allowed", text("bad-ip")).message(),
        "invalid address for allowed: bad-ip"
    );
    assert_eq!(
        ParseError::InvalidPath("config_dir", text("/nonexistent")).message(),
        "no such directory for config_dir: /nonexistent"
    );
    assert_eq!(
        ParseError::InvalidNumber("port", text("65536")).message(),
        "invalid number for port: 65536"
    );
    assert_eq!(ParseError::UnknownArgument(text("--x")).message(), "unknown argument: --x");
    assert_eq!(ParseError::MissingValue("port").message(), "missing value for port");
    assert_eq!(
        ParseError::UnexpectedValue("dht", text("yes")).message(),
        "unexpected value for dht: yes"
    );
    assert_eq!(ParseError::RepeatedFlag("dht").message(), "flag given more than once: dht");
}

#[test]
fn lines_for_errors_of_the_document() {
    let text = |s: &str| s.to_string();
    assert_eq!(
        SchemaError::UnknownVariant("encryption", text("Rot13")).message(),
        "unknown variant for encryption: Rot13"
    );
    assert_eq!(
        SchemaError::OutOfRange("rpc_port", text("-1")).message(),
        "value out of range for rpc_port: -1"
    );
    assert_eq!(SchemaError::MissingField("umask").message(), "missing field: umask");
    assert_eq!(
        SchemaError::InvalidValue("rpc_enabled", text("no")).message(),
        "invalid value for rpc_enabled: no"
    );
    assert_eq!(SchemaError::Malformed(text("stray")).message(), "malformed line: stray");
    assert_eq!(SchemaError::NotText.message(), "settings document is not UTF-8 text");
}

#[test]
fn lines_for_errors_of_resolving() {
    assert_eq!(ResolveError::ConflictingFlags("dht").message(), "conflicting flags: dht");
    assert_eq!(
        ResolveError::OutOfRange("alt_speed_time_end", 1440).message(),
        "value out of range for alt_speed_time_end: 1440"
    );
}

#[test]
fn lines_for_errors_of_configuration() {
    assert_eq!(
        ConfigError::Parse(ParseError::MissingValue("port")).message(),
        "missing value for port"
    );
    assert_eq!(
        ConfigError::Schema(SchemaError::MissingField("umask")).message(),
        "missing field: umask"
    );
    assert_eq!(
        ConfigError::Resolve(ResolveError::ConflictingFlags("lpd")).message(),
        "conflicting flags: lpd"
    );
}
