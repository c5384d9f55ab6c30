use daemon_config::arguments::{
    check_dir_exists, find_letter, parse_ip_addr, parse_ipv4_addr, parse_ipv6_addr,
    parse_number, parse_ratio,
};
use daemon_config::flags::find_flag;
use daemon_config::{
    config_dir_argument, parse, Flag, IpAddress, Ipv4Address, Ipv6Address, ParseError, Ratio,
    RawOptions,
};

fn args(words: &[&str]) -> Vec<String> {
    words.iter().map(|w| w.to_string()).collect()
}

#[test]
fn no_arguments_give_no_options() {
    assert_eq!(parse(&args(&[]), false), Ok(RawOptions::empty()));
}

#[test]
fn long_and_short_flags_fill_the_same_fields() {
    let long = parse(
        &args(&["--port", "9000", "--no-dht", "--username", "anna", "--foreground"]),
        false,
    );
    let short = parse(&args(&["-p", "9000", "-O", "-u", "anna", "-f"]), false);
    let expected =
        RawOptions::empty().with_port(9000).with_no_dht().with_username("anna".to_string()).with_foreground();
    assert_eq!(long, Ok(expected.clone()));
    assert_eq!(short, Ok(expected));
}

#[test]
fn a_long_flag_takes_its_value_after_an_equals_sign() {
    let outcome = parse(&args(&["--port=9000", "--password=a=b", "--watch-dir="]), false);
    let expected = RawOptions::empty()
        .with_port(9000)
        .with_password("a=b".to_string())
        .with_watch_dir(String::new());
    assert_eq!(outcome, Ok(expected));
}

#[test]
fn a_short_flag_takes_its_value_in_the_same_argument() {
    let expected = RawOptions::empty().with_port(9000);
    assert_eq!(parse(&args(&["-p9000"]), false), Ok(expected.clone()));
    assert_eq!(parse(&args(&["-p=9000"]), false), Ok(expected.clone()));
    assert_eq!(parse(&args(&["-p", "9000"]), false), Ok(expected));
    assert_eq!(
        parse(&args(&["-u=", "-v=a=b", "-wdir"]), false),
        Ok(RawOptions::empty()
            .with_username(String::new())
            .with_password("a=b".to_string())
            .with_download_dir("dir".to_string()))
    );
    assert_eq!(
        parse(&args(&["-a127.0.0.1", "-g/etc"]), true),
        Ok(RawOptions::empty()
            .with_allowed(IpAddress::V4(Ipv4Address::new(127, 0, 0, 1)))
            .with_config_dir("/etc".to_string()))
    );
    assert_eq!(
        parse(&args(&["-p-1"]), false),
        Err(ParseError::InvalidNumber("port", "-1".to_string()))
    );
    assert_eq!(
        parse(&args(&["-p65536"]), false),
        Err(ParseError::InvalidNumber("port", "65536".to_string()))
    );
}

#[test]
fn short_flags_stand_side_by_side() {
    let expected = RawOptions::empty().with_foreground().with_dump_settings();
    assert_eq!(parse(&args(&["-fd"]), false), Ok(expected.clone()));
    assert_eq!(parse(&args(&["-df"]), false), Ok(expected.clone()));
    assert_eq!(parse(&args(&["-f", "-d"]), false), Ok(expected));
    assert_eq!(
        parse(&args(&["-fOp9000", "-bt"]), false),
        Ok(RawOptions::empty()
            .with_foreground()
            .with_no_dht()
            .with_port(9000)
            .with_blocklist()
            .with_auth())
    );
    assert_eq!(
        parse(&args(&["-fp", "9000", "-d"]), false),
        Ok(RawOptions::empty().with_foreground().with_port(9000).with_dump_settings())
    );
    assert_eq!(
        parse(&args(&["-fufd", "-d"]), false),
        Ok(RawOptions::empty()
            .with_foreground()
            .with_username("fd".to_string())
            .with_dump_settings())
    );
    assert_eq!(parse(&args(&["-fp"]), false), Err(ParseError::MissingValue("port")));
    assert_eq!(parse(&args(&["-ff"]), false), Err(ParseError::RepeatedFlag("foreground")));
    assert_eq!(
        parse(&args(&["-fz"]), false),
        Err(ParseError::UnknownArgument("-fz".to_string()))
    );
    assert_eq!(
        parse(&args(&["-f-d"]), false),
        Err(ParseError::UnknownArgument("-f-d".to_string()))
    );
    assert_eq!(parse(&args(&["-"]), false), Err(ParseError::UnknownArgument("-".to_string())));
    assert_eq!(parse(&args(&["--"]), false), Err(ParseError::UnknownArgument("--".to_string())));
    assert_eq!(parse(&args(&[""]), false), Err(ParseError::UnknownArgument(String::new())));
    assert_eq!(
        parse(&args(&["-fg", "/nonexistent", "-z"]), false),
        Err(ParseError::InvalidPath("config_dir", "/nonexistent".to_string()))
    );
}

#[test]
fn a_value_may_look_like_a_flag() {
    let outcome = parse(&args(&["--username", "--dht", "--dht"]), false);
    assert_eq!(outcome, Ok(RawOptions::empty().with_username("--dht".to_string()).with_dht()));
}

#[test]
fn port_bounds() {
    assert_eq!(parse(&args(&["--port", "65535"]), false), Ok(RawOptions::empty().with_port(65535)));
    assert_eq!(parse(&args(&["--port", "0"]), false), Ok(RawOptions::empty().with_port(0)));
    assert_eq!(parse(&args(&["--port", "+80"]), false), Ok(RawOptions::empty().with_port(80)));
    assert_eq!(
        parse(&args(&["--port", "65536"]), false),
        Err(ParseError::InvalidNumber("port", "65536".to_string()))
    );
    assert_eq!(
        parse(&args(&["--port", "-1"]), false),
        Err(ParseError::InvalidNumber("port", "-1".to_string()))
    );
    assert_eq!(
        parse(&args(&["-P", "http"]), false),
        Err(ParseError::InvalidNumber("peerport", "http".to_string()))
    );
    assert_eq!(
        parse(&args(&["--peerlimit-global", ""]), false),
        Err(ParseError::InvalidNumber("peerlimit_global", String::new()))
    );
    assert_eq!(
        parse(&args(&["-l", "99999999999999999999999"]), false),
        Err(ParseError::InvalidNumber("peerlimit_torrent", "99999999999999999999999".to_string()))
    );
}

#[test]
fn numbers() {
    assert_eq!(parse_number("0", 10), Some(0));
    assert_eq!(parse_number("007", 10), Some(7));
    assert_eq!(parse_number("10", 10), Some(10));
    assert_eq!(parse_number("11", 10), None);
    assert_eq!(parse_number("+", 10), None);
    assert_eq!(parse_number("1 ", 10), None);
    assert_eq!(parse_number("4294967295", u32::MAX), Some(u32::MAX));
    assert_eq!(parse_number("4294967296", u32::MAX), None);
}

#[test]
fn pid_file_is_a_number() {
    assert_eq!(parse(&args(&["-x", "4242"]), false), Ok(RawOptions::empty().with_pid_file(4242)));
    assert_eq!(
        parse(&args(&["--pid-file", "/run/pid"]), false),
        Err(ParseError::InvalidNumber("pid_file", "/run/pid".to_string()))
    );
}

#[test]
fn ratios() {
    assert_eq!(parse_ratio("2"), Some(Ratio { thousandths: 2000 }));
    assert_eq!(parse_ratio("2.0"), Some(Ratio { thousandths: 2000 }));
    assert_eq!(parse_ratio("1.25"), Some(Ratio { thousandths: 1250 }));
    assert_eq!(parse_ratio("0.005"), Some(Ratio { thousandths: 5 }));
    assert_eq!(parse_ratio("4294967.295"), Some(Ratio { thousandths: u32::MAX }));
    assert_eq!(parse_ratio("4294967.296"), None);
    assert_eq!(parse_ratio("1.2345"), None);
    assert_eq!(parse_ratio("1."), None);
    assert_eq!(parse_ratio(".5"), None);
    assert_eq!(parse_ratio("-1"), None);
    assert_eq!(parse_ratio("1.2.3"), None);
    assert_eq!(
        parse(&args(&["--global-seedratio", "abc"]), false),
        Err(ParseError::InvalidNumber("global_seedratio", "abc".to_string()))
    );
    assert_eq!(
        parse(&args(&["--global-seedratio", "1.5"]), false),
        Ok(RawOptions::empty().with_global_seedratio(Ratio { thousandths: 1500 }))
    );
}

#[test]
fn allowed_collects_addresses() {
    let outcome = parse(&args(&["-a", " 127.0.0.1 ", "--allowed", "::1"]), false);
    let expected = RawOptions::empty()
        .with_allowed(IpAddress::V4(Ipv4Address::new(127, 0, 0, 1)))
        .with_allowed(IpAddress::V6(Ipv6Address::new(0, 0, 0, 0, 0, 0, 0, 1)));
    assert_eq!(outcome, Ok(expected));
}

#[test]
fn address_flags_check_their_family() {
    assert_eq!(
        parse(&args(&["-i", "::1"]), false),
        Err(ParseError::InvalidAddress("bind_address_ipv4", "::1".to_string()))
    );
    assert_eq!(
        parse(&args(&["-I", "1.2.3.4"]), false),
        Err(ParseError::InvalidAddress("bind_address_ipv6", "1.2.3.4".to_string()))
    );
    assert_eq!(
        parse(&args(&["-i", "1.2.3.4", "-I", "fe80::1", "-r", "0.0.0.0"]), false),
        Ok(RawOptions::empty()
            .with_bind_address_ipv4(Ipv4Address::new(1, 2, 3, 4))
            .with_bind_address_ipv6(Ipv6Address::new(0xfe80, 0, 0, 0, 0, 0, 0, 1))
            .with_rpc_bind_address(IpAddress::V4(Ipv4Address::new(0, 0, 0, 0))))
    );
    assert_eq!(
        parse(&args(&["--rpc-bind-address", "localhost"]), false),
        Err(ParseError::InvalidAddress("rpc_bind_address", "localhost".to_string()))
    );
}

#[test]
fn trimmed_address_parsers() {
    assert_eq!(parse_ip_addr("  10.1.2.3\n"), Some(IpAddress::V4(Ipv4Address::new(10, 1, 2, 3))));
    assert_eq!(parse_ip_addr("\t::\u{a0}"), Some(IpAddress::V6(Ipv6Address::new(0, 0, 0, 0, 0, 0, 0, 0))));
    assert_eq!(parse_ip_addr("10.1.2"), None);
    assert_eq!(parse_ipv4_addr(" 255.255.255.255 "), Some(Ipv4Address::new(255, 255, 255, 255)));
    assert_eq!(parse_ipv4_addr("1. 2.3.4"), None);
    assert_eq!(parse_ipv6_addr(" 1:2:3:4:5:6:7:8 "), Some(Ipv6Address::new(1, 2, 3, 4, 5, 6, 7, 8)));
    assert_eq!(parse_ipv6_addr("1.2.3.4"), None);
}

#[test]
fn config_dir_has_to_exist() {
    assert_eq!(
        parse(&args(&["-g", "/etc"]), true),
        Ok(RawOptions::empty().with_config_dir("/etc".to_string()))
    );
    assert_eq!(
        parse(&args(&["--config-dir=/nonexistent"]), false),
        Err(ParseError::InvalidPath("config_dir", "/nonexistent".to_string()))
    );
    assert_eq!(check_dir_exists("/etc".to_string(), true), Ok("/etc".to_string()));
    assert_eq!(
        check_dir_exists("/etc/passwd".to_string(), false),
        Err(ParseError::InvalidPath("config_dir", "/etc/passwd".to_string()))
    );
}

#[test]
fn reading_stops_at_the_first_error() {
    assert_eq!(
        parse(&args(&["--config-dir", "/nonexistent", "--port", "abc"]), false),
        Err(ParseError::InvalidPath("config_dir", "/nonexistent".to_string()))
    );
    assert_eq!(
        parse(&args(&["--port", "abc", "--config-dir", "/nonexistent"]), false),
        Err(ParseError::InvalidNumber("port", "abc".to_string()))
    );
}

#[test]
fn other_paths_are_taken_as_they_stand() {
    let outcome = parse(
        &args(&["-c", "/nowhere", "--incomplete-dir", "x", "-e", "log", "-w", ""]),
        false,
    );
    let expected = RawOptions::empty()
        .with_watch_dir("/nowhere".to_string())
        .with_incomplete_dir("x".to_string())
        .with_logfile("log".to_string())
        .with_download_dir(String::new());
    assert_eq!(outcome, Ok(expected));
}

#[test]
fn the_argument_of_the_config_dir_is_found() {
    assert_eq!(config_dir_argument(&args(&["--dht", "-g", "/a", "-g", "/b"])), Some("/a".to_string()));
    assert_eq!(config_dir_argument(&args(&["--config-dir=/c"])), Some("/c".to_string()));
    assert_eq!(config_dir_argument(&args(&["--username", "-g", "/a"])), None);
    assert_eq!(config_dir_argument(&args(&["--username", "-g", "-g", "/a"])), Some("/a".to_string()));
    assert_eq!(config_dir_argument(&args(&["-g"])), None);
    assert_eq!(config_dir_argument(&args(&["stray", "-g", "/a"])), None);
    assert_eq!(config_dir_argument(&args(&[])), None);
    assert_eq!(config_dir_argument(&args(&["-fg", "/a"])), Some("/a".to_string()));
    assert_eq!(config_dir_argument(&args(&["-g/a"])), Some("/a".to_string()));
    assert_eq!(config_dir_argument(&args(&["-dg=/a", "-g", "/b"])), Some("/a".to_string()));
    assert_eq!(config_dir_argument(&args(&["-p", "-g", "-g/c"])), Some("/c".to_string()));
    assert_eq!(config_dir_argument(&args(&["-ug", "/a"])), None);
    assert_eq!(config_dir_argument(&args(&["-fz", "-g", "/a"])), None);
    assert_eq!(config_dir_argument(&args(&["-fg"])), None);
}

#[test]
fn malformed_command_lines() {
    assert_eq!(
        parse(&args(&["--frobnicate"]), false),
        Err(ParseError::UnknownArgument("--frobnicate".to_string()))
    );
    assert_eq!(
        parse(&args(&["--dht", "torrent.file"]), false),
        Err(ParseError::UnknownArgument("torrent.file".to_string()))
    );
    assert_eq!(parse(&args(&["--dht", "--port"]), false), Err(ParseError::MissingValue("port")));
    assert_eq!(
        parse(&args(&["--dht=yes"]), false),
        Err(ParseError::UnexpectedValue("dht", "yes".to_string()))
    );
    assert_eq!(parse(&args(&["--dht", "-o"]), false), Err(ParseError::RepeatedFlag("dht")));
    assert_eq!(
        parse(&args(&["-p", "1", "--port", "2"]), false),
        Err(ParseError::RepeatedFlag("port"))
    );
}

#[test]
fn every_flag_has_its_names() {
    let names: Vec<(&str, Option<&str>, Flag)> = vec![
        ("--allowed", Some("-a"), Flag::Allowed),
        ("--blocklist", Some("-b"), Flag::Blocklist),
        ("--no-blocklist", Some("-B"), Flag::NoBlocklist),
        ("--watch-dir", Some("-c"), Flag::WatchDir),
        ("--no-watch-dir", Some("-C"), Flag::NoWatchDir),
        ("--incomplete-dir", None, Flag::IncompleteDir),
        ("--no-incomplete-dir", None, Flag::NoIncompleteDir),
        ("--dump-settings", Some("-d"), Flag::DumpSettings),
        ("--logfile", Some("-e"), Flag::Logfile),
        ("--foreground", Some("-f"), Flag::Foreground),
        ("--config-dir", Some("-g"), Flag::ConfigDir),
        ("--port", Some("-p"), Flag::Port),
        ("--auth", Some("-t"), Flag::Auth),
        ("--no-auth", Some("-T"), Flag::NoAuth),
        ("--username", Some("-u"), Flag::Username),
        ("--password", Some("-v"), Flag::Password),
        ("--log-error", None, Flag::LogError),
        ("--log-info", None, Flag::LogInfo),
        ("--log-debug", None, Flag::LogDebug),
        ("--download-dir", Some("-w"), Flag::DownloadDir),
        ("--paused", None, Flag::Paused),
        ("--dht", Some("-o"), Flag::Dht),
        ("--no-dht", Some("-O"), Flag::NoDht),
        ("--lpd", Some("-y"), Flag::Lpd),
        ("--no-lpd", Some("-Y"), Flag::NoLpd),
        ("--utp", None, Flag::Utp),
        ("--no-utp", None, Flag::NoUtp),
        ("--peerport", Some("-P"), Flag::Peerport),
        ("--portmap", Some("-m"), Flag::Portmap),
        ("--no-portmap", Some("-M"), Flag::NoPortmap),
        ("--peerlimit-global", Some("-L"), Flag::PeerlimitGlobal),
        ("--peerlimit-torrent", Some("-l"), Flag::PeerlimitTorrent),
        ("--encryption-required", None, Flag::EncryptionRequired),
        ("--encryption-preferred", None, Flag::EncryptionPreferred),
        ("--encryption-tolerated", None, Flag::EncryptionTolerated),
        ("--bind-address-ipv4", Some("-i"), Flag::BindAddressIpv4),
        ("--bind-address-ipv6", Some("-I"), Flag::BindAddressIpv6),
        ("--rpc-bind-address", Some("-r"), Flag::RpcBindAddress),
        ("--global-seedratio", None, Flag::GlobalSeedratio),
        ("--no-global-seedratio", None, Flag::NoGlobalSeedratio),
        ("--pid-file", Some("-x"), Flag::PidFile),
    ];
    for (long, short, flag) in names {
        assert_eq!(find_flag(&long.chars().collect()), Some(flag));
        if let Some(short) = short {
            assert_eq!(find_flag(&short.chars().collect()), Some(flag));
        }
    }
    assert_eq!(find_letter('p'), Some(Flag::Port));
    assert_eq!(find_letter('P'), Some(Flag::Peerport));
    assert_eq!(find_letter('z'), None);
    assert_eq!(find_letter('-'), None);
    assert_eq!(find_flag(&"-z".chars().collect()), None);
    assert_eq!(find_flag(&"--DHT".chars().collect()), None);
    assert_eq!(find_flag(&"dht".chars().collect()), None);
    assert_eq!(Flag::Port.default_value(), Some(9091));
    assert_eq!(Flag::Peerport.default_value(), Some(51413));
    assert_eq!(Flag::PeerlimitGlobal.default_value(), Some(200));
    assert_eq!(Flag::PeerlimitTorrent.default_value(), Some(50));
    assert_eq!(Flag::Username.default_value(), None);
    assert!(Flag::Port.has_value());
    assert!(!Flag::Dht.has_value());
    assert_eq!(Flag::NoGlobalSeedratio.field_name(), "no_global_seedratio");
}

#[test]
fn dump_settings_is_exposed() {
    let cli = parse(&args(&["-d", "--paused"]), false).unwrap();
    assert!(cli.dump_settings);
    assert!(cli.paused);
    assert!(!cli.foreground);
}
