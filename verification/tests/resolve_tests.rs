use daemon_config::{
    parse, resolve, EncryptionMode, Flag, IpAddress, Ipv4Address, Ipv6Address, LogLevel,
    ParseError, Ratio, RawOptions, ResolveError, SessionSettings,
};

fn args(words: &[&str]) -> Vec<String> {
    words.iter().map(|w| w.to_string()).collect()
}

fn fresh() -> SessionSettings {
    SessionSettings::with_platform(None, None, "http://www.example.com/blocklist".to_string())
}

#[test]
fn port_and_no_dht_over_defaults() {
    let cli = parse(&args(&["--port", "9000", "--no-dht"]), false).unwrap();
    let resolved = resolve(fresh(), cli).unwrap();
    assert_eq!(resolved.rpc_port, 9000);
    assert!(!resolved.dht_enabled);
    let mut expected = fresh();
    expected.rpc_port = 9000;
    expected.dht_enabled = false;
    assert_eq!(resolved, expected);
}

#[test]
fn cli_encryption_wins_over_persisted() {
    let mut base = fresh();
    base.encryption = EncryptionMode::EncryptionRequired;
    let cli = parse(&args(&["--encryption-preferred"]), false).unwrap();
    let resolved = resolve(base, cli).unwrap();
    assert_eq!(resolved.encryption, EncryptionMode::EncryptionPreferred);
}

#[test]
fn missing_config_dir_is_invalid_path() {
    let outcome = parse(&args(&["--config-dir", "/nonexistent"]), false);
    assert_eq!(
        outcome,
        Err(ParseError::InvalidPath("config_dir", "/nonexistent".to_string()))
    );
}

#[test]
fn bad_allowed_address_is_invalid_address() {
    let outcome = parse(&args(&["--allowed", "bad-ip"]), false);
    assert_eq!(
        outcome,
        Err(ParseError::InvalidAddress("allowed", "bad-ip".to_string()))
    );
}

#[test]
fn dht_and_no_dht_always_conflict_as_dht() {
    let cli = RawOptions::empty().with_dht().with_no_dht();
    assert_eq!(resolve(fresh(), cli), Err(ResolveError::ConflictingFlags("dht")));
    let crowded = RawOptions::empty()
        .with_blocklist()
        .with_no_blocklist()
        .with_encryption_required()
        .with_encryption_tolerated()
        .with_dht()
        .with_no_dht();
    assert_eq!(resolve(fresh(), crowded), Err(ResolveError::ConflictingFlags("dht")));
}

#[test]
fn each_pair_and_group_conflicts_under_its_name() {
    let cases: Vec<(RawOptions, &str)> = vec![
        (RawOptions::empty().with_lpd().with_no_lpd(), "lpd"),
        (RawOptions::empty().with_utp().with_no_utp(), "utp"),
        (RawOptions::empty().with_portmap().with_no_portmap(), "portmap"),
        (RawOptions::empty().with_blocklist().with_no_blocklist(), "blocklist"),
        (RawOptions::empty().with_auth().with_no_auth(), "auth"),
        (
            RawOptions::empty().with_encryption_required().with_encryption_preferred(),
            "encryption",
        ),
        (RawOptions::empty().with_log_error().with_log_debug(), "log"),
    ];
    for (cli, name) in cases {
        assert_eq!(resolve(fresh(), cli), Err(ResolveError::ConflictingFlags(name)));
    }
}

#[test]
fn conflicts_are_reported_in_their_order() {
    let cli = RawOptions::empty().with_log_info().with_log_debug().with_utp().with_no_utp();
    assert_eq!(resolve(fresh(), cli), Err(ResolveError::ConflictingFlags("utp")));
}

#[test]
fn resolving_without_options_is_idempotent() {
    let mut base = fresh();
    base.rpc_port = 1234;
    base.rpc_username = "anna".to_string();
    let once = resolve(base.clone(), RawOptions::empty()).unwrap();
    assert_eq!(once, base);
    let twice = resolve(once.clone(), RawOptions::empty()).unwrap();
    assert_eq!(twice, once);
}

#[test]
fn resolving_twice_with_the_same_options_changes_nothing() {
    let cli = || {
        RawOptions::empty()
            .with_port(8000)
            .with_no_utp()
            .with_watch_dir("/watch".to_string())
            .with_global_seedratio(Ratio { thousandths: 1500 })
    };
    let once = resolve(fresh(), cli()).unwrap();
    let twice = resolve(once.clone(), cli()).unwrap();
    assert_eq!(twice, once);
}

#[test]
fn every_value_flag_overrides_its_setting() {
    let address = IpAddress::V4(Ipv4Address::new(10, 0, 0, 1));
    let cli = RawOptions::empty()
        .with_allowed(address)
        .with_port(1)
        .with_username("u".to_string())
        .with_password("p".to_string())
        .with_download_dir("/data".to_string())
        .with_peerport(2)
        .with_peerlimit_global(3)
        .with_peerlimit_torrent(4)
        .with_bind_address_ipv4(Ipv4Address::new(1, 2, 3, 4))
        .with_rpc_bind_address(address);
    let resolved = resolve(fresh(), cli).unwrap();
    assert_eq!(resolved.rpc_whitelist, vec![address]);
    assert_eq!(resolved.rpc_port, 1);
    assert_eq!(resolved.rpc_username, "u");
    assert_eq!(resolved.rpc_password, "p");
    assert_eq!(resolved.download_dir, Some("/data".to_string()));
    assert_eq!(resolved.peer_port, 2);
    assert_eq!(resolved.peer_limit_global, 3);
    assert_eq!(resolved.peer_limit_per_torrent, 4);
    assert_eq!(resolved.bind_address_ipv4, Ipv4Address::new(1, 2, 3, 4));
    assert_eq!(resolved.rpc_bind_enabled_address, address);
    assert_eq!(resolved.cache_size_mb, 4);
}

#[test]
fn switches_set_and_clear_their_settings() {
    let on = RawOptions::empty().with_lpd().with_auth().with_log_debug().with_encryption_tolerated();
    let resolved = resolve(fresh(), on).unwrap();
    assert!(resolved.ltp_enabled);
    assert!(resolved.rpc_authentication_required);
    assert_eq!(resolved.message_level, LogLevel::Debug);
    assert_eq!(resolved.encryption, EncryptionMode::ClearPreferred);
    let off = RawOptions::empty().with_no_blocklist().with_no_portmap().with_no_utp();
    let resolved = resolve(fresh(), off).unwrap();
    assert!(!resolved.blocklist_enabled);
    assert!(!resolved.port_forwarding_enabled);
    assert!(!resolved.utp_enabled);
}

#[test]
fn a_path_switches_its_directory_on_and_the_negative_flag_off() {
    let cli = RawOptions::empty().with_watch_dir("/watch".to_string());
    let resolved = resolve(fresh(), cli).unwrap();
    assert_eq!(resolved.watch_dir, Some("/watch".to_string()));
    assert!(resolved.watch_dir_enabled);

    let both = RawOptions::empty().with_incomplete_dir("/part".to_string()).with_no_incomplete_dir();
    let resolved = resolve(fresh(), both).unwrap();
    assert_eq!(resolved.incomplete_dir, Some("/part".to_string()));
    assert!(!resolved.incomplete_dir_enabled);

    let mut base = fresh();
    base.watch_dir = Some("/old".to_string());
    base.watch_dir_enabled = true;
    let resolved = resolve(base, RawOptions::empty().with_no_watch_dir()).unwrap();
    assert_eq!(resolved.watch_dir, Some("/old".to_string()));
    assert!(!resolved.watch_dir_enabled);
}

#[test]
fn a_seed_ratio_switches_the_limit_on() {
    let cli = RawOptions::empty().with_global_seedratio(Ratio { thousandths: 1250 });
    let resolved = resolve(fresh(), cli).unwrap();
    assert_eq!(resolved.ratio_limit, Ratio { thousandths: 1250 });
    assert!(resolved.ratio_limit_enabled);
    let mut base = fresh();
    base.ratio_limit_enabled = true;
    let resolved = resolve(base, RawOptions::empty().with_no_global_seedratio()).unwrap();
    assert!(!resolved.ratio_limit_enabled);
    assert_eq!(resolved.ratio_limit, Ratio { thousandths: 2000 });
}

#[test]
fn a_fresh_installation_runs_with_the_defaults_of_the_flags() {
    let resolved = resolve(fresh(), RawOptions::empty()).unwrap();
    assert_eq!(Some(resolved.rpc_port), Flag::Port.default_value());
    assert_eq!(Some(resolved.peer_port), Flag::Peerport.default_value());
    assert_eq!(Some(resolved.peer_limit_global), Flag::PeerlimitGlobal.default_value());
    assert_eq!(Some(resolved.peer_limit_per_torrent), Flag::PeerlimitTorrent.default_value());
    assert_eq!(
        resolved.rpc_whitelist,
        vec![
            IpAddress::V4(Ipv4Address::new(127, 0, 0, 1)),
            IpAddress::V6(Ipv6Address::new(0, 0, 0, 0, 0, 0, 0, 1)),
        ]
    );
}

#[test]
fn minutes_out_of_bounds_fail_after_merging() {
    let mut base = fresh();
    base.alt_speed_time_end = 1440;
    assert_eq!(
        resolve(base, RawOptions::empty()),
        Err(ResolveError::OutOfRange("alt_speed_time_end", 1440))
    );
    let mut base = fresh();
    base.alt_speed_time_begin = 2000;
    base.alt_speed_time_end = 3000;
    assert_eq!(
        resolve(base, RawOptions::empty().with_port(1)),
        Err(ResolveError::OutOfRange("alt_speed_time_begin", 2000))
    );
    let mut base = fresh();
    base.alt_speed_time_begin = 1439;
    assert!(resolve(base, RawOptions::empty()).is_ok());
}

#[test]
fn a_conflict_comes_before_a_number_out_of_bounds() {
    let mut base = fresh();
    base.alt_speed_time_begin = 5000;
    let cli = RawOptions::empty().with_auth().with_no_auth();
    assert_eq!(resolve(base, cli), Err(ResolveError::ConflictingFlags("auth")));
}
