use daemon_config::document::{read_document, write_document, Field};
use daemon_config::schema::{field, schema, FIELD_COUNT};
use daemon_config::value::{read_value, write_value, Fault, Kind, Value};
use daemon_config::{
    deserialize, from_text, serialize, to_text, EncryptionMode, IpAddress, Ipv4Address,
    Ipv6Address, LogLevel, PreallocationMode, Ratio, SchemaError, SessionSettings,
};

const FRESH: &str = "\
blocklist_enabled = true\n\
blocklist_url = \"http://www.example.com/blocklist\"\n\
cache_size_mb = 4\n\
dht_enabled = true\n\
utp_enabled = true\n\
ltp_enabled = false\n\
download_dir = \"/var/lib/downloads\"\n\
speed_limit_down = 100\n\
speed_limit_down_enabled = false\n\
encryption = \"EncryptionPreferred\"\n\
idle_seeding_limit = 30\n\
idle_seeding_limit_enabled = false\n\
incomplete_dir_enabled = false\n\
message_level = \"Info\"\n\
download_queue_size = 5\n\
download_queue_enabled = true\n\
peer_limit_global = 200\n\
peer_limit_per_torrent = 50\n\
peer_port = 51413\n\
peer_port_random_on_start = false\n\
peer_port_random_low = 49152\n\
peer_port_random_high = 65535\n\
peer_socket_tos = \"default\"\n\
pex_enabled = true\n\
port_forwarding_enabled = true\n\
preallocation = \"Sparse\"\n\
prefetch_enabled = true\n\
peer_id_ttl_hours = 6\n\
queue_stalled_enabled = true\n\
queue_stalled_minutes = 30\n\
ratio_limit = 2.000\n\
ratio_limit_enabled = false\n\
rename_partial_files = true\n\
rpc_authentication_required = false\n\
rpc_bind_enabled_address = \"0.0.0.0\"\n\
rpc_enabled = false\n\
rpc_password = \"\"\n\
rpc_username = \"\"\n\
rpc_whitelist = [\"127.0.0.1\",\"0:0:0:0:0:0:0:1\"]\n\
rpc_whitelist_enabled = true\n\
rpc_host_whitelist = [\"\"]\n\
rpc_host_whitelist_enabled = true\n\
rpc_port = 9091\n\
rpc_url = \"\"\n\
scrape_paused_torrents_enabled = true\n\
script_torrent_done_filename = \"\"\n\
script_torrent_done_enabled = false\n\
seed_queue_size = 10\n\
seed_queue_enabled = false\n\
alt_speed_enabled = false\n\
alt_speed_up = 50\n\
alt_speed_down = 50\n\
alt_speed_time_begin = 540\n\
alt_speed_time_enabled = false\n\
alt_speed_time_end = 1020\n\
alt_speed_time_day = 0\n\
speed_limit_up = 100\n\
speed_limit_up_enabled = false\n\
umask = 22\n\
upload_slots_per_torrent = 14\n\
bind_address_ipv4 = \"0.0.0.0\"\n\
bind_address_ipv6 = \"0:0:0:0:0:0:0:0\"\n\
start_added_torrents = true\n\
trash_original_torrent_files = false\n\
watch_dir_enabled = false\n\
";

fn fresh() -> SessionSettings {
    SessionSettings::with_platform(
        Some("/var/lib/downloads".to_string()),
        None,
        "http://www.example.com/blocklist".to_string(),
    )
}

fn with_line(name: &str, line: &str) -> String {
    let mut found = false;
    let mut out = String::new();
    for old in FRESH.lines() {
        if old.starts_with(&format!("{} = ", name)) {
            found = true;
            if !line.is_empty() {
                out.push_str(line);
                out.push('\n');
            }
        } else {
            out.push_str(old);
            out.push('\n');
        }
    }
    assert!(found, "{}", name);
    out
}

fn chars(text: &str) -> Vec<char> {
    text.chars().collect()
}

fn written(value: &Value) -> String {
    let mut out = Vec::new();
    write_value(&mut out, value);
    out.into_iter().collect()
}

#[test]
fn the_document_of_fresh_settings() {
    assert_eq!(to_text(&fresh()), FRESH);
    assert_eq!(serialize(&fresh()), FRESH.as_bytes());
}

#[test]
fn the_document_of_fresh_settings_reads_back() {
    assert_eq!(from_text(FRESH), Ok(fresh()));
    assert_eq!(deserialize(FRESH.as_bytes()), Ok(fresh()));
}

#[test]
fn settings_read_back_from_their_document() {
    let mut settings = fresh();
    settings.blocklist_enabled = false;
    settings.blocklist_url = "https://lists.example.org/level1.gz?x=1&y=%22".to_string();
    settings.cache_size_mb = 65535;
    settings.download_dir = Some("C:\\Users\\anna\\\"My\" downloads\n".to_string());
    settings.encryption = EncryptionMode::ClearPreferred;
    settings.incomplete_dir = Some(String::new());
    settings.message_level = LogLevel::Firehose;
    settings.download_queue_size = u32::MAX;
    settings.peer_socket_tos = " = # \"lowdelay\" ".to_string();
    settings.preallocation = PreallocationMode::Off;
    settings.ratio_limit = Ratio { thousandths: 1 };
    settings.rpc_bind_enabled_address = IpAddress::V6(Ipv6Address::new(0xfe80, 0, 0, 0, 0, 0, 0, 0x1234));
    settings.rpc_password = "{7f3a}\\n\\".to_string();
    settings.rpc_username = "änna 😀".to_string();
    settings.rpc_whitelist = vec![];
    settings.rpc_host_whitelist = vec!["a,b".to_string(), "]".to_string(), "\"".to_string(), String::new()];
    settings.alt_speed_time_begin = 0;
    settings.alt_speed_time_end = 1439;
    settings.bind_address_ipv4 = Ipv4Address::new(192, 168, 1, 255);
    settings.bind_address_ipv6 = Ipv6Address::new(1, 2, 3, 4, 5, 6, 7, 8);
    settings.watch_dir = Some("/watch".to_string());
    settings.watch_dir_enabled = true;
    let text = to_text(&settings);
    assert_eq!(from_text(&text), Ok(settings.clone()));
    assert_eq!(deserialize(&serialize(&settings)), Ok(settings));
}

#[test]
fn fresh_settings_of_this_machine_read_back() {
    let settings = SessionSettings::default(None, Some("/home/anna/Downloads".to_string()));
    assert_eq!(deserialize(&serialize(&settings)), Ok(settings));
}

#[test]
fn persisted_encryption_is_read() {
    let text = with_line("encryption", "encryption = \"EncryptionRequired\"");
    let settings = from_text(&text).unwrap();
    assert_eq!(settings.encryption, EncryptionMode::EncryptionRequired);
}

#[test]
fn unknown_variants_are_rejected() {
    assert_eq!(
        from_text(&with_line("encryption", "encryption = \"Rot13\"")),
        Err(SchemaError::UnknownVariant("encryption", "Rot13".to_string()))
    );
    assert_eq!(
        from_text(&with_line("message_level", "message_level = \"error\"")),
        Err(SchemaError::UnknownVariant("message_level", "error".to_string()))
    );
    assert_eq!(
        from_text(&with_line("preallocation", "preallocation = \"\"")),
        Err(SchemaError::UnknownVariant("preallocation", String::new()))
    );
    assert_eq!(
        from_text(&with_line("preallocation", "preallocation = Sparse")),
        Err(SchemaError::InvalidValue("preallocation", "Sparse".to_string()))
    );
}

#[test]
fn every_variant_has_its_name() {
    let cases = [
        ("encryption = \"ClearPreferred\"", 0),
        ("encryption = \"EncryptionPreferred\"", 1),
        ("encryption = \"EncryptionRequired\"", 2),
    ];
    let modes = [
        EncryptionMode::ClearPreferred,
        EncryptionMode::EncryptionPreferred,
        EncryptionMode::EncryptionRequired,
    ];
    for (line, at) in cases {
        assert_eq!(from_text(&with_line("encryption", line)).unwrap().encryption, modes[at]);
    }
    let levels = [
        ("Error", LogLevel::Error),
        ("Info", LogLevel::Info),
        ("Debug", LogLevel::Debug),
        ("Firehose", LogLevel::Firehose),
    ];
    for (name, level) in levels {
        let line = format!("message_level = \"{}\"", name);
        assert_eq!(from_text(&with_line("message_level", &line)).unwrap().message_level, level);
        assert_eq!(written(&Value::Level(level)), format!("\"{}\"", name));
    }
    let modes = [
        ("None", PreallocationMode::Off),
        ("Sparse", PreallocationMode::Sparse),
        ("Full", PreallocationMode::Full),
    ];
    for (name, mode) in modes {
        let line = format!("preallocation = \"{}\"", name);
        assert_eq!(from_text(&with_line("preallocation", &line)).unwrap().preallocation, mode);
        assert_eq!(written(&Value::Preallocation(mode)), format!("\"{}\"", name));
    }
    assert!(LogLevel::Error.verbosity() < LogLevel::Info.verbosity());
    assert!(LogLevel::Info.verbosity() < LogLevel::Debug.verbosity());
    assert!(LogLevel::Debug.verbosity() < LogLevel::Firehose.verbosity());
}

#[test]
fn ports_out_of_range_are_rejected() {
    assert_eq!(
        from_text(&with_line("rpc_port", "rpc_port = 65536")),
        Err(SchemaError::OutOfRange("rpc_port", "65536".to_string()))
    );
    assert_eq!(
        from_text(&with_line("rpc_port", "rpc_port = -1")),
        Err(SchemaError::OutOfRange("rpc_port", "-1".to_string()))
    );
    assert_eq!(
        from_text(&with_line("peer_port", "peer_port = 99999999999999999999")),
        Err(SchemaError::OutOfRange("peer_port", "99999999999999999999".to_string()))
    );
    assert_eq!(from_text(&with_line("rpc_port", "rpc_port = 65535")).unwrap().rpc_port, 65535);
    assert_eq!(from_text(&with_line("rpc_port", "rpc_port = 0")).unwrap().rpc_port, 0);
}

#[test]
fn minutes_of_the_day_are_bounded() {
    assert_eq!(
        from_text(&with_line("alt_speed_time_begin", "alt_speed_time_begin = 1440")),
        Err(SchemaError::OutOfRange("alt_speed_time_begin", "1440".to_string()))
    );
    assert_eq!(
        from_text(&with_line("alt_speed_time_end", "alt_speed_time_end = 1439"))
            .unwrap()
            .alt_speed_time_end,
        1439
    );
}

#[test]
fn ratios_are_not_negative() {
    assert_eq!(
        from_text(&with_line("ratio_limit", "ratio_limit = -0.5")),
        Err(SchemaError::OutOfRange("ratio_limit", "-0.5".to_string()))
    );
    assert_eq!(
        from_text(&with_line("ratio_limit", "ratio_limit = 5000000")),
        Err(SchemaError::OutOfRange("ratio_limit", "5000000".to_string()))
    );
    assert_eq!(
        from_text(&with_line("ratio_limit", "ratio_limit = high")),
        Err(SchemaError::InvalidValue("ratio_limit", "high".to_string()))
    );
    assert_eq!(
        from_text(&with_line("ratio_limit", "ratio_limit = 0.75")).unwrap().ratio_limit,
        Ratio { thousandths: 750 }
    );
}

#[test]
fn missing_fields_are_rejected_but_paths() {
    assert_eq!(
        from_text(&with_line("rpc_port", "")),
        Err(SchemaError::MissingField("rpc_port"))
    );
    assert_eq!(
        from_text(&with_line("blocklist_enabled", "")),
        Err(SchemaError::MissingField("blocklist_enabled"))
    );
    assert_eq!(from_text(""), Err(SchemaError::MissingField("blocklist_enabled")));
    let settings = from_text(&with_line("download_dir", "")).unwrap();
    assert_eq!(settings.download_dir, None);
    assert_eq!(settings.incomplete_dir, None);
    assert_eq!(settings.watch_dir, None);
}

#[test]
fn the_first_field_at_fault_is_reported() {
    let text = with_line("rpc_port", "rpc_port = 70000");
    let text = text.replace("cache_size_mb = 4\n", "cache_size_mb = four\n");
    assert_eq!(
        from_text(&text),
        Err(SchemaError::InvalidValue("cache_size_mb", "four".to_string()))
    );
    let text = with_line("umask", "").replace("rpc_enabled = false\n", "rpc_enabled = no\n");
    assert_eq!(from_text(&text), Err(SchemaError::InvalidValue("rpc_enabled", "no".to_string())));
}

#[test]
fn unknown_fields_are_passed_over() {
    let text = format!("future_setting = [1, 2]\n{}another = \"x\"\n", FRESH);
    assert_eq!(from_text(&text), Ok(fresh()));
}

#[test]
fn blank_lines_comments_and_white_space_are_passed_over() {
    let text = FRESH
        .replace("rpc_port = 9091\n", "\n# the port\n   \t\n  rpc_port=9091  \r\n")
        .replace("dht_enabled = true\n", "dht_enabled\t=\ttrue\n#dht_enabled = false\n");
    assert_eq!(from_text(&text), Ok(fresh()));
    let unterminated = FRESH.trim_end();
    assert_eq!(from_text(unterminated), Ok(fresh()));
}

#[test]
fn the_last_line_of_a_name_counts() {
    let text = format!("{}rpc_port = 1\nrpc_port = 2\n", FRESH);
    assert_eq!(from_text(&text).unwrap().rpc_port, 2);
}

#[test]
fn lines_that_are_no_entries_are_rejected() {
    let text = format!("{}this is no entry\n", FRESH);
    assert_eq!(from_text(&text), Err(SchemaError::Malformed("this is no entry".to_string())));
    let text = format!("  stray \nrpc_port = x\n{}", FRESH);
    assert_eq!(from_text(&text), Err(SchemaError::Malformed("  stray ".to_string())));
}

#[test]
fn bytes_that_are_no_text_are_rejected() {
    assert_eq!(deserialize(&[0x72, 0x70, 0xff, 0xfe]), Err(SchemaError::NotText));
    assert_eq!(deserialize(&[0xc3]), Err(SchemaError::NotText));
    let mut bytes = FRESH.as_bytes().to_vec();
    bytes.extend_from_slice("# gr\u{fc}\u{df}e\n".as_bytes());
    assert_eq!(deserialize(&bytes), Ok(fresh()));
}

#[test]
fn the_blocklist_url_is_kept_in_canonical_form() {
    let text = with_line("blocklist_url", "blocklist_url = \"HTTP://Lists.Example.ORG:80/a/../level1\"");
    assert_eq!(from_text(&text).unwrap().blocklist_url, "http://lists.example.org/level1");
    assert_eq!(
        from_text(&with_line("blocklist_url", "blocklist_url = \"no url\"")),
        Err(SchemaError::InvalidValue("blocklist_url", "\"no url\"".to_string()))
    );
    assert_eq!(
        from_text(&with_line("blocklist_url", "blocklist_url = http://example.com/")),
        Err(SchemaError::InvalidValue("blocklist_url", "http://example.com/".to_string()))
    );
}

#[test]
fn addresses_and_lists() {
    let text = with_line("rpc_whitelist", "rpc_whitelist = [\"10.0.0.1\",\"::ffff:1.2.3.4\",\"fe80::1\"]");
    assert_eq!(
        from_text(&text).unwrap().rpc_whitelist,
        vec![
            IpAddress::V4(Ipv4Address::new(10, 0, 0, 1)),
            IpAddress::V6(Ipv6Address::new(0, 0, 0, 0, 0, 0xffff, 0x0102, 0x0304)),
            IpAddress::V6(Ipv6Address::new(0xfe80, 0, 0, 0, 0, 0, 0, 1)),
        ]
    );
    assert_eq!(from_text(&with_line("rpc_whitelist", "rpc_whitelist = []")).unwrap().rpc_whitelist, vec![]);
    for bad in ["[\"10.0.0.1\", \"::1\"]", "[\"10.0.0.1\",]", "[\"10.0.0\"]", "[10.0.0.1]", "\"10.0.0.1\"", "[", "[\"::1\"", "[\"::1\"]]", "[ ]"] {
        let line = format!("rpc_whitelist = {}", bad);
        assert_eq!(
            from_text(&with_line("rpc_whitelist", &line)),
            Err(SchemaError::InvalidValue("rpc_whitelist", bad.to_string())),
            "{}",
            bad
        );
    }
    let text = with_line("rpc_host_whitelist", "rpc_host_whitelist = [\"a.example\",\"b,c\",\"\\\"\"]");
    assert_eq!(
        from_text(&text).unwrap().rpc_host_whitelist,
        vec!["a.example".to_string(), "b,c".to_string(), "\"".to_string()]
    );
    assert_eq!(
        from_text(&with_line("bind_address_ipv4", "bind_address_ipv4 = \"::1\"")),
        Err(SchemaError::InvalidValue("bind_address_ipv4", "\"::1\"".to_string()))
    );
    assert_eq!(
        from_text(&with_line("bind_address_ipv6", "bind_address_ipv6 = \"1.2.3.4\"")),
        Err(SchemaError::InvalidValue("bind_address_ipv6", "\"1.2.3.4\"".to_string()))
    );
    assert_eq!(
        from_text(&with_line("rpc_bind_enabled_address", "rpc_bind_enabled_address = \" 1.2.3.4\"")),
        Err(SchemaError::InvalidValue("rpc_bind_enabled_address", "\" 1.2.3.4\"".to_string()))
    );
}

#[test]
fn values_by_kind() {
    assert_eq!(read_value(Kind::Flag, &chars("true")), Ok(Value::Flag(true)));
    assert_eq!(read_value(Kind::Flag, &chars("false")), Ok(Value::Flag(false)));
    assert_eq!(read_value(Kind::Flag, &chars("True")), Err(Fault::Invalid));
    assert_eq!(read_value(Kind::Count(9), &chars("9")), Ok(Value::Count(9)));
    assert_eq!(read_value(Kind::Count(9), &chars("10")), Err(Fault::OutOfRange));
    assert_eq!(read_value(Kind::Count(9), &chars("-")), Err(Fault::Invalid));
    assert_eq!(read_value(Kind::Count(9), &chars("-x")), Err(Fault::Invalid));
    assert_eq!(read_value(Kind::Count(9), &chars("-0")), Err(Fault::OutOfRange));
    assert_eq!(read_value(Kind::Text, &chars("\"a b\"")), Ok(Value::Text("a b".to_string())));
    assert_eq!(read_value(Kind::Text, &chars("a b")), Err(Fault::Invalid));
    assert_eq!(read_value(Kind::Path, &chars("\"/x\"")), Ok(Value::Path(Some("/x".to_string()))));
    assert_eq!(written(&Value::Flag(true)), "true");
    assert_eq!(written(&Value::Flag(false)), "false");
    assert_eq!(written(&Value::Count(1020)), "1020");
    assert_eq!(written(&Value::Text("a\"b".to_string())), "\"a\\\"b\"");
    assert_eq!(written(&Value::Path(None)), "");
    assert_eq!(written(&Value::Ratio(Ratio { thousandths: 2000 })), "2.000");
    assert_eq!(written(&Value::Address4(Ipv4Address::new(1, 2, 3, 4))), "\"1.2.3.4\"");
    assert_eq!(written(&Value::Addresses(vec![])), "[]");
    assert_eq!(written(&Value::Texts(vec!["a".to_string(), "b".to_string()])), "[\"a\",\"b\"]");
    assert_eq!(written(&Value::Encryption(EncryptionMode::EncryptionRequired)), "\"EncryptionRequired\"");
}

#[test]
fn documents_of_other_schemas() {
    let fields = vec![
        Field { name: "name", kind: Kind::Text },
        Field { name: "home", kind: Kind::Path },
        Field { name: "age", kind: Kind::Count(150) },
    ];
    let values = vec![Value::Text("anna".to_string()), Value::Path(None), Value::Count(33)];
    let text = write_document(&fields, &values);
    assert_eq!(text, "name = \"anna\"\nage = 33\n");
    assert_eq!(read_document(&text, &fields), Ok(values));
    assert_eq!(
        read_document("age = 151\nname = \"x\"\n", &fields),
        Err(SchemaError::OutOfRange("age", "151".to_string()))
    );
    assert_eq!(read_document("", &vec![]), Ok(vec![]));
}

#[test]
fn the_schema_lists_the_fields_in_their_order() {
    let fields = schema();
    assert_eq!(fields.len(), FIELD_COUNT);
    assert_eq!(FIELD_COUNT, 67);
    assert_eq!(fields[0], Field { name: "blocklist_enabled", kind: Kind::Flag });
    assert_eq!(fields[1], Field { name: "blocklist_url", kind: Kind::Url });
    assert_eq!(field(53), Field { name: "alt_speed_time_begin", kind: Kind::Count(1439) });
    assert_eq!(fields[66], Field { name: "watch_dir_enabled", kind: Kind::Flag });
    let names: Vec<&str> = FRESH.lines().map(|line| line.split(" = ").next().unwrap()).collect();
    let written: Vec<&str> = fields
        .iter()
        .map(|field| field.name)
        .filter(|name| *name != "incomplete_dir" && *name != "watch_dir")
        .collect();
    assert_eq!(names, written);
    for (at, one) in fields.iter().enumerate() {
        for other in &fields[at + 1..] {
            assert_ne!(one.name, other.name);
        }
    }
    let values = fresh().to_values();
    assert_eq!(values.len(), FIELD_COUNT);
    assert_eq!(SessionSettings::from_values(&values), fresh());
}
