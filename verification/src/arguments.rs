//! Reading the command line: what each flag and its value add to the options,
//! and how the arguments are walked.

use crate::address::{
    ip_of, ipv4_of, ipv6_of, parse_ip, parse_ipv4, parse_ipv6, IpAddress, Ipv4Address, Ipv6Address,
};
use crate::flags::{find_flag, flag_named, Flag};
use crate::number::{
    all_digits, is_digit, read_number, read_thousandths, reading_of, thousandths_of, value_of,
    Reading,
};
use crate::options::{outcome_view, OptionsView, ParseError, ParseErrorView, RawOptions};
use crate::session::Ratio;
use crate::text::{
    chars_of, find_char, piece, position, text_of, text_view, texts_view, trim, trimmed,
};
use vstd::prelude::*;

verus! {

/// The number that a value writes in decimal digits, after an optional `+`,
/// if it is at most `max`.
#[verifier::opaque]
pub open spec fn number_of(value: Seq<char>, max: nat) -> Option<u32> {
    let digits = if value.len() > 0 && value[0] == '+' {
        value.drop_first()
    } else {
        value
    };
    match reading_of(digits, 10, max) {
        Reading::Number(n) => Some(n),
        _ => None,
    }
}

/// The address of either family that a value writes, white space around it
/// aside.
#[verifier::opaque]
pub open spec fn address_of(value: Seq<char>) -> Option<IpAddress> {
    ip_of(trimmed(value))
}

/// The IPv4 address that a value writes, white space around it aside.
#[verifier::opaque]
pub open spec fn ipv4_address_of(value: Seq<char>) -> Option<Ipv4Address> {
    ipv4_of(trimmed(value))
}

/// The IPv6 address that a value writes, white space around it aside.
#[verifier::opaque]
pub open spec fn ipv6_address_of(value: Seq<char>) -> Option<Ipv6Address> {
    ipv6_of(trimmed(value))
}

/// The ratio that a value writes, if it writes one.
#[verifier::opaque]
pub open spec fn ratio_of(value: Seq<char>) -> Option<Ratio> {
    match thousandths_of(value) {
        Reading::Number(n) => Some(Ratio { thousandths: n }),
        _ => None,
    }
}

/// The options `seen` after a flag that takes no value.
#[verifier::opaque]
pub open spec fn given_switch(seen: OptionsView, flag: Flag) -> Result<
    OptionsView,
    ParseErrorView,
> {
    match flag {
        Flag::Blocklist => if seen.blocklist {
            Err(ParseErrorView::RepeatedFlag("blocklist"))
        } else {
            Ok(OptionsView { blocklist: true, ..seen })
        },
        Flag::NoBlocklist => if seen.no_blocklist {
            Err(ParseErrorView::RepeatedFlag("no_blocklist"))
        } else {
            Ok(OptionsView { no_blocklist: true, ..seen })
        },
        Flag::NoWatchDir => if seen.no_watch_dir {
            Err(ParseErrorView::RepeatedFlag("no_watch_dir"))
        } else {
            Ok(OptionsView { no_watch_dir: true, ..seen })
        },
        Flag::NoIncompleteDir => if seen.no_incomplete_dir {
            Err(ParseErrorView::RepeatedFlag("no_incomplete_dir"))
        } else {
            Ok(OptionsView { no_incomplete_dir: true, ..seen })
        },
        Flag::DumpSettings => if seen.dump_settings {
            Err(ParseErrorView::RepeatedFlag("dump_settings"))
        } else {
            Ok(OptionsView { dump_settings: true, ..seen })
        },
        Flag::Foreground => if seen.foreground {
            Err(ParseErrorView::RepeatedFlag("foreground"))
        } else {
            Ok(OptionsView { foreground: true, ..seen })
        },
        Flag::Auth => if seen.auth {
            Err(ParseErrorView::RepeatedFlag("auth"))
        } else {
            Ok(OptionsView { auth: true, ..seen })
        },
        Flag::NoAuth => if seen.no_auth {
            Err(ParseErrorView::RepeatedFlag("no_auth"))
        } else {
            Ok(OptionsView { no_auth: true, ..seen })
        },
        Flag::LogError => if seen.log_error {
            Err(ParseErrorView::RepeatedFlag("log_error"))
        } else {
            Ok(OptionsView { log_error: true, ..seen })
        },
        Flag::LogInfo => if seen.log_info {
            Err(ParseErrorView::RepeatedFlag("log_info"))
        } else {
            Ok(OptionsView { log_info: true, ..seen })
        },
        Flag::LogDebug => if seen.log_debug {
            Err(ParseErrorView::RepeatedFlag("log_debug"))
        } else {
            Ok(OptionsView { log_debug: true, ..seen })
        },
        Flag::Paused => if seen.paused {
            Err(ParseErrorView::RepeatedFlag("paused"))
        } else {
            Ok(OptionsView { paused: true, ..seen })
        },
        Flag::Dht => if seen.dht {
            Err(ParseErrorView::RepeatedFlag("dht"))
        } else {
            Ok(OptionsView { dht: true, ..seen })
        },
        Flag::NoDht => if seen.no_dht {
            Err(ParseErrorView::RepeatedFlag("no_dht"))
        } else {
            Ok(OptionsView { no_dht: true, ..seen })
        },
        Flag::Lpd => if seen.lpd {
            Err(ParseErrorView::RepeatedFlag("lpd"))
        } else {
            Ok(OptionsView { lpd: true, ..seen })
        },
        Flag::NoLpd => if seen.no_lpd {
            Err(ParseErrorView::RepeatedFlag("no_lpd"))
        } else {
            Ok(OptionsView { no_lpd: true, ..seen })
        },
        Flag::Utp => if seen.utp {
            Err(ParseErrorView::RepeatedFlag("utp"))
        } else {
            Ok(OptionsView { utp: true, ..seen })
        },
        Flag::NoUtp => if seen.no_utp {
            Err(ParseErrorView::RepeatedFlag("no_utp"))
        } else {
            Ok(OptionsView { no_utp: true, ..seen })
        },
        Flag::Portmap => if seen.portmap {
            Err(ParseErrorView::RepeatedFlag("portmap"))
        } else {
            Ok(OptionsView { portmap: true, ..seen })
        },
        Flag::NoPortmap => if seen.no_portmap {
            Err(ParseErrorView::RepeatedFlag("no_portmap"))
        } else {
            Ok(OptionsView { no_portmap: true, ..seen })
        },
        Flag::EncryptionRequired => if seen.encryption_required {
            Err(ParseErrorView::RepeatedFlag("encryption_required"))
        } else {
            Ok(OptionsView { encryption_required: true, ..seen })
        },
        Flag::EncryptionPreferred => if seen.encryption_preferred {
            Err(ParseErrorView::RepeatedFlag("encryption_preferred"))
        } else {
            Ok(OptionsView { encryption_preferred: true, ..seen })
        },
        Flag::EncryptionTolerated => if seen.encryption_tolerated {
            Err(ParseErrorView::RepeatedFlag("encryption_tolerated"))
        } else {
            Ok(OptionsView { encryption_tolerated: true, ..seen })
        },
        Flag::NoGlobalSeedratio => if seen.no_global_seedratio {
            Err(ParseErrorView::RepeatedFlag("no_global_seedratio"))
        } else {
            Ok(OptionsView { no_global_seedratio: true, ..seen })
        },
        _ => Ok(seen),
    }
}

/// The options `seen` after a flag with its value. `dir_exists` tells whether
/// the value of the configuration directory names an existing directory.
#[verifier::opaque]
pub open spec fn given_value(
    seen: OptionsView,
    flag: Flag,
    value: Seq<char>,
    dir_exists: bool,
) -> Result<OptionsView, ParseErrorView> {
    match flag {
        Flag::WatchDir
        | Flag::IncompleteDir
        | Flag::Logfile
        | Flag::ConfigDir
        | Flag::Username
        | Flag::Password
        | Flag::DownloadDir => given_text(seen, flag, value, dir_exists),
        Flag::Port
        | Flag::Peerport
        | Flag::PeerlimitGlobal
        | Flag::PeerlimitTorrent
        | Flag::GlobalSeedratio
        | Flag::PidFile => given_number(seen, flag, value),
        Flag::Allowed
        | Flag::BindAddressIpv4
        | Flag::BindAddressIpv6
        | Flag::RpcBindAddress => given_address(seen, flag, value),
        _ => Ok(seen),
    }
}

/// The options `seen` after a flag whose value is a text or a path.
pub open spec fn given_text(
    seen: OptionsView,
    flag: Flag,
    value: Seq<char>,
    dir_exists: bool,
) -> Result<OptionsView, ParseErrorView> {
    match flag {
        Flag::WatchDir => if seen.watch_dir is Some {
            Err(ParseErrorView::RepeatedFlag("watch_dir"))
        } else {
            Ok(OptionsView { watch_dir: Some(value), ..seen })
        },
        Flag::IncompleteDir => if seen.incomplete_dir is Some {
            Err(ParseErrorView::RepeatedFlag("incomplete_dir"))
        } else {
            Ok(OptionsView { incomplete_dir: Some(value), ..seen })
        },
        Flag::Logfile => if seen.logfile is Some {
            Err(ParseErrorView::RepeatedFlag("logfile"))
        } else {
            Ok(OptionsView { logfile: Some(value), ..seen })
        },
        Flag::ConfigDir => if seen.config_dir is Some {
            Err(ParseErrorView::RepeatedFlag("config_dir"))
        } else if dir_exists {
            Ok(OptionsView { config_dir: Some(value), ..seen })
        } else {
            Err(ParseErrorView::InvalidPath("config_dir", value))
        },
        Flag::Username => if seen.username is Some {
            Err(ParseErrorView::RepeatedFlag("username"))
        } else {
            Ok(OptionsView { username: Some(value), ..seen })
        },
        Flag::Password => if seen.password is Some {
            Err(ParseErrorView::RepeatedFlag("password"))
        } else {
            Ok(OptionsView { password: Some(value), ..seen })
        },
        Flag::DownloadDir => if seen.download_dir is Some {
            Err(ParseErrorView::RepeatedFlag("download_dir"))
        } else {
            Ok(OptionsView { download_dir: Some(value), ..seen })
        },
        _ => Ok(seen),
    }
}

/// The options `seen` after a flag whose value is a number.
pub open spec fn given_number(
    seen: OptionsView,
    flag: Flag,
    value: Seq<char>,
) -> Result<OptionsView, ParseErrorView> {
    match flag {
        Flag::Port => if seen.port is Some {
            Err(ParseErrorView::RepeatedFlag("port"))
        } else {
            match number_of(value, 0xffff) {
                Some(n) => Ok(OptionsView { port: Some(n as u16), ..seen }),
                None => Err(ParseErrorView::InvalidNumber("port", value)),
            }
        },
        Flag::Peerport => if seen.peerport is Some {
            Err(ParseErrorView::RepeatedFlag("peerport"))
        } else {
            match number_of(value, 0xffff) {
                Some(n) => Ok(OptionsView { peerport: Some(n as u16), ..seen }),
                None => Err(ParseErrorView::InvalidNumber("peerport", value)),
            }
        },
        Flag::PeerlimitGlobal => if seen.peerlimit_global is Some {
            Err(ParseErrorView::RepeatedFlag("peerlimit_global"))
        } else {
            match number_of(value, 0xffff) {
                Some(n) => Ok(OptionsView { peerlimit_global: Some(n as u16), ..seen }),
                None => Err(ParseErrorView::InvalidNumber("peerlimit_global", value)),
            }
        },
        Flag::PeerlimitTorrent => if seen.peerlimit_torrent is Some {
            Err(ParseErrorView::RepeatedFlag("peerlimit_torrent"))
        } else {
            match number_of(value, 0xffff) {
                Some(n) => Ok(OptionsView { peerlimit_torrent: Some(n as u16), ..seen }),
                None => Err(ParseErrorView::InvalidNumber("peerlimit_torrent", value)),
            }
        },
        Flag::GlobalSeedratio => if seen.global_seedratio is Some {
            Err(ParseErrorView::RepeatedFlag("global_seedratio"))
        } else {
            match ratio_of(value) {
                Some(ratio) => Ok(OptionsView { global_seedratio: Some(ratio), ..seen }),
                None => Err(ParseErrorView::InvalidNumber("global_seedratio", value)),
            }
        },
        Flag::PidFile => if seen.pid_file is Some {
            Err(ParseErrorView::RepeatedFlag("pid_file"))
        } else {
            match number_of(value, 0xffff_ffff) {
                Some(n) => Ok(OptionsView { pid_file: Some(n), ..seen }),
                None => Err(ParseErrorView::InvalidNumber("pid_file", value)),
            }
        },
        _ => Ok(seen),
    }
}

/// The options `seen` after a flag whose value is an address.
pub open spec fn given_address(
    seen: OptionsView,
    flag: Flag,
    value: Seq<char>,
) -> Result<OptionsView, ParseErrorView> {
    match flag {
        Flag::Allowed => match address_of(value) {
            Some(address) => Ok(OptionsView { allowed: seen.allowed.push(address), ..seen }),
            None => Err(ParseErrorView::InvalidAddress("allowed", value)),
        },
        Flag::BindAddressIpv4 => if seen.bind_address_ipv4 is Some {
            Err(ParseErrorView::RepeatedFlag("bind_address_ipv4"))
        } else {
            match ipv4_address_of(value) {
                Some(address) => Ok(OptionsView { bind_address_ipv4: Some(address), ..seen }),
                None => Err(ParseErrorView::InvalidAddress("bind_address_ipv4", value)),
            }
        },
        Flag::BindAddressIpv6 => if seen.bind_address_ipv6 is Some {
            Err(ParseErrorView::RepeatedFlag("bind_address_ipv6"))
        } else {
            match ipv6_address_of(value) {
                Some(address) => Ok(OptionsView { bind_address_ipv6: Some(address), ..seen }),
                None => Err(ParseErrorView::InvalidAddress("bind_address_ipv6", value)),
            }
        },
        Flag::RpcBindAddress => if seen.rpc_bind_address is Some {
            Err(ParseErrorView::RepeatedFlag("rpc_bind_address"))
        } else {
            match address_of(value) {
                Some(address) => Ok(OptionsView { rpc_bind_address: Some(address), ..seen }),
                None => Err(ParseErrorView::InvalidAddress("rpc_bind_address", value)),
            }
        },
        _ => Ok(seen),
    }
}

/// Computes [`number_of`].
pub fn parse_number(value: &str, max: u32) -> (number: Option<u32>)
    ensures
        number == number_of(value@, max as nat),
{
    reveal(number_of);
    let chars = chars_of(value);
    let digits = if chars.len() > 0 && chars[0] == '+' {
        piece(&chars, 1, chars.len())
    } else {
        chars
    };
    match read_number(&digits, 10, max) {
        Reading::Number(n) => Some(n),
        _ => None,
    }
}

/// Computes [`ratio_of`].
pub fn parse_ratio(value: &str) -> (ratio: Option<Ratio>)
    ensures
        ratio == ratio_of(value@),
{
    reveal(ratio_of);
    let chars = chars_of(value);
    match read_thousandths(&chars) {
        Reading::Number(n) => Some(Ratio { thousandths: n }),
        _ => None,
    }
}

/// Reads an address of either family, white space around it aside.
pub fn parse_ip_addr(src: &str) -> (address: Option<IpAddress>)
    ensures
        address == address_of(src@),
{
    reveal(address_of);
    parse_ip(&trim(&chars_of(src)))
}

/// Reads an IPv4 address, white space around it aside.
pub fn parse_ipv4_addr(src: &str) -> (address: Option<Ipv4Address>)
    ensures
        address == ipv4_address_of(src@),
{
    reveal(ipv4_address_of);
    parse_ipv4(&trim(&chars_of(src)))
}

/// Reads an IPv6 address, white space around it aside.
pub fn parse_ipv6_addr(src: &str) -> (address: Option<Ipv6Address>)
    ensures
        address == ipv6_address_of(src@),
{
    reveal(ipv6_address_of);
    parse_ipv6(&trim(&chars_of(src)))
}

/// Accepts `src` as the path of a directory where it names an existing one.
///
/// `is_dir` tells what the file system holds at `src`: a directory, or
/// nothing or something else.
pub fn check_dir_exists(src: String, is_dir: bool) -> (checked: Result<String, ParseError>)
    ensures
        is_dir ==> checked == Ok::<String, ParseError>(src),
        !is_dir ==> checked == Err::<String, ParseError>(
            ParseError::InvalidPath("config_dir", src),
        ),
{
    if is_dir {
        Ok(src)
    } else {
        Err(ParseError::InvalidPath("config_dir", src))
    }
}

/// Computes [`given_switch`].
pub fn set_switch(seen: RawOptions, flag: Flag) -> (outcome: Result<RawOptions, ParseError>)
    ensures
        outcome_view(outcome) == given_switch(seen@, flag),
{
    reveal(given_switch);
    match flag {
        Flag::Blocklist => if seen.blocklist {
            Err(ParseError::RepeatedFlag("blocklist"))
        } else {
            Ok(seen.with_blocklist())
        },
        Flag::NoBlocklist => if seen.no_blocklist {
            Err(ParseError::RepeatedFlag("no_blocklist"))
        } else {
            Ok(seen.with_no_blocklist())
        },
        Flag::NoWatchDir => if seen.no_watch_dir {
            Err(ParseError::RepeatedFlag("no_watch_dir"))
        } else {
            Ok(seen.with_no_watch_dir())
        },
        Flag::NoIncompleteDir => if seen.no_incomplete_dir {
            Err(ParseError::RepeatedFlag("no_incomplete_dir"))
        } else {
            Ok(seen.with_no_incomplete_dir())
        },
        Flag::DumpSettings => if seen.dump_settings {
            Err(ParseError::RepeatedFlag("dump_settings"))
        } else {
            Ok(seen.with_dump_settings())
        },
        Flag::Foreground => if seen.foreground {
            Err(ParseError::RepeatedFlag("foreground"))
        } else {
            Ok(seen.with_foreground())
        },
        Flag::Auth => if seen.auth {
            Err(ParseError::RepeatedFlag("auth"))
        } else {
            Ok(seen.with_auth())
        },
        Flag::NoAuth => if seen.no_auth {
            Err(ParseError::RepeatedFlag("no_auth"))
        } else {
            Ok(seen.with_no_auth())
        },
        Flag::LogError => if seen.log_error {
            Err(ParseError::RepeatedFlag("log_error"))
        } else {
            Ok(seen.with_log_error())
        },
        Flag::LogInfo => if seen.log_info {
            Err(ParseError::RepeatedFlag("log_info"))
        } else {
            Ok(seen.with_log_info())
        },
        Flag::LogDebug => if seen.log_debug {
            Err(ParseError::RepeatedFlag("log_debug"))
        } else {
            Ok(seen.with_log_debug())
        },
        Flag::Paused => if seen.paused {
            Err(ParseError::RepeatedFlag("paused"))
        } else {
            Ok(seen.with_paused())
        },
        Flag::Dht => if seen.dht {
            Err(ParseError::RepeatedFlag("dht"))
        } else {
            Ok(seen.with_dht())
        },
        Flag::NoDht => if seen.no_dht {
            Err(ParseError::RepeatedFlag("no_dht"))
        } else {
            Ok(seen.with_no_dht())
        },
        Flag::Lpd => if seen.lpd {
            Err(ParseError::RepeatedFlag("lpd"))
        } else {
            Ok(seen.with_lpd())
        },
        Flag::NoLpd => if seen.no_lpd {
            Err(ParseError::RepeatedFlag("no_lpd"))
        } else {
            Ok(seen.with_no_lpd())
        },
        Flag::Utp => if seen.utp {
            Err(ParseError::RepeatedFlag("utp"))
        } else {
            Ok(seen.with_utp())
        },
        Flag::NoUtp => if seen.no_utp {
            Err(ParseError::RepeatedFlag("no_utp"))
        } else {
            Ok(seen.with_no_utp())
        },
        Flag::Portmap => if seen.portmap {
            Err(ParseError::RepeatedFlag("portmap"))
        } else {
            Ok(seen.with_portmap())
        },
        Flag::NoPortmap => if seen.no_portmap {
            Err(ParseError::RepeatedFlag("no_portmap"))
        } else {
            Ok(seen.with_no_portmap())
        },
        Flag::EncryptionRequired => if seen.encryption_required {
            Err(ParseError::RepeatedFlag("encryption_required"))
        } else {
            Ok(seen.with_encryption_required())
        },
        Flag::EncryptionPreferred => if seen.encryption_preferred {
            Err(ParseError::RepeatedFlag("encryption_preferred"))
        } else {
            Ok(seen.with_encryption_preferred())
        },
        Flag::EncryptionTolerated => if seen.encryption_tolerated {
            Err(ParseError::RepeatedFlag("encryption_tolerated"))
        } else {
            Ok(seen.with_encryption_tolerated())
        },
        Flag::NoGlobalSeedratio => if seen.no_global_seedratio {
            Err(ParseError::RepeatedFlag("no_global_seedratio"))
        } else {
            Ok(seen.with_no_global_seedratio())
        },
        _ => Ok(seen),
    }
}

/// Computes [`given_value`] for the flag `allowed`.
fn take_allowed(seen: RawOptions, value: String, dir_exists: bool) -> (outcome: Result<
    RawOptions,
    ParseError,
>)
    ensures
        outcome_view(outcome) == given_value(seen@, Flag::Allowed, value@, dir_exists),
{
    reveal(given_value);
    match parse_ip_addr(value.as_str()) {
        Some(address) => Ok(seen.with_allowed(address)),
        None => Err(ParseError::InvalidAddress("allowed", value)),
    }
}

/// Computes [`given_value`] for the flag `watch_dir`.
fn take_watch_dir(seen: RawOptions, value: String, dir_exists: bool) -> (outcome: Result<
    RawOptions,
    ParseError,
>)
    ensures
        outcome_view(outcome) == given_value(seen@, Flag::WatchDir, value@, dir_exists),
{
    reveal(given_value);
    if seen.watch_dir.is_some() {
        Err(ParseError::RepeatedFlag("watch_dir"))
    } else {
        Ok(seen.with_watch_dir(value))
    }
}

/// Computes [`given_value`] for the flag `incomplete_dir`.
fn take_incomplete_dir(seen: RawOptions, value: String, dir_exists: bool) -> (outcome: Result<
    RawOptions,
    ParseError,
>)
    ensures
        outcome_view(outcome) == given_value(seen@, Flag::IncompleteDir, value@, dir_exists),
{
    reveal(given_value);
    if seen.incomplete_dir.is_some() {
        Err(ParseError::RepeatedFlag("incomplete_dir"))
    } else {
        Ok(seen.with_incomplete_dir(value))
    }
}

/// Computes [`given_value`] for the flag `logfile`.
fn take_logfile(seen: RawOptions, value: String, dir_exists: bool) -> (outcome: Result<
    RawOptions,
    ParseError,
>)
    ensures
        outcome_view(outcome) == given_value(seen@, Flag::Logfile, value@, dir_exists),
{
    reveal(given_value);
    if seen.logfile.is_some() {
        Err(ParseError::RepeatedFlag("logfile"))
    } else {
        Ok(seen.with_logfile(value))
    }
}

/// Computes [`given_value`] for the flag `config_dir`.
fn take_config_dir(seen: RawOptions, value: String, dir_exists: bool) -> (outcome: Result<
    RawOptions,
    ParseError,
>)
    ensures
        outcome_view(outcome) == given_value(seen@, Flag::ConfigDir, value@, dir_exists),
{
    reveal(given_value);
    if seen.config_dir.is_some() {
        Err(ParseError::RepeatedFlag("config_dir"))
    } else {
        match check_dir_exists(value, dir_exists) {
            Ok(path) => Ok(seen.with_config_dir(path)),
            Err(error) => Err(error),
        }
    }
}

/// Computes [`given_value`] for the flag `port`.
fn take_port(seen: RawOptions, value: String, dir_exists: bool) -> (outcome: Result<
    RawOptions,
    ParseError,
>)
    ensures
        outcome_view(outcome) == given_value(seen@, Flag::Port, value@, dir_exists),
{
    reveal(given_value);
    if seen.port.is_some() {
        Err(ParseError::RepeatedFlag("port"))
    } else {
        match parse_number(value.as_str(), 0xffff) {
            Some(n) => Ok(seen.with_port(n as u16)),
            None => Err(ParseError::InvalidNumber("port", value)),
        }
    }
}

/// Computes [`given_value`] for the flag `username`.
fn take_username(seen: RawOptions, value: String, dir_exists: bool) -> (outcome: Result<
    RawOptions,
    ParseError,
>)
    ensures
        outcome_view(outcome) == given_value(seen@, Flag::Username, value@, dir_exists),
{
    reveal(given_value);
    if seen.username.is_some() {
        Err(ParseError::RepeatedFlag("username"))
    } else {
        Ok(seen.with_username(value))
    }
}

/// Computes [`given_value`] for the flag `password`.
fn take_password(seen: RawOptions, value: String, dir_exists: bool) -> (outcome: Result<
    RawOptions,
    ParseError,
>)
    ensures
        outcome_view(outcome) == given_value(seen@, Flag::Password, value@, dir_exists),
{
    reveal(given_value);
    if seen.password.is_some() {
        Err(ParseError::RepeatedFlag("password"))
    } else {
        Ok(seen.with_password(value))
    }
}

/// Computes [`given_value`] for the flag `download_dir`.
fn take_download_dir(seen: RawOptions, value: String, dir_exists: bool) -> (outcome: Result<
    RawOptions,
    ParseError,
>)
    ensures
        outcome_view(outcome) == given_value(seen@, Flag::DownloadDir, value@, dir_exists),
{
    reveal(given_value);
    if seen.download_dir.is_some() {
        Err(ParseError::RepeatedFlag("download_dir"))
    } else {
        Ok(seen.with_download_dir(value))
    }
}

/// Computes [`given_value`] for the flag `peerport`.
fn take_peerport(seen: RawOptions, value: String, dir_exists: bool) -> (outcome: Result<
    RawOptions,
    ParseError,
>)
    ensures
        outcome_view(outcome) == given_value(seen@, Flag::Peerport, value@, dir_exists),
{
    reveal(given_value);
    if seen.peerport.is_some() {
        Err(ParseError::RepeatedFlag("peerport"))
    } else {
        match parse_number(value.as_str(), 0xffff) {
            Some(n) => Ok(seen.with_peerport(n as u16)),
            None => Err(ParseError::InvalidNumber("peerport", value)),
        }
    }
}

/// Computes [`given_value`] for the flag `peerlimit_global`.
fn take_peerlimit_global(seen: RawOptions, value: String, dir_exists: bool) -> (outcome: Result<
    RawOptions,
    ParseError,
>)
    ensures
        outcome_view(outcome) == given_value(seen@, Flag::PeerlimitGlobal, value@, dir_exists),
{
    reveal(given_value);
    if seen.peerlimit_global.is_some() {
        Err(ParseError::RepeatedFlag("peerlimit_global"))
    } else {
        match parse_number(value.as_str(), 0xffff) {
            Some(n) => Ok(seen.with_peerlimit_global(n as u16)),
            None => Err(ParseError::InvalidNumber("peerlimit_global", value)),
        }
    }
}

/// Computes [`given_value`] for the flag `peerlimit_torrent`.
fn take_peerlimit_torrent(seen: RawOptions, value: String, dir_exists: bool) -> (outcome: Result<
    RawOptions,
    ParseError,
>)
    ensures
        outcome_view(outcome) == given_value(seen@, Flag::PeerlimitTorrent, value@, dir_exists),
{
    reveal(given_value);
    if seen.peerlimit_torrent.is_some() {
        Err(ParseError::RepeatedFlag("peerlimit_torrent"))
    } else {
        match parse_number(value.as_str(), 0xffff) {
            Some(n) => Ok(seen.with_peerlimit_torrent(n as u16)),
            None => Err(ParseError::InvalidNumber("peerlimit_torrent", value)),
        }
    }
}

/// Computes [`given_value`] for the flag `bind_address_ipv4`.
fn take_bind_address_ipv4(seen: RawOptions, value: String, dir_exists: bool) -> (outcome: Result<
    RawOptions,
    ParseError,
>)
    ensures
        outcome_view(outcome) == given_value(seen@, Flag::BindAddressIpv4, value@, dir_exists),
{
    reveal(given_value);
    if seen.bind_address_ipv4.is_some() {
        Err(ParseError::RepeatedFlag("bind_address_ipv4"))
    } else {
        match parse_ipv4_addr(value.as_str()) {
            Some(address) => Ok(seen.with_bind_address_ipv4(address)),
            None => Err(ParseError::InvalidAddress("bind_address_ipv4", value)),
        }
    }
}

/// Computes [`given_value`] for the flag `bind_address_ipv6`.
fn take_bind_address_ipv6(seen: RawOptions, value: String, dir_exists: bool) -> (outcome: Result<
    RawOptions,
    ParseError,
>)
    ensures
        outcome_view(outcome) == given_value(seen@, Flag::BindAddressIpv6, value@, dir_exists),
{
    reveal(given_value);
    if seen.bind_address_ipv6.is_some() {
        Err(ParseError::RepeatedFlag("bind_address_ipv6"))
    } else {
        match parse_ipv6_addr(value.as_str()) {
            Some(address) => Ok(seen.with_bind_address_ipv6(address)),
            None => Err(ParseError::InvalidAddress("bind_address_ipv6", value)),
        }
    }
}

/// Computes [`given_value`] for the flag `rpc_bind_address`.
fn take_rpc_bind_address(seen: RawOptions, value: String, dir_exists: bool) -> (outcome: Result<
    RawOptions,
    ParseError,
>)
    ensures
        outcome_view(outcome) == given_value(seen@, Flag::RpcBindAddress, value@, dir_exists),
{
    reveal(given_value);
    if seen.rpc_bind_address.is_some() {
        Err(ParseError::RepeatedFlag("rpc_bind_address"))
    } else {
        match parse_ip_addr(value.as_str()) {
            Some(address) => Ok(seen.with_rpc_bind_address(address)),
            None => Err(ParseError::InvalidAddress("rpc_bind_address", value)),
        }
    }
}

/// Computes [`given_value`] for the flag `global_seedratio`.
fn take_global_seedratio(seen: RawOptions, value: String, dir_exists: bool) -> (outcome: Result<
    RawOptions,
    ParseError,
>)
    ensures
        outcome_view(outcome) == given_value(seen@, Flag::GlobalSeedratio, value@, dir_exists),
{
    reveal(given_value);
    if seen.global_seedratio.is_some() {
        Err(ParseError::RepeatedFlag("global_seedratio"))
    } else {
        match parse_ratio(value.as_str()) {
            Some(ratio) => Ok(seen.with_global_seedratio(ratio)),
            None => Err(ParseError::InvalidNumber("global_seedratio", value)),
        }
    }
}

/// Computes [`given_value`] for the flag `pid_file`.
fn take_pid_file(seen: RawOptions, value: String, dir_exists: bool) -> (outcome: Result<
    RawOptions,
    ParseError,
>)
    ensures
        outcome_view(outcome) == given_value(seen@, Flag::PidFile, value@, dir_exists),
{
    reveal(given_value);
    if seen.pid_file.is_some() {
        Err(ParseError::RepeatedFlag("pid_file"))
    } else {
        match parse_number(value.as_str(), 0xffff_ffff) {
            Some(n) => Ok(seen.with_pid_file(n)),
            None => Err(ParseError::InvalidNumber("pid_file", value)),
        }
    }
}

/// Computes [`given_value`].
pub fn set_value(seen: RawOptions, flag: Flag, value: String, dir_exists: bool) -> (outcome: Result<
    RawOptions,
    ParseError,
>)
    ensures
        outcome_view(outcome) == given_value(seen@, flag, value@, dir_exists),
{
    reveal(given_value);
    match flag {
        Flag::Allowed => take_allowed(seen, value, dir_exists),
        Flag::WatchDir => take_watch_dir(seen, value, dir_exists),
        Flag::IncompleteDir => take_incomplete_dir(seen, value, dir_exists),
        Flag::Logfile => take_logfile(seen, value, dir_exists),
        Flag::ConfigDir => take_config_dir(seen, value, dir_exists),
        Flag::Port => take_port(seen, value, dir_exists),
        Flag::Username => take_username(seen, value, dir_exists),
        Flag::Password => take_password(seen, value, dir_exists),
        Flag::DownloadDir => take_download_dir(seen, value, dir_exists),
        Flag::Peerport => take_peerport(seen, value, dir_exists),
        Flag::PeerlimitGlobal => take_peerlimit_global(seen, value, dir_exists),
        Flag::PeerlimitTorrent => take_peerlimit_torrent(seen, value, dir_exists),
        Flag::BindAddressIpv4 => take_bind_address_ipv4(seen, value, dir_exists),
        Flag::BindAddressIpv6 => take_bind_address_ipv6(seen, value, dir_exists),
        Flag::RpcBindAddress => take_rpc_bind_address(seen, value, dir_exists),
        Flag::GlobalSeedratio => take_global_seedratio(seen, value, dir_exists),
        Flag::PidFile => take_pid_file(seen, value, dir_exists),
        _ => Ok(seen),
    }
}

/// Whether an argument starts like a flag with a long name.
pub open spec fn is_long(argument: Seq<char>) -> bool {
    argument.len() >= 2 && argument[0] == '-' && argument[1] == '-'
}

/// Whether an argument starts like flags with letters for names: a `-` and
/// at least one more character that is no `-`.
pub open spec fn is_short(argument: Seq<char>) -> bool {
    argument.len() >= 2 && argument[0] == '-' && argument[1] != '-'
}

/// The part of an argument that names the flag: what stands before the first
/// `=` of an argument that starts with `--`, else the argument.
pub open spec fn flag_word(argument: Seq<char>) -> Seq<char> {
    match position(argument, '=') {
        Some(at) => if is_long(argument) {
            argument.subrange(0, at)
        } else {
            argument
        },
        None => argument,
    }
}

/// The value that an argument carries with it: what stands after the first `=`
/// of an argument that starts with `--`.
pub open spec fn inline_value(argument: Seq<char>) -> Option<Seq<char>> {
    match position(argument, '=') {
        Some(at) => if is_long(argument) {
            Some(argument.subrange(at + 1, argument.len() as int))
        } else {
            None
        },
        None => None,
    }
}

/// The flag that a letter names after `-`.
pub open spec fn letter_flag(letter: char) -> Option<Flag> {
    flag_named(seq!['-', letter])
}

/// The value that stands with the letter of a flag in the same argument:
/// what follows the letter, after an optional `=`; none where nothing
/// follows.
pub open spec fn attached_value(rest: Seq<char>) -> Option<Seq<char>> {
    if rest.len() == 0 {
        None
    } else if rest[0] == '=' {
        Some(rest.skip(1))
    } else {
        Some(rest)
    }
}

/// What a flag made of the options, together with whether the argument after
/// the flag's own was taken as its value.
pub open spec fn taking(outcome: Result<OptionsView, ParseErrorView>, took: bool) -> Result<
    (OptionsView, bool),
    ParseErrorView,
> {
    match outcome {
        Ok(next) => Ok((next, took)),
        Err(error) => Err(error),
    }
}

/// What an argument that starts with `--` adds to the options `seen`, and
/// whether it took `next`, the argument after it, as its value. A flag that
/// takes a value finds it after `=` or in `next`.
pub open spec fn long_read(
    argument: Seq<char>,
    next: Option<Seq<char>>,
    seen: OptionsView,
    dir_exists: bool,
) -> Result<(OptionsView, bool), ParseErrorView> {
    match flag_named(flag_word(argument)) {
        None => Err(ParseErrorView::UnknownArgument(argument)),
        Some(flag) => match (flag.takes_value(), inline_value(argument)) {
            (true, Some(value)) => taking(given_value(seen, flag, value, dir_exists), false),
            (true, None) => match next {
                None => Err(ParseErrorView::MissingValue(flag.field())),
                Some(value) => taking(given_value(seen, flag, value, dir_exists), true),
            },
            (false, Some(value)) => Err(ParseErrorView::UnexpectedValue(flag.field(), value)),
            (false, None) => taking(given_switch(seen, flag), false),
        },
    }
}

/// What the letters of an argument that starts with one `-` add to the
/// options `seen`, and whether they took `next`, the argument after theirs,
/// as a value. Each letter names a flag. Flags that take no value may stand
/// side by side; the first flag that takes a value ends the run, and finds
/// its value in what follows its letter, after an optional `=`, or in
/// `next` where nothing follows.
pub open spec fn cluster_read(
    argument: Seq<char>,
    letters: Seq<char>,
    next: Option<Seq<char>>,
    seen: OptionsView,
    dir_exists: bool,
) -> Result<(OptionsView, bool), ParseErrorView>
    decreases letters.len(),
{
    if letters.len() == 0 {
        Ok((seen, false))
    } else {
        match letter_flag(letters[0]) {
            None => Err(ParseErrorView::UnknownArgument(argument)),
            Some(flag) => if flag.takes_value() {
                match attached_value(letters.skip(1)) {
                    Some(value) => taking(given_value(seen, flag, value, dir_exists), false),
                    None => match next {
                        None => Err(ParseErrorView::MissingValue(flag.field())),
                        Some(value) => taking(given_value(seen, flag, value, dir_exists), true),
                    },
                }
            } else {
                match given_switch(seen, flag) {
                    Ok(after) => cluster_read(argument, letters.skip(1), next, after, dir_exists),
                    Err(error) => Err(error),
                }
            },
        }
    }
}

/// What one argument adds to the options `seen`, and whether it took `next`,
/// the argument after it, as a value. An argument that is no flag is an
/// error.
pub open spec fn argument_read(
    argument: Seq<char>,
    next: Option<Seq<char>>,
    seen: OptionsView,
    dir_exists: bool,
) -> Result<(OptionsView, bool), ParseErrorView> {
    if is_long(argument) {
        long_read(argument, next, seen, dir_exists)
    } else if is_short(argument) {
        cluster_read(argument, argument.skip(1), next, seen, dir_exists)
    } else {
        Err(ParseErrorView::UnknownArgument(argument))
    }
}

/// The argument after the first one, if there is one.
pub open spec fn next_of(args: Seq<Seq<char>>) -> Option<Seq<char>> {
    if args.len() >= 2 {
        Some(args[1])
    } else {
        None
    }
}

/// The arguments after the first one, or after the first two where the
/// second was taken as a value.
pub open spec fn rest_of(args: Seq<Seq<char>>, took: bool) -> Seq<Seq<char>> {
    if took && args.len() >= 2 {
        args.skip(2)
    } else {
        args.skip(1)
    }
}

/// What reading the arguments `args` comes to, after the options `seen` were
/// read from earlier ones: each argument adds what [`argument_read`] tells,
/// and reading stops at the first error.
pub open spec fn parsed_from(args: Seq<Seq<char>>, seen: OptionsView, dir_exists: bool) -> Result<
    OptionsView,
    ParseErrorView,
>
    decreases args.len(),
{
    if args.len() == 0 {
        Ok(seen)
    } else {
        match argument_read(args[0], next_of(args), seen, dir_exists) {
            Ok((after, took)) => parsed_from(rest_of(args, took), after, dir_exists),
            Err(error) => Err(error),
        }
    }
}

/// What reading a command line comes to: the options that its arguments
/// give, or the first error. `args` are the arguments after the program's
/// name.
pub open spec fn parsed(args: Seq<Seq<char>>, dir_exists: bool) -> Result<
    OptionsView,
    ParseErrorView,
> {
    parsed_from(args, OptionsView::empty(), dir_exists)
}

/// What looking for the configuration directory in one argument comes to.
pub enum Walk {
    /// The argument gives the configuration directory this value.
    Found(Seq<char>),
    /// The argument cannot be read, and the search ends.
    Stop,
    /// The argument is of other flags; it took the argument after it as a
    /// value, or did not.
    On(bool),
}

/// What the letters of an argument that starts with one `-` say of the
/// configuration directory, read as [`cluster_read`] reads them.
pub open spec fn cluster_named(letters: Seq<char>, next: Option<Seq<char>>) -> Walk
    decreases letters.len(),
{
    if letters.len() == 0 {
        Walk::On(false)
    } else {
        match letter_flag(letters[0]) {
            None => Walk::Stop,
            Some(flag) => if flag.takes_value() {
                match attached_value(letters.skip(1)) {
                    Some(value) => if flag == Flag::ConfigDir {
                        Walk::Found(value)
                    } else {
                        Walk::On(false)
                    },
                    None => match next {
                        None => Walk::Stop,
                        Some(value) => if flag == Flag::ConfigDir {
                            Walk::Found(value)
                        } else {
                            Walk::On(true)
                        },
                    },
                }
            } else {
                cluster_named(letters.skip(1), next)
            },
        }
    }
}

/// What one argument says of the configuration directory, read as
/// [`argument_read`] reads it.
pub open spec fn argument_named(argument: Seq<char>, next: Option<Seq<char>>) -> Walk {
    if is_long(argument) {
        match flag_named(flag_word(argument)) {
            None => Walk::Stop,
            Some(flag) => match (flag.takes_value(), inline_value(argument)) {
                (true, Some(value)) => if flag == Flag::ConfigDir {
                    Walk::Found(value)
                } else {
                    Walk::On(false)
                },
                (true, None) => match next {
                    None => Walk::Stop,
                    Some(value) => if flag == Flag::ConfigDir {
                        Walk::Found(value)
                    } else {
                        Walk::On(true)
                    },
                },
                (false, _) => Walk::On(false),
            },
        }
    } else if is_short(argument) {
        cluster_named(argument.skip(1), next)
    } else {
        Walk::Stop
    }
}

/// The value that the arguments give to the flag of the configuration
/// directory where they first name it, read as [`parsed_from`] reads them.
pub open spec fn config_dir_named(args: Seq<Seq<char>>) -> Option<Seq<char>>
    decreases args.len(),
{
    if args.len() == 0 {
        None
    } else {
        match argument_named(args[0], next_of(args)) {
            Walk::Found(value) => Some(value),
            Walk::Stop => None,
            Walk::On(took) => config_dir_named(rest_of(args, took)),
        }
    }
}

/// The view of what an argument added, or of the error in its place.
pub open spec fn step_view(outcome: Result<(RawOptions, bool), ParseError>) -> Result<
    (OptionsView, bool),
    ParseErrorView,
> {
    match outcome {
        Ok((options, took)) => Ok((options@, took)),
        Err(error) => Err(error@),
    }
}

/// The characters of an optional argument.
pub open spec fn argument_view(argument: Option<&String>) -> Option<Seq<char>> {
    match argument {
        Some(text) => Some(text@),
        None => None,
    }
}

/// An argument taken apart: the word that names the flag and the value
/// after `=`.
fn split_argument(argument: &Vec<char>) -> (parts: (Vec<char>, Option<Vec<char>>))
    ensures
        parts.0@ == flag_word(argument@),
        match parts.1 {
            Some(value) => inline_value(argument@) == Some(value@),
            None => inline_value(argument@) is None,
        },
{
    let long = argument.len() >= 2 && argument[0] == '-' && argument[1] == '-';
    match find_char(argument, '=') {
        Some(at) => if long {
            (piece(argument, 0, at), Some(piece(argument, at + 1, argument.len())))
        } else {
            (piece(argument, 0, argument.len()), None)
        },
        None => (piece(argument, 0, argument.len()), None),
    }
}

/// Computes [`letter_flag`].
pub fn find_letter(letter: char) -> (flag: Option<Flag>)
    ensures
        flag == letter_flag(letter),
{
    let mut word: Vec<char> = Vec::new();
    word.push('-');
    word.push(letter);
    assert(word@ =~= seq!['-', letter]);
    find_flag(&word)
}

/// Computes [`attached_value`] for what stands in `chars` from `from` on.
fn attached(chars: &Vec<char>, from: usize) -> (value: Option<Vec<char>>)
    requires
        from <= chars.len(),
    ensures
        match value {
            Some(found) => attached_value(chars@.skip(from as int)) == Some(found@),
            None => attached_value(chars@.skip(from as int)) is None,
        },
{
    let ghost rest = chars@.skip(from as int);
    if from == chars.len() {
        None
    } else if chars[from] == '=' {
        let value = piece(chars, from + 1, chars.len());
        assert(value@ =~= rest.skip(1));
        Some(value)
    } else {
        let value = piece(chars, from, chars.len());
        assert(value@ =~= rest);
        Some(value)
    }
}

/// Computes [`taking`].
fn take(outcome: Result<RawOptions, ParseError>, took: bool) -> (step: Result<
    (RawOptions, bool),
    ParseError,
>)
    ensures
        step_view(step) == taking(outcome_view(outcome), took),
{
    match outcome {
        Ok(options) => Ok((options, took)),
        Err(error) => Err(error),
    }
}

/// Computes [`long_read`].
fn read_long(
    argument: &String,
    next: Option<&String>,
    seen: RawOptions,
    dir_exists: bool,
) -> (step: Result<(RawOptions, bool), ParseError>)
    ensures
        step_view(step) == long_read(argument@, argument_view(next), seen@, dir_exists),
{
    let chars = chars_of(argument.as_str());
    let (word, inline) = split_argument(&chars);
    let flag = match find_flag(&word) {
        Some(flag) => flag,
        None => {
            return Err(ParseError::UnknownArgument(argument.clone()));
        },
    };
    if flag.has_value() {
        match inline {
            Some(value) => take(set_value(seen, flag, text_of(&value), dir_exists), false),
            None => match next {
                Some(value) => take(set_value(seen, flag, value.clone(), dir_exists), true),
                None => Err(ParseError::MissingValue(flag.field_name())),
            },
        }
    } else {
        match inline {
            Some(value) => Err(ParseError::UnexpectedValue(flag.field_name(), text_of(&value))),
            None => take(set_switch(seen, flag), false),
        }
    }
}

/// Computes [`cluster_read`] for the letters of an argument.
fn read_cluster(
    argument: &String,
    next: Option<&String>,
    seen: RawOptions,
    dir_exists: bool,
) -> (step: Result<(RawOptions, bool), ParseError>)
    requires
        argument@.len() >= 1,
    ensures
        step_view(step) == cluster_read(
            argument@,
            argument@.skip(1),
            argument_view(next),
            seen@,
            dir_exists,
        ),
{
    let chars = chars_of(argument.as_str());
    let ghost after = argument_view(next);
    let ghost first = seen@;
    let mut options = seen;
    let mut at: usize = 1;
    while at < chars.len()
        invariant
            1 <= at <= chars.len(),
            chars@ == argument@,
            after == argument_view(next),
            first == seen@,
            cluster_read(argument@, argument@.skip(1), after, first, dir_exists) == cluster_read(
                argument@,
                argument@.skip(at as int),
                after,
                options@,
                dir_exists,
            ),
        decreases chars.len() - at,
    {
        let ghost letters = argument@.skip(at as int);
        assert(letters[0] == chars@[at as int]);
        assert(letters.skip(1) =~= argument@.skip(at + 1));
        let flag = match find_letter(chars[at]) {
            Some(flag) => flag,
            None => {
                return Err(ParseError::UnknownArgument(argument.clone()));
            },
        };
        if flag.has_value() {
            return match attached(&chars, at + 1) {
                Some(value) => take(set_value(options, flag, text_of(&value), dir_exists), false),
                None => match next {
                    Some(value) => take(set_value(options, flag, value.clone(), dir_exists), true),
                    None => Err(ParseError::MissingValue(flag.field_name())),
                },
            };
        }
        match set_switch(options, flag) {
            Ok(more) => {
                options = more;
            },
            Err(error) => {
                return Err(error);
            },
        }
        at += 1;
    }
    Ok((options, false))
}

/// Computes [`argument_read`].
fn read_argument(
    argument: &String,
    next: Option<&String>,
    seen: RawOptions,
    dir_exists: bool,
) -> (step: Result<(RawOptions, bool), ParseError>)
    ensures
        step_view(step) == argument_read(argument@, argument_view(next), seen@, dir_exists),
{
    let chars = chars_of(argument.as_str());
    if chars.len() >= 2 && chars[0] == '-' {
        if chars[1] == '-' {
            read_long(argument, next, seen, dir_exists)
        } else {
            read_cluster(argument, next, seen, dir_exists)
        }
    } else {
        Err(ParseError::UnknownArgument(argument.clone()))
    }
}

/// The argument after the one at `at`, if there is one.
fn next_argument(args: &Vec<String>, at: usize) -> (next: Option<&String>)
    requires
        at < args.len(),
    ensures
        argument_view(next) == next_of(texts_view(args@).skip(at as int)),
{
    let ghost rest = texts_view(args@).skip(at as int);
    if at + 1 < args.len() {
        assert(rest[1] == args@[at + 1]@);
        Some(&args[at + 1])
    } else {
        None
    }
}

/// Reads the arguments of a command line, the program's name left out.
///
/// `dir_exists` tells whether the value that [`config_dir_argument`] finds
/// names an existing directory; it is not looked at where that finds none.
pub fn parse(args: &Vec<String>, dir_exists: bool) -> (outcome: Result<RawOptions, ParseError>)
    ensures
        outcome_view(outcome) == parsed(texts_view(args@), dir_exists),
{
    let mut seen = RawOptions::empty();
    let mut at: usize = 0;
    assert(texts_view(args@).skip(0) =~= texts_view(args@));
    while at < args.len()
        invariant
            at <= args.len(),
            parsed(texts_view(args@), dir_exists) == parsed_from(
                texts_view(args@).skip(at as int),
                seen@,
                dir_exists,
            ),
        decreases args.len() - at,
    {
        let ghost rest = texts_view(args@).skip(at as int);
        assert(rest[0] == args@[at as int]@);
        assert(rest.skip(1) =~= texts_view(args@).skip(at + 1));
        let next = next_argument(args, at);
        match read_argument(&args[at], next, seen, dir_exists) {
            Ok((after, took)) => {
                seen = after;
                if took && at + 1 < args.len() {
                    assert(rest.skip(2) =~= texts_view(args@).skip(at + 2));
                    at += 2;
                } else {
                    at += 1;
                }
            },
            Err(error) => {
                return Err(error);
            },
        }
    }
    Ok(seen)
}

/// What looking for the configuration directory in one argument came to.
pub enum Step {
    Found(String),
    Stop,
    On(bool),
}

impl View for Step {
    type V = Walk;

    open spec fn view(&self) -> Walk {
        match self {
            Step::Found(value) => Walk::Found(value@),
            Step::Stop => Walk::Stop,
            Step::On(took) => Walk::On(*took),
        }
    }
}

/// What a flag that takes a value says of the configuration directory.
fn name_value(flag: Flag, value: String, took: bool) -> (step: Step)
    ensures
        step@ == if flag == Flag::ConfigDir {
            Walk::Found(value@)
        } else {
            Walk::On(took)
        },
{
    if flag == Flag::ConfigDir {
        Step::Found(value)
    } else {
        Step::On(took)
    }
}

/// Computes [`cluster_named`] for the letters of an argument.
fn name_cluster(argument: &String, next: Option<&String>) -> (step: Step)
    requires
        argument@.len() >= 1,
    ensures
        step@ == cluster_named(argument@.skip(1), argument_view(next)),
{
    let chars = chars_of(argument.as_str());
    let ghost after = argument_view(next);
    let mut at: usize = 1;
    while at < chars.len()
        invariant
            1 <= at <= chars.len(),
            chars@ == argument@,
            after == argument_view(next),
            cluster_named(argument@.skip(1), after) == cluster_named(
                argument@.skip(at as int),
                after,
            ),
        decreases chars.len() - at,
    {
        let ghost letters = argument@.skip(at as int);
        assert(letters[0] == chars@[at as int]);
        assert(letters.skip(1) =~= argument@.skip(at + 1));
        let flag = match find_letter(chars[at]) {
            Some(flag) => flag,
            None => {
                return Step::Stop;
            },
        };
        if flag.has_value() {
            return match attached(&chars, at + 1) {
                Some(value) => name_value(flag, text_of(&value), false),
                None => match next {
                    Some(value) => name_value(flag, value.clone(), true),
                    None => Step::Stop,
                },
            };
        }
        at += 1;
    }
    Step::On(false)
}

/// Computes [`argument_named`].
fn name_argument(argument: &String, next: Option<&String>) -> (step: Step)
    ensures
        step@ == argument_named(argument@, argument_view(next)),
{
    let chars = chars_of(argument.as_str());
    if chars.len() < 2 || chars[0] != '-' {
        return Step::Stop;
    }
    if chars[1] != '-' {
        return name_cluster(argument, next);
    }
    let (word, inline) = split_argument(&chars);
    let flag = match find_flag(&word) {
        Some(flag) => flag,
        None => {
            return Step::Stop;
        },
    };
    if !flag.has_value() {
        return Step::On(false);
    }
    match inline {
        Some(value) => name_value(flag, text_of(&value), false),
        None => match next {
            Some(value) => name_value(flag, value.clone(), true),
            None => Step::Stop,
        },
    }
}

/// Finds [`config_dir_named`]: the path that has to name an existing
/// directory for [`parse`] to accept the arguments.
pub fn config_dir_argument(args: &Vec<String>) -> (path: Option<String>)
    ensures
        text_view(path) == config_dir_named(texts_view(args@)),
{
    let mut at: usize = 0;
    assert(texts_view(args@).skip(0) =~= texts_view(args@));
    while at < args.len()
        invariant
            at <= args.len(),
            config_dir_named(texts_view(args@)) == config_dir_named(
                texts_view(args@).skip(at as int),
            ),
        decreases args.len() - at,
    {
        let ghost rest = texts_view(args@).skip(at as int);
        assert(rest[0] == args@[at as int]@);
        assert(rest.skip(1) =~= texts_view(args@).skip(at + 1));
        let next = next_argument(args, at);
        match name_argument(&args[at], next) {
            Step::Found(value) => {
                return Some(value);
            },
            Step::Stop => {
                return None;
            },
            Step::On(took) => {
                if took && at + 1 < args.len() {
                    assert(rest.skip(2) =~= texts_view(args@).skip(at + 2));
                    at += 2;
                } else {
                    at += 1;
                }
            },
        }
    }
    None
}

/// A value is no number for a flag where it starts with a minus sign, and
/// where its digits write more than the largest number of the flag.
pub proof fn law_number_refused(value: Seq<char>, max: nat)
    ensures
        value.len() > 0 && value[0] == '-' ==> number_of(value, max) is None,
        value.len() > 0 && all_digits(value, 10) && value_of(value, 10) > max ==> number_of(
            value,
            max,
        ) is None,
{
    reveal(number_of);
    if value.len() > 0 && value[0] == '-' {
        assert(!is_digit(value[0], 10));
    }
    if value.len() > 0 && all_digits(value, 10) {
        assert(is_digit(value[0], 10));
    }
}

/// A port that is no number of sixteen bits is refused, with the field and
/// the value as it was given: one beyond 65535 is, and so is one below zero.
pub proof fn law_port_refused(seen: OptionsView, value: Seq<char>, dir_exists: bool)
    requires
        seen.port is None,
        (value.len() > 0 && value[0] == '-') || (value.len() > 0 && all_digits(value, 10)
            && value_of(value, 10) > 0xffff),
    ensures
        given_value(seen, Flag::Port, value, dir_exists) == Err::<OptionsView, ParseErrorView>(
            ParseErrorView::InvalidNumber("port", value),
        ),
{
    reveal(given_value);
    law_number_refused(value, 0xffff);
}

/// Whether the configuration directory exists matters to no flag but its
/// own.
proof fn lemma_value_without_probe(
    seen: OptionsView,
    flag: Flag,
    value: Seq<char>,
    dir_exists: bool,
)
    requires
        flag != Flag::ConfigDir,
    ensures
        given_value(seen, flag, value, dir_exists) == given_value(seen, flag, value, !dir_exists),
{
    reveal(given_value);
}

/// A value is refused as no directory only for the flag of the configuration
/// directory, and only where the directory was said not to exist; that flag
/// takes its value only where the directory was said to exist.
proof fn lemma_invalid_path_of_value(
    seen: OptionsView,
    flag: Flag,
    value: Seq<char>,
    dir_exists: bool,
)
    ensures
        given_value(seen, flag, value, dir_exists) matches Err(
            ParseErrorView::InvalidPath(field, refused),
        ) ==> flag == Flag::ConfigDir && !dir_exists && field == "config_dir" && refused == value,
        flag == Flag::ConfigDir && given_value(seen, flag, value, dir_exists) is Ok ==> dir_exists,
        given_switch(seen, flag) matches Err(error) ==> error is RepeatedFlag,
{
    reveal(given_value);
    reveal(given_switch);
}

/// How reading the letters of an argument and looking for the configuration
/// directory in them go together.
proof fn lemma_cluster_walk(
    argument: Seq<char>,
    letters: Seq<char>,
    next: Option<Seq<char>>,
    seen: OptionsView,
    dir_exists: bool,
)
    ensures
        !(cluster_named(letters, next) is Found) ==> cluster_read(
            argument,
            letters,
            next,
            seen,
            dir_exists,
        ) == cluster_read(argument, letters, next, seen, !dir_exists),
        cluster_read(argument, letters, next, seen, dir_exists) matches Ok((_, took)) ==> (
        cluster_named(letters, next) == Walk::On(took) || (cluster_named(letters, next) is Found
            && dir_exists)),
        cluster_read(argument, letters, next, seen, dir_exists) matches Err(
            ParseErrorView::InvalidPath(field, value),
        ) ==> !dir_exists && field == "config_dir" && cluster_named(letters, next) == Walk::Found(
            value,
        ),
    decreases letters.len(),
{
    if letters.len() > 0 {
        match letter_flag(letters[0]) {
            None => {},
            Some(flag) => {
                if flag.takes_value() {
                    let value = match attached_value(letters.skip(1)) {
                        Some(value) => value,
                        None => match next {
                            Some(value) => value,
                            None => Seq::empty(),
                        },
                    };
                    lemma_invalid_path_of_value(seen, flag, value, dir_exists);
                    if flag != Flag::ConfigDir {
                        lemma_value_without_probe(seen, flag, value, dir_exists);
                    }
                } else {
                    lemma_invalid_path_of_value(seen, flag, Seq::empty(), dir_exists);
                    match given_switch(seen, flag) {
                        Ok(after) => lemma_cluster_walk(
                            argument,
                            letters.skip(1),
                            next,
                            after,
                            dir_exists,
                        ),
                        Err(_) => {},
                    }
                }
            },
        }
    }
}

/// How reading an argument and looking for the configuration directory in
/// it go together: where the argument does not name the directory, reading
/// it does not depend on what was said of the directory's existence; where
/// it is read, the search goes on as reading does, or it names the directory
/// and the directory was said to exist; and it is refused for a path only
/// where it names that path as the directory.
proof fn lemma_argument_walk(
    argument: Seq<char>,
    next: Option<Seq<char>>,
    seen: OptionsView,
    dir_exists: bool,
)
    ensures
        !(argument_named(argument, next) is Found) ==> argument_read(
            argument,
            next,
            seen,
            dir_exists,
        ) == argument_read(argument, next, seen, !dir_exists),
        argument_read(argument, next, seen, dir_exists) matches Ok((_, took)) ==> (argument_named(
            argument,
            next,
        ) == Walk::On(took) || (argument_named(argument, next) is Found && dir_exists)),
        argument_read(argument, next, seen, dir_exists) matches Err(
            ParseErrorView::InvalidPath(field, value),
        ) ==> !dir_exists && field == "config_dir" && argument_named(argument, next) == Walk::Found(
            value,
        ),
{
    if is_long(argument) {
        match flag_named(flag_word(argument)) {
            None => {},
            Some(flag) => {
                let value = match inline_value(argument) {
                    Some(value) => value,
                    None => match next {
                        Some(value) => value,
                        None => Seq::empty(),
                    },
                };
                lemma_invalid_path_of_value(seen, flag, value, dir_exists);
                if flag != Flag::ConfigDir {
                    lemma_value_without_probe(seen, flag, value, dir_exists);
                }
            },
        }
    } else if is_short(argument) {
        lemma_cluster_walk(argument, argument.skip(1), next, seen, dir_exists);
    }
}

/// As [`law_probe_matters_for_config_dir`], after any options.
proof fn lemma_parsed_without_probe(args: Seq<Seq<char>>, seen: OptionsView, dir_exists: bool)
    requires
        config_dir_named(args) is None,
    ensures
        parsed_from(args, seen, dir_exists) == parsed_from(args, seen, !dir_exists),
    decreases args.len(),
{
    if args.len() > 0 {
        lemma_argument_walk(args[0], next_of(args), seen, dir_exists);
        match argument_read(args[0], next_of(args), seen, dir_exists) {
            Ok((after, took)) => lemma_parsed_without_probe(rest_of(args, took), after, dir_exists),
            Err(_) => {},
        }
    }
}

/// Where the arguments name no configuration directory, what reading them
/// comes to does not depend on what was said of its existence.
pub proof fn law_probe_matters_for_config_dir(args: Seq<Seq<char>>)
    requires
        config_dir_named(args) is None,
    ensures
        parsed(args, true) == parsed(args, false),
{
    lemma_parsed_without_probe(args, OptionsView::empty(), true);
}

/// As [`law_invalid_path_is_config_dir`], after any options.
proof fn lemma_invalid_path_from(args: Seq<Seq<char>>, seen: OptionsView, dir_exists: bool)
    ensures
        parsed_from(args, seen, dir_exists) matches Err(ParseErrorView::InvalidPath(field, value))
            ==> !dir_exists && field == "config_dir" && config_dir_named(args) == Some(value),
    decreases args.len(),
{
    if args.len() > 0 {
        lemma_argument_walk(args[0], next_of(args), seen, dir_exists);
        match argument_read(args[0], next_of(args), seen, dir_exists) {
            Ok((after, took)) => lemma_invalid_path_from(rest_of(args, took), after, dir_exists),
            Err(_) => {},
        }
    }
}

/// Arguments are refused for a path that names no directory only where that
/// path is the value that they give to the configuration directory.
pub proof fn law_invalid_path_is_config_dir(args: Seq<Seq<char>>, dir_exists: bool)
    ensures
        parsed(args, dir_exists) matches Err(ParseErrorView::InvalidPath(field, value))
            ==> !dir_exists && field == "config_dir" && config_dir_named(args) == Some(value),
{
    lemma_invalid_path_from(args, OptionsView::empty(), dir_exists);
}

} // verus!
