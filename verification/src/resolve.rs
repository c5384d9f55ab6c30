//! Precedence: how the options of the command line are laid over the settings
//! that were persisted or defaulted.

use crate::address::{IpAddress, Ipv4Address, Ipv6Address};
use crate::flags::Flag;
use crate::options::{OptionsView, RawOptions};
use crate::session::{EncryptionMode, LogLevel, SessionSettings, SettingsView};
use vstd::prelude::*;

verus! {

/// Why options and settings could not be combined.
#[derive(Clone, Debug, PartialEq, Eq)]
pub enum ResolveError {
    /// Flags that exclude one another were given together; holds the name of
    /// the pair or group.
    ConflictingFlags(&'static str),
    /// A number of the combined settings lies outside its bounds; holds the
    /// field's name and the number.
    OutOfRange(&'static str, u32),
}

/// The value of a toggle after an enabling and a disabling flag: the flag that
/// was given decides, and without a flag the toggle keeps its value.
pub open spec fn switched(on: bool, off: bool, kept: bool) -> bool {
    if on {
        true
    } else if off {
        false
    } else {
        kept
    }
}

/// The value of a setting after a flag that may carry a value for it.
pub open spec fn overridden<T>(given: Option<T>, kept: T) -> T {
    match given {
        Some(value) => value,
        None => kept,
    }
}

/// An optional setting after a flag that may carry a value for it.
pub open spec fn preferred<T>(given: Option<T>, kept: Option<T>) -> Option<T> {
    if given is Some {
        given
    } else {
        kept
    }
}

/// A list after a flag that may be given several times, each time with one
/// more item.
pub open spec fn replaced<T>(given: Seq<T>, kept: Seq<T>) -> Seq<T> {
    if given.len() > 0 {
        given
    } else {
        kept
    }
}

/// Whether a path or ratio is honoured after its pair of flags: the negative
/// flag switches it off whatever else was given, a value switches it on.
pub open spec fn honoured(value_given: bool, off: bool, kept: bool) -> bool {
    if off {
        false
    } else if value_given {
        true
    } else {
        kept
    }
}

/// How many of three flags were given.
pub open spec fn given_count(a: bool, b: bool, c: bool) -> nat {
    (if a { 1nat } else { 0nat }) + (if b { 1nat } else { 0nat }) + (if c { 1nat } else { 0nat })
}

/// The encryption mode after the three encryption flags, of which at most one
/// was given.
pub open spec fn chosen_encryption(cli: OptionsView, kept: EncryptionMode) -> EncryptionMode {
    if cli.encryption_required {
        EncryptionMode::EncryptionRequired
    } else if cli.encryption_preferred {
        EncryptionMode::EncryptionPreferred
    } else if cli.encryption_tolerated {
        EncryptionMode::ClearPreferred
    } else {
        kept
    }
}

/// The log level after the three log flags, of which at most one was given.
pub open spec fn chosen_level(cli: OptionsView, kept: LogLevel) -> LogLevel {
    if cli.log_error {
        LogLevel::Error
    } else if cli.log_info {
        LogLevel::Info
    } else if cli.log_debug {
        LogLevel::Debug
    } else {
        kept
    }
}

/// The first pair or group of flags that were given against one another, in
/// the order `dht`, `lpd`, `utp`, `portmap`, `blocklist`, `auth`, `encryption`,
/// `log`.
pub open spec fn first_conflict(cli: OptionsView) -> Option<&'static str> {
    if cli.dht && cli.no_dht {
        Some("dht")
    } else if cli.lpd && cli.no_lpd {
        Some("lpd")
    } else if cli.utp && cli.no_utp {
        Some("utp")
    } else if cli.portmap && cli.no_portmap {
        Some("portmap")
    } else if cli.blocklist && cli.no_blocklist {
        Some("blocklist")
    } else if cli.auth && cli.no_auth {
        Some("auth")
    } else if given_count(
        cli.encryption_required,
        cli.encryption_preferred,
        cli.encryption_tolerated,
    ) > 1 {
        Some("encryption")
    } else if given_count(cli.log_error, cli.log_info, cli.log_debug) > 1 {
        Some("log")
    } else {
        None
    }
}

/// The settings `base` with every value that `cli` gives laid over them.
pub open spec fn merged(base: SettingsView, cli: OptionsView) -> SettingsView {
    SettingsView {
        rpc_whitelist: replaced(cli.allowed, base.rpc_whitelist),
        blocklist_enabled: switched(cli.blocklist, cli.no_blocklist, base.blocklist_enabled),
        watch_dir: preferred(cli.watch_dir, base.watch_dir),
        watch_dir_enabled: honoured(
            cli.watch_dir is Some,
            cli.no_watch_dir,
            base.watch_dir_enabled,
        ),
        incomplete_dir: preferred(cli.incomplete_dir, base.incomplete_dir),
        incomplete_dir_enabled: honoured(
            cli.incomplete_dir is Some,
            cli.no_incomplete_dir,
            base.incomplete_dir_enabled,
        ),
        rpc_port: overridden(cli.port, base.rpc_port),
        rpc_authentication_required: switched(
            cli.auth,
            cli.no_auth,
            base.rpc_authentication_required,
        ),
        rpc_username: overridden(cli.username, base.rpc_username),
        rpc_password: overridden(cli.password, base.rpc_password),
        message_level: chosen_level(cli, base.message_level),
        download_dir: preferred(cli.download_dir, base.download_dir),
        dht_enabled: switched(cli.dht, cli.no_dht, base.dht_enabled),
        ltp_enabled: switched(cli.lpd, cli.no_lpd, base.ltp_enabled),
        utp_enabled: switched(cli.utp, cli.no_utp, base.utp_enabled),
        peer_port: overridden(cli.peerport, base.peer_port),
        port_forwarding_enabled: switched(
            cli.portmap,
            cli.no_portmap,
            base.port_forwarding_enabled,
        ),
        peer_limit_global: overridden(cli.peerlimit_global, base.peer_limit_global),
        peer_limit_per_torrent: overridden(cli.peerlimit_torrent, base.peer_limit_per_torrent),
        encryption: chosen_encryption(cli, base.encryption),
        bind_address_ipv4: overridden(cli.bind_address_ipv4, base.bind_address_ipv4),
        bind_address_ipv6: overridden(cli.bind_address_ipv6, base.bind_address_ipv6),
        rpc_bind_enabled_address: overridden(cli.rpc_bind_address, base.rpc_bind_enabled_address),
        ratio_limit: overridden(cli.global_seedratio, base.ratio_limit),
        ratio_limit_enabled: honoured(
            cli.global_seedratio is Some,
            cli.no_global_seedratio,
            base.ratio_limit_enabled,
        ),
        ..base
    }
}

/// What [`resolve`] returns: the first conflict among the flags, else the first
/// number of the merged settings that is out of bounds, else the merged
/// settings.
pub open spec fn resolved(base: SettingsView, cli: OptionsView) -> Result<
    SettingsView,
    ResolveError,
> {
    match first_conflict(cli) {
        Some(name) => Err(ResolveError::ConflictingFlags(name)),
        None => match merged(base, cli).first_violation() {
            Some((field, value)) => Err(ResolveError::OutOfRange(field, value)),
            None => Ok(merged(base, cli)),
        },
    }
}

/// Finds [`first_conflict`].
pub fn find_conflict(cli: &RawOptions) -> (found: Option<&'static str>)
    ensures
        found == first_conflict(cli@),
{
    let encryption_flags: u8 = (if cli.encryption_required { 1u8 } else { 0u8 })
        + (if cli.encryption_preferred { 1u8 } else { 0u8 })
        + (if cli.encryption_tolerated { 1u8 } else { 0u8 });
    let log_flags: u8 = (if cli.log_error { 1u8 } else { 0u8 })
        + (if cli.log_info { 1u8 } else { 0u8 })
        + (if cli.log_debug { 1u8 } else { 0u8 });
    if cli.dht && cli.no_dht {
        Some("dht")
    } else if cli.lpd && cli.no_lpd {
        Some("lpd")
    } else if cli.utp && cli.no_utp {
        Some("utp")
    } else if cli.portmap && cli.no_portmap {
        Some("portmap")
    } else if cli.blocklist && cli.no_blocklist {
        Some("blocklist")
    } else if cli.auth && cli.no_auth {
        Some("auth")
    } else if encryption_flags > 1 {
        Some("encryption")
    } else if log_flags > 1 {
        Some("log")
    } else {
        None
    }
}

/// Computes [`switched`].
fn switch(on: bool, off: bool, kept: bool) -> (value: bool)
    ensures
        value == switched(on, off, kept),
{
    if on {
        true
    } else if off {
        false
    } else {
        kept
    }
}

/// Computes [`honoured`].
fn honour(value_given: bool, off: bool, kept: bool) -> (value: bool)
    ensures
        value == honoured(value_given, off, kept),
{
    if off {
        false
    } else if value_given {
        true
    } else {
        kept
    }
}

/// Computes [`overridden`].
fn overriding<T>(given: Option<T>, kept: T) -> (value: T)
    ensures
        value == overridden(given, kept),
{
    match given {
        Some(value) => value,
        None => kept,
    }
}

/// Computes [`preferred`].
fn prefer<T>(given: Option<T>, kept: Option<T>) -> (value: Option<T>)
    ensures
        value == preferred(given, kept),
{
    if given.is_some() {
        given
    } else {
        kept
    }
}

/// Computes [`replaced`].
fn replace<T>(given: Vec<T>, kept: Vec<T>) -> (value: Vec<T>)
    ensures
        value@ == replaced(given@, kept@),
{
    if given.len() > 0 {
        given
    } else {
        kept
    }
}

/// Computes [`chosen_encryption`].
fn choose_encryption(cli: &RawOptions, kept: EncryptionMode) -> (mode: EncryptionMode)
    ensures
        mode == chosen_encryption(cli@, kept),
{
    if cli.encryption_required {
        EncryptionMode::EncryptionRequired
    } else if cli.encryption_preferred {
        EncryptionMode::EncryptionPreferred
    } else if cli.encryption_tolerated {
        EncryptionMode::ClearPreferred
    } else {
        kept
    }
}

/// Computes [`chosen_level`].
fn choose_level(cli: &RawOptions, kept: LogLevel) -> (level: LogLevel)
    ensures
        level == chosen_level(cli@, kept),
{
    if cli.log_error {
        LogLevel::Error
    } else if cli.log_info {
        LogLevel::Info
    } else if cli.log_debug {
        LogLevel::Debug
    } else {
        kept
    }
}

/// Lays the values of `cli` over `base`, whatever flags were given together.
pub fn merge(base: SessionSettings, cli: RawOptions) -> (settings: SessionSettings)
    ensures
        settings@ == merged(base@, cli@),
{
    let encryption = choose_encryption(&cli, base.encryption);
    let message_level = choose_level(&cli, base.message_level);
    let watch_dir_enabled = honour(
        cli.watch_dir.is_some(),
        cli.no_watch_dir,
        base.watch_dir_enabled,
    );
    let incomplete_dir_enabled = honour(
        cli.incomplete_dir.is_some(),
        cli.no_incomplete_dir,
        base.incomplete_dir_enabled,
    );
    let ratio_limit_enabled = honour(
        cli.global_seedratio.is_some(),
        cli.no_global_seedratio,
        base.ratio_limit_enabled,
    );
    SessionSettings {
        rpc_whitelist: replace(cli.allowed, base.rpc_whitelist),
        blocklist_enabled: switch(cli.blocklist, cli.no_blocklist, base.blocklist_enabled),
        watch_dir: prefer(cli.watch_dir, base.watch_dir),
        watch_dir_enabled,
        incomplete_dir: prefer(cli.incomplete_dir, base.incomplete_dir),
        incomplete_dir_enabled,
        rpc_port: overriding(cli.port, base.rpc_port),
        rpc_authentication_required: switch(
            cli.auth,
            cli.no_auth,
            base.rpc_authentication_required,
        ),
        rpc_username: overriding(cli.username, base.rpc_username),
        rpc_password: overriding(cli.password, base.rpc_password),
        message_level,
        download_dir: prefer(cli.download_dir, base.download_dir),
        dht_enabled: switch(cli.dht, cli.no_dht, base.dht_enabled),
        ltp_enabled: switch(cli.lpd, cli.no_lpd, base.ltp_enabled),
        utp_enabled: switch(cli.utp, cli.no_utp, base.utp_enabled),
        peer_port: overriding(cli.peerport, base.peer_port),
        port_forwarding_enabled: switch(cli.portmap, cli.no_portmap, base.port_forwarding_enabled),
        peer_limit_global: overriding(cli.peerlimit_global, base.peer_limit_global),
        peer_limit_per_torrent: overriding(cli.peerlimit_torrent, base.peer_limit_per_torrent),
        encryption,
        bind_address_ipv4: overriding(cli.bind_address_ipv4, base.bind_address_ipv4),
        bind_address_ipv6: overriding(cli.bind_address_ipv6, base.bind_address_ipv6),
        rpc_bind_enabled_address: overriding(cli.rpc_bind_address, base.rpc_bind_enabled_address),
        ratio_limit: overriding(cli.global_seedratio, base.ratio_limit),
        ratio_limit_enabled,
        ..base
    }
}

/// Combines the settings `base` with the options `cli` of the command line.
///
/// Flags given against one another are an error. Otherwise every value that
/// the command line gives replaces the one of `base`, and the result is
/// returned if its numbers are within bounds.
pub fn resolve(base: SessionSettings, cli: RawOptions) -> (result: Result<
    SessionSettings,
    ResolveError,
>)
    ensures
        match result {
            Ok(settings) => resolved(base@, cli@) == Ok::<SettingsView, ResolveError>(settings@),
            Err(error) => resolved(base@, cli@) == Err::<SettingsView, ResolveError>(error),
        },
{
    match find_conflict(&cli) {
        Some(name) => Err(ResolveError::ConflictingFlags(name)),
        None => {
            let settings = merge(base, cli);
            match settings.first_violation() {
                Some((field, value)) => Err(ResolveError::OutOfRange(field, value)),
                None => Ok(settings),
            }
        },
    }
}

/// Resolving again with the same options changes nothing: what a first pass
/// over any settings gives, a second pass gives again.
pub proof fn law_resolve_idempotent(base: SettingsView, cli: OptionsView)
    ensures
        resolved(base, cli) matches Ok(once) ==> resolved(once, cli) == Ok::<
            SettingsView,
            ResolveError,
        >(once),
{
    if resolved(base, cli) is Ok {
        let once = merged(base, cli);
        assert(merged(once, cli) == once);
    }
}

/// Without options the merged settings are the settings themselves.
pub proof fn lemma_merged_without_options(base: SettingsView, cli: OptionsView)
    requires
        cli.is_empty(),
    ensures
        merged(base, cli) == base,
        first_conflict(cli) is None,
{
}

/// Without options, settings resolve to themselves where they are within
/// bounds and to an error where they are not; resolving the outcome once more
/// gives it again.
pub proof fn law_resolve_without_options(base: SettingsView, cli: OptionsView)
    requires
        cli.is_empty(),
    ensures
        base.in_bounds() <==> resolved(base, cli) is Ok,
        resolved(base, cli) matches Ok(once) ==> once == base && resolved(once, cli) == resolved(
            base,
            cli,
        ),
{
    lemma_merged_without_options(base, cli);
    base.lemma_in_bounds_iff_no_violation();
}

/// What resolving gives, where it succeeds, are the merged settings, and no
/// flags were given against one another.
pub proof fn lemma_resolved_is_merged(base: SettingsView, cli: OptionsView)
    ensures
        resolved(base, cli) matches Ok(settings) ==> settings == merged(base, cli)
            && first_conflict(cli) is None,
{
}

/// A value given on the command line wins: where resolving succeeds, every
/// setting that takes its value from a flag holds what the flag gave,
/// whatever `base` held.
pub proof fn law_cli_value_wins(base: SettingsView, cli: OptionsView)
    ensures
        resolved(base, cli) matches Ok(settings) ==> {
            &&& cli.allowed.len() > 0 ==> settings.rpc_whitelist == cli.allowed
            &&& cli.port matches Some(port) ==> settings.rpc_port == port
            &&& cli.username matches Some(name) ==> settings.rpc_username == name
            &&& cli.password matches Some(password) ==> settings.rpc_password == password
            &&& cli.download_dir is Some ==> settings.download_dir == cli.download_dir
            &&& cli.peerport matches Some(port) ==> settings.peer_port == port
            &&& cli.peerlimit_global matches Some(limit) ==> settings.peer_limit_global == limit
            &&& cli.peerlimit_torrent matches Some(limit) ==> settings.peer_limit_per_torrent
                == limit
            &&& cli.bind_address_ipv4 matches Some(address) ==> settings.bind_address_ipv4
                == address
            &&& cli.bind_address_ipv6 matches Some(address) ==> settings.bind_address_ipv6
                == address
            &&& cli.rpc_bind_address matches Some(address) ==> settings.rpc_bind_enabled_address
                == address
        },
{
    lemma_resolved_is_merged(base, cli);
}

/// A switch given on the command line wins: where resolving succeeds, every
/// setting that a pair or a group of flags switches is as the flag that was
/// given says, whatever `base` held.
pub proof fn law_cli_switch_wins(base: SettingsView, cli: OptionsView)
    ensures
        resolved(base, cli) matches Ok(settings) ==> {
            &&& cli.blocklist ==> settings.blocklist_enabled
            &&& cli.no_blocklist ==> !settings.blocklist_enabled
            &&& cli.auth ==> settings.rpc_authentication_required
            &&& cli.no_auth ==> !settings.rpc_authentication_required
            &&& cli.dht ==> settings.dht_enabled
            &&& cli.no_dht ==> !settings.dht_enabled
            &&& cli.lpd ==> settings.ltp_enabled
            &&& cli.no_lpd ==> !settings.ltp_enabled
            &&& cli.utp ==> settings.utp_enabled
            &&& cli.no_utp ==> !settings.utp_enabled
            &&& cli.portmap ==> settings.port_forwarding_enabled
            &&& cli.no_portmap ==> !settings.port_forwarding_enabled
            &&& cli.log_error ==> settings.message_level == LogLevel::Error
            &&& cli.log_info ==> settings.message_level == LogLevel::Info
            &&& cli.log_debug ==> settings.message_level == LogLevel::Debug
            &&& cli.encryption_required ==> settings.encryption
                == EncryptionMode::EncryptionRequired
            &&& cli.encryption_preferred ==> settings.encryption
                == EncryptionMode::EncryptionPreferred
            &&& cli.encryption_tolerated ==> settings.encryption == EncryptionMode::ClearPreferred
        },
{
    lemma_resolved_is_merged(base, cli);
}

/// A path or ratio given on the command line wins, and so does the flag that
/// switches it off: where resolving succeeds, the value is the one given, and
/// it is honoured unless the negative flag was given too.
pub proof fn law_cli_pair_wins(base: SettingsView, cli: OptionsView)
    ensures
        resolved(base, cli) matches Ok(settings) ==> {
            &&& cli.watch_dir is Some ==> settings.watch_dir == cli.watch_dir
            &&& cli.watch_dir is Some && !cli.no_watch_dir ==> settings.watch_dir_enabled
            &&& cli.no_watch_dir ==> !settings.watch_dir_enabled
            &&& cli.incomplete_dir is Some ==> settings.incomplete_dir == cli.incomplete_dir
            &&& cli.incomplete_dir is Some && !cli.no_incomplete_dir
                ==> settings.incomplete_dir_enabled
            &&& cli.no_incomplete_dir ==> !settings.incomplete_dir_enabled
            &&& cli.global_seedratio matches Some(ratio) ==> settings.ratio_limit == ratio
            &&& cli.global_seedratio is Some && !cli.no_global_seedratio
                ==> settings.ratio_limit_enabled
            &&& cli.no_global_seedratio ==> !settings.ratio_limit_enabled
        },
{
    lemma_resolved_is_merged(base, cli);
}

/// Settings without a flag keep the value of `base`.
pub proof fn law_unflagged_settings_kept(base: SettingsView, cli: OptionsView)
    ensures
        resolved(base, cli) matches Ok(settings) ==> {
            &&& cli.allowed.len() == 0 ==> settings.rpc_whitelist == base.rpc_whitelist
            &&& !cli.dht && !cli.no_dht ==> settings.dht_enabled == base.dht_enabled
            &&& cli.port is None ==> settings.rpc_port == base.rpc_port
            &&& cli.watch_dir is None && !cli.no_watch_dir ==> settings.watch_dir
                == base.watch_dir && settings.watch_dir_enabled == base.watch_dir_enabled
            &&& !cli.encryption_required && !cli.encryption_preferred
                && !cli.encryption_tolerated ==> settings.encryption == base.encryption
            &&& settings.blocklist_url == base.blocklist_url
            &&& settings.cache_size_mb == base.cache_size_mb
            &&& settings.rpc_enabled == base.rpc_enabled
            &&& settings.start_added_torrents == base.start_added_torrents
        },
{
    lemma_resolved_is_merged(base, cli);
}

/// Where no flag is given and nothing was persisted, each setting holds the
/// default of its flag: resolving a fresh installation without options gives
/// the numbers that the flags document, and the local addresses as those that
/// may use remote control.
pub proof fn law_flag_defaults(
    download_dir: Option<Seq<char>>,
    incomplete_dir: Option<Seq<char>>,
    blocklist_url: Seq<char>,
)
    ensures
        resolved(
            SettingsView::defaults(download_dir, incomplete_dir, blocklist_url),
            OptionsView::empty(),
        ) matches Ok(settings) && {
            &&& Flag::Port.default_number() == Some(settings.rpc_port)
            &&& Flag::Peerport.default_number() == Some(settings.peer_port)
            &&& Flag::PeerlimitGlobal.default_number() == Some(settings.peer_limit_global)
            &&& Flag::PeerlimitTorrent.default_number() == Some(settings.peer_limit_per_torrent)
            &&& settings.rpc_whitelist == seq![
                IpAddress::V4(Ipv4Address::localhost()),
                IpAddress::V6(Ipv6Address::localhost()),
            ]
        },
{
    let fresh = SettingsView::defaults(download_dir, incomplete_dir, blocklist_url);
    lemma_merged_without_options(fresh, OptionsView::empty());
}

/// `--dht` together with `--no-dht` is always the conflict `dht`, whatever
/// else was given.
pub proof fn law_dht_conflict(base: SettingsView, cli: OptionsView)
    requires
        cli.dht,
        cli.no_dht,
    ensures
        resolved(base, cli) == Err::<SettingsView, ResolveError>(
            ResolveError::ConflictingFlags("dht"),
        ),
{
}

} // verus!
