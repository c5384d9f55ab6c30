//! The options of the command line: one field for each flag, and the errors of
//! reading them.

use crate::address::{IpAddress, Ipv4Address, Ipv6Address};
use crate::session::Ratio;
use crate::text::text_view;
use vstd::prelude::*;

verus! {

/// What the command line gave: one field per flag, each absent or present on
/// its own.
#[derive(Clone, Debug, PartialEq, Eq)]
pub struct RawOptions {
    /// Addresses that may use remote control; empty when the flag was not given.
    pub allowed: Vec<IpAddress>,
    /// Enable peer blocklists.
    pub blocklist: bool,
    /// Disable peer blocklists.
    pub no_blocklist: bool,
    /// Where to watch for new `.torrent` files.
    pub watch_dir: Option<String>,
    /// Disable the watch directory.
    pub no_watch_dir: bool,
    /// Where to store new torrents until they are complete.
    pub incomplete_dir: Option<String>,
    /// Do not store incomplete torrents in a different location.
    pub no_incomplete_dir: bool,
    /// Dump the settings and exit.
    pub dump_settings: bool,
    /// Dump the log messages to this file.
    pub logfile: Option<String>,
    /// Run in the foreground instead of daemonizing.
    pub foreground: bool,
    /// Where to look for configuration files; an existing directory.
    pub config_dir: Option<String>,
    /// Port of remote control.
    pub port: Option<u16>,
    /// Require authentication.
    pub auth: bool,
    /// Do not require authentication.
    pub no_auth: bool,
    /// User name for authentication.
    pub username: Option<String>,
    /// Password for authentication.
    pub password: Option<String>,
    /// Show error messages.
    pub log_error: bool,
    /// Show error and info messages.
    pub log_info: bool,
    /// Show error, info and debug messages.
    pub log_debug: bool,
    /// Where to save downloaded data.
    pub download_dir: Option<String>,
    /// Pause all torrents on startup.
    pub paused: bool,
    /// Enable the distributed hash table.
    pub dht: bool,
    /// Disable the distributed hash table.
    pub no_dht: bool,
    /// Enable local peer discovery.
    pub lpd: bool,
    /// Disable local peer discovery.
    pub no_lpd: bool,
    /// Enable uTP for peer connections.
    pub utp: bool,
    /// Disable uTP for peer connections.
    pub no_utp: bool,
    /// Port for peer connections.
    pub peerport: Option<u16>,
    /// Enable port mapping via NAT-PMP or UPnP.
    pub portmap: bool,
    /// Disable port mapping.
    pub no_portmap: bool,
    /// Largest number of peers overall.
    pub peerlimit_global: Option<u16>,
    /// Largest number of peers of one torrent.
    pub peerlimit_torrent: Option<u16>,
    /// Encrypt all peer connections.
    pub encryption_required: bool,
    /// Prefer encrypted peer connections.
    pub encryption_preferred: bool,
    /// Prefer unencrypted peer connections.
    pub encryption_tolerated: bool,
    /// IPv4 address to listen on for peer connections.
    pub bind_address_ipv4: Option<Ipv4Address>,
    /// IPv6 address to listen on for peer connections.
    pub bind_address_ipv6: Option<Ipv6Address>,
    /// Address to listen on for remote control.
    pub rpc_bind_address: Option<IpAddress>,
    /// Ratio up to which all torrents seed.
    pub global_seedratio: Option<Ratio>,
    /// Seed regardless of ratio.
    pub no_global_seedratio: bool,
    /// Process id file.
    pub pid_file: Option<u32>,
}

/// What a [`RawOptions`] value holds, with texts as sequences of characters.
pub struct OptionsView {
    pub allowed: Seq<IpAddress>,
    pub blocklist: bool,
    pub no_blocklist: bool,
    pub watch_dir: Option<Seq<char>>,
    pub no_watch_dir: bool,
    pub incomplete_dir: Option<Seq<char>>,
    pub no_incomplete_dir: bool,
    pub dump_settings: bool,
    pub logfile: Option<Seq<char>>,
    pub foreground: bool,
    pub config_dir: Option<Seq<char>>,
    pub port: Option<u16>,
    pub auth: bool,
    pub no_auth: bool,
    pub username: Option<Seq<char>>,
    pub password: Option<Seq<char>>,
    pub log_error: bool,
    pub log_info: bool,
    pub log_debug: bool,
    pub download_dir: Option<Seq<char>>,
    pub paused: bool,
    pub dht: bool,
    pub no_dht: bool,
    pub lpd: bool,
    pub no_lpd: bool,
    pub utp: bool,
    pub no_utp: bool,
    pub peerport: Option<u16>,
    pub portmap: bool,
    pub no_portmap: bool,
    pub peerlimit_global: Option<u16>,
    pub peerlimit_torrent: Option<u16>,
    pub encryption_required: bool,
    pub encryption_preferred: bool,
    pub encryption_tolerated: bool,
    pub bind_address_ipv4: Option<Ipv4Address>,
    pub bind_address_ipv6: Option<Ipv6Address>,
    pub rpc_bind_address: Option<IpAddress>,
    pub global_seedratio: Option<Ratio>,
    pub no_global_seedratio: bool,
    pub pid_file: Option<u32>,
}

impl View for RawOptions {
    type V = OptionsView;

    open spec fn view(&self) -> OptionsView {
        OptionsView {
            allowed: self.allowed@,
            blocklist: self.blocklist,
            no_blocklist: self.no_blocklist,
            watch_dir: text_view(self.watch_dir),
            no_watch_dir: self.no_watch_dir,
            incomplete_dir: text_view(self.incomplete_dir),
            no_incomplete_dir: self.no_incomplete_dir,
            dump_settings: self.dump_settings,
            logfile: text_view(self.logfile),
            foreground: self.foreground,
            config_dir: text_view(self.config_dir),
            port: self.port,
            auth: self.auth,
            no_auth: self.no_auth,
            username: text_view(self.username),
            password: text_view(self.password),
            log_error: self.log_error,
            log_info: self.log_info,
            log_debug: self.log_debug,
            download_dir: text_view(self.download_dir),
            paused: self.paused,
            dht: self.dht,
            no_dht: self.no_dht,
            lpd: self.lpd,
            no_lpd: self.no_lpd,
            utp: self.utp,
            no_utp: self.no_utp,
            peerport: self.peerport,
            portmap: self.portmap,
            no_portmap: self.no_portmap,
            peerlimit_global: self.peerlimit_global,
            peerlimit_torrent: self.peerlimit_torrent,
            encryption_required: self.encryption_required,
            encryption_preferred: self.encryption_preferred,
            encryption_tolerated: self.encryption_tolerated,
            bind_address_ipv4: self.bind_address_ipv4,
            bind_address_ipv6: self.bind_address_ipv6,
            rpc_bind_address: self.rpc_bind_address,
            global_seedratio: self.global_seedratio,
            no_global_seedratio: self.no_global_seedratio,
            pid_file: self.pid_file,
        }
    }
}

impl OptionsView {
    /// The options of a command line without flags.
    pub open spec fn empty() -> OptionsView {
        OptionsView {
            allowed: Seq::empty(),
            blocklist: false,
            no_blocklist: false,
            watch_dir: None,
            no_watch_dir: false,
            incomplete_dir: None,
            no_incomplete_dir: false,
            dump_settings: false,
            logfile: None,
            foreground: false,
            config_dir: None,
            port: None,
            auth: false,
            no_auth: false,
            username: None,
            password: None,
            log_error: false,
            log_info: false,
            log_debug: false,
            download_dir: None,
            paused: false,
            dht: false,
            no_dht: false,
            lpd: false,
            no_lpd: false,
            utp: false,
            no_utp: false,
            peerport: None,
            portmap: false,
            no_portmap: false,
            peerlimit_global: None,
            peerlimit_torrent: None,
            encryption_required: false,
            encryption_preferred: false,
            encryption_tolerated: false,
            bind_address_ipv4: None,
            bind_address_ipv6: None,
            rpc_bind_address: None,
            global_seedratio: None,
            no_global_seedratio: false,
            pid_file: None,
        }
    }

    /// No flag was given.
    pub open spec fn is_empty(self) -> bool {
        self == OptionsView::empty()
    }
}

impl RawOptions {
    /// The options of a command line without flags.
    pub fn empty() -> (options: RawOptions)
        ensures
            options@ == OptionsView::empty(),
    {
        RawOptions {
            allowed: Vec::new(),
            blocklist: false,
            no_blocklist: false,
            watch_dir: None,
            no_watch_dir: false,
            incomplete_dir: None,
            no_incomplete_dir: false,
            dump_settings: false,
            logfile: None,
            foreground: false,
            config_dir: None,
            port: None,
            auth: false,
            no_auth: false,
            username: None,
            password: None,
            log_error: false,
            log_info: false,
            log_debug: false,
            download_dir: None,
            paused: false,
            dht: false,
            no_dht: false,
            lpd: false,
            no_lpd: false,
            utp: false,
            no_utp: false,
            peerport: None,
            portmap: false,
            no_portmap: false,
            peerlimit_global: None,
            peerlimit_torrent: None,
            encryption_required: false,
            encryption_preferred: false,
            encryption_tolerated: false,
            bind_address_ipv4: None,
            bind_address_ipv6: None,
            rpc_bind_address: None,
            global_seedratio: None,
            no_global_seedratio: false,
            pid_file: None,
        }
    }

    /// These options with one more address for `allowed`.
    pub fn with_allowed(self, address: IpAddress) -> (options: RawOptions)
        ensures
            options@ == (OptionsView { allowed: self@.allowed.push(address), ..self@ }),
    {
        let mut options = self;
        options.allowed.push(address);
        options
    }

    /// These options with the flag `blocklist` given.
    pub fn with_blocklist(self) -> (options: RawOptions)
        ensures
            options@ == (OptionsView { blocklist: true, ..self@ }),
    {
        RawOptions { blocklist: true, ..self }
    }

    /// These options with the flag `no_blocklist` given.
    pub fn with_no_blocklist(self) -> (options: RawOptions)
        ensures
            options@ == (OptionsView { no_blocklist: true, ..self@ }),
    {
        RawOptions { no_blocklist: true, ..self }
    }

    /// These options with a value for `watch_dir`.
    pub fn with_watch_dir(self, value: String) -> (options: RawOptions)
        ensures
            options@ == (OptionsView { watch_dir: Some(value@), ..self@ }),
    {
        RawOptions { watch_dir: Some(value), ..self }
    }

    /// These options with the flag `no_watch_dir` given.
    pub fn with_no_watch_dir(self) -> (options: RawOptions)
        ensures
            options@ == (OptionsView { no_watch_dir: true, ..self@ }),
    {
        RawOptions { no_watch_dir: true, ..self }
    }

    /// These options with a value for `incomplete_dir`.
    pub fn with_incomplete_dir(self, value: String) -> (options: RawOptions)
        ensures
            options@ == (OptionsView { incomplete_dir: Some(value@), ..self@ }),
    {
        RawOptions { incomplete_dir: Some(value), ..self }
    }

    /// These options with the flag `no_incomplete_dir` given.
    pub fn with_no_incomplete_dir(self) -> (options: RawOptions)
        ensures
            options@ == (OptionsView { no_incomplete_dir: true, ..self@ }),
    {
        RawOptions { no_incomplete_dir: true, ..self }
    }

    /// These options with the flag `dump_settings` given.
    pub fn with_dump_settings(self) -> (options: RawOptions)
        ensures
            options@ == (OptionsView { dump_settings: true, ..self@ }),
    {
        RawOptions { dump_settings: true, ..self }
    }

    /// These options with a value for `logfile`.
    pub fn with_logfile(self, value: String) -> (options: RawOptions)
        ensures
            options@ == (OptionsView { logfile: Some(value@), ..self@ }),
    {
        RawOptions { logfile: Some(value), ..self }
    }

    /// These options with the flag `foreground` given.
    pub fn with_foreground(self) -> (options: RawOptions)
        ensures
            options@ == (OptionsView { foreground: true, ..self@ }),
    {
        RawOptions { foreground: true, ..self }
    }

    /// These options with a value for `config_dir`.
    pub fn with_config_dir(self, value: String) -> (options: RawOptions)
        ensures
            options@ == (OptionsView { config_dir: Some(value@), ..self@ }),
    {
        RawOptions { config_dir: Some(value), ..self }
    }

    /// These options with a value for `port`.
    pub fn with_port(self, value: u16) -> (options: RawOptions)
        ensures
            options@ == (OptionsView { port: Some(value), ..self@ }),
    {
        RawOptions { port: Some(value), ..self }
    }

    /// These options with the flag `auth` given.
    pub fn with_auth(self) -> (options: RawOptions)
        ensures
            options@ == (OptionsView { auth: true, ..self@ }),
    {
        RawOptions { auth: true, ..self }
    }

    /// These options with the flag `no_auth` given.
    pub fn with_no_auth(self) -> (options: RawOptions)
        ensures
            options@ == (OptionsView { no_auth: true, ..self@ }),
    {
        RawOptions { no_auth: true, ..self }
    }

    /// These options with a value for `username`.
    pub fn with_username(self, value: String) -> (options: RawOptions)
        ensures
            options@ == (OptionsView { username: Some(value@), ..self@ }),
    {
        RawOptions { username: Some(value), ..self }
    }

    /// These options with a value for `password`.
    pub fn with_password(self, value: String) -> (options: RawOptions)
        ensures
            options@ == (OptionsView { password: Some(value@), ..self@ }),
    {
        RawOptions { password: Some(value), ..self }
    }

    /// These options with the flag `log_error` given.
    pub fn with_log_error(self) -> (options: RawOptions)
        ensures
            options@ == (OptionsView { log_error: true, ..self@ }),
    {
        RawOptions { log_error: true, ..self }
    }

    /// These options with the flag `log_info` given.
    pub fn with_log_info(self) -> (options: RawOptions)
        ensures
            options@ == (OptionsView { log_info: true, ..self@ }),
    {
        RawOptions { log_info: true, ..self }
    }

    /// These options with the flag `log_debug` given.
    pub fn with_log_debug(self) -> (options: RawOptions)
        ensures
            options@ == (OptionsView { log_debug: true, ..self@ }),
    {
        RawOptions { log_debug: true, ..self }
    }

    /// These options with a value for `download_dir`.
    pub fn with_download_dir(self, value: String) -> (options: RawOptions)
        ensures
            options@ == (OptionsView { download_dir: Some(value@), ..self@ }),
    {
        RawOptions { download_dir: Some(value), ..self }
    }

    /// These options with the flag `paused` given.
    pub fn with_paused(self) -> (options: RawOptions)
        ensures
            options@ == (OptionsView { paused: true, ..self@ }),
    {
        RawOptions { paused: true, ..self }
    }

    /// These options with the flag `dht` given.
    pub fn with_dht(self) -> (options: RawOptions)
        ensures
            options@ == (OptionsView { dht: true, ..self@ }),
    {
        RawOptions { dht: true, ..self }
    }

    /// These options with the flag `no_dht` given.
    pub fn with_no_dht(self) -> (options: RawOptions)
        ensures
            options@ == (OptionsView { no_dht: true, ..self@ }),
    {
        RawOptions { no_dht: true, ..self }
    }

    /// These options with the flag `lpd` given.
    pub fn with_lpd(self) -> (options: RawOptions)
        ensures
            options@ == (OptionsView { lpd: true, ..self@ }),
    {
        RawOptions { lpd: true, ..self }
    }

    /// These options with the flag `no_lpd` given.
    pub fn with_no_lpd(self) -> (options: RawOptions)
        ensures
            options@ == (OptionsView { no_lpd: true, ..self@ }),
    {
        RawOptions { no_lpd: true, ..self }
    }

    /// These options with the flag `utp` given.
    pub fn with_utp(self) -> (options: RawOptions)
        ensures
            options@ == (OptionsView { utp: true, ..self@ }),
    {
        RawOptions { utp: true, ..self }
    }

    /// These options with the flag `no_utp` given.
    pub fn with_no_utp(self) -> (options: RawOptions)
        ensures
            options@ == (OptionsView { no_utp: true, ..self@ }),
    {
        RawOptions { no_utp: true, ..self }
    }

    /// These options with a value for `peerport`.
    pub fn with_peerport(self, value: u16) -> (options: RawOptions)
        ensures
            options@ == (OptionsView { peerport: Some(value), ..self@ }),
    {
        RawOptions { peerport: Some(value), ..self }
    }

    /// These options with the flag `portmap` given.
    pub fn with_portmap(self) -> (options: RawOptions)
        ensures
            options@ == (OptionsView { portmap: true, ..self@ }),
    {
        RawOptions { portmap: true, ..self }
    }

    /// These options with the flag `no_portmap` given.
    pub fn with_no_portmap(self) -> (options: RawOptions)
        ensures
            options@ == (OptionsView { no_portmap: true, ..self@ }),
    {
        RawOptions { no_portmap: true, ..self }
    }

    /// These options with a value for `peerlimit_global`.
    pub fn with_peerlimit_global(self, value: u16) -> (options: RawOptions)
        ensures
            options@ == (OptionsView { peerlimit_global: Some(value), ..self@ }),
    {
        RawOptions { peerlimit_global: Some(value), ..self }
    }

    /// These options with a value for `peerlimit_torrent`.
    pub fn with_peerlimit_torrent(self, value: u16) -> (options: RawOptions)
        ensures
            options@ == (OptionsView { peerlimit_torrent: Some(value), ..self@ }),
    {
        RawOptions { peerlimit_torrent: Some(value), ..self }
    }

    /// These options with the flag `encryption_required` given.
    pub fn with_encryption_required(self) -> (options: RawOptions)
        ensures
            options@ == (OptionsView { encryption_required: true, ..self@ }),
    {
        RawOptions { encryption_required: true, ..self }
    }

    /// These options with the flag `encryption_preferred` given.
    pub fn with_encryption_preferred(self) -> (options: RawOptions)
        ensures
            options@ == (OptionsView { encryption_preferred: true, ..self@ }),
    {
        RawOptions { encryption_preferred: true, ..self }
    }

    /// These options with the flag `encryption_tolerated` given.
    pub fn with_encryption_tolerated(self) -> (options: RawOptions)
        ensures
            options@ == (OptionsView { encryption_tolerated: true, ..self@ }),
    {
        RawOptions { encryption_tolerated: true, ..self }
    }

    /// These options with a value for `bind_address_ipv4`.
    pub fn with_bind_address_ipv4(self, value: Ipv4Address) -> (options: RawOptions)
        ensures
            options@ == (OptionsView { bind_address_ipv4: Some(value), ..self@ }),
    {
        RawOptions { bind_address_ipv4: Some(value), ..self }
    }

    /// These options with a value for `bind_address_ipv6`.
    pub fn with_bind_address_ipv6(self, value: Ipv6Address) -> (options: RawOptions)
        ensures
            options@ == (OptionsView { bind_address_ipv6: Some(value), ..self@ }),
    {
        RawOptions { bind_address_ipv6: Some(value), ..self }
    }

    /// These options with a value for `rpc_bind_address`.
    pub fn with_rpc_bind_address(self, value: IpAddress) -> (options: RawOptions)
        ensures
            options@ == (OptionsView { rpc_bind_address: Some(value), ..self@ }),
    {
        RawOptions { rpc_bind_address: Some(value), ..self }
    }

    /// These options with a value for `global_seedratio`.
    pub fn with_global_seedratio(self, value: Ratio) -> (options: RawOptions)
        ensures
            options@ == (OptionsView { global_seedratio: Some(value), ..self@ }),
    {
        RawOptions { global_seedratio: Some(value), ..self }
    }

    /// These options with the flag `no_global_seedratio` given.
    pub fn with_no_global_seedratio(self) -> (options: RawOptions)
        ensures
            options@ == (OptionsView { no_global_seedratio: true, ..self@ }),
    {
        RawOptions { no_global_seedratio: true, ..self }
    }

    /// These options with a value for `pid_file`.
    pub fn with_pid_file(self, value: u32) -> (options: RawOptions)
        ensures
            options@ == (OptionsView { pid_file: Some(value), ..self@ }),
    {
        RawOptions { pid_file: Some(value), ..self }
    }
}

/// Why a command line could not be read. Each error names the field of
/// [`RawOptions`] that the flag at fault belongs to.
#[derive(Clone, Debug, PartialEq, Eq)]
pub enum ParseError {
    /// The value of an address flag is no address; holds the field and the
    /// value as it was given.
    InvalidAddress(&'static str, String),
    /// The value of a directory flag names no existing directory; holds the
    /// field and the value.
    InvalidPath(&'static str, String),
    /// The value of a number flag is no number or one out of range; holds the
    /// field and the value.
    InvalidNumber(&'static str, String),
    /// An argument is not a flag; holds the argument.
    UnknownArgument(String),
    /// The last argument is a flag that takes a value.
    MissingValue(&'static str),
    /// A flag that takes no value was given one with `=`; holds the field and
    /// the value.
    UnexpectedValue(&'static str, String),
    /// A flag that may be given once was given again.
    RepeatedFlag(&'static str),
}

/// What a [`ParseError`] holds, with texts as sequences of characters.
pub enum ParseErrorView {
    InvalidAddress(&'static str, Seq<char>),
    InvalidPath(&'static str, Seq<char>),
    InvalidNumber(&'static str, Seq<char>),
    UnknownArgument(Seq<char>),
    MissingValue(&'static str),
    UnexpectedValue(&'static str, Seq<char>),
    RepeatedFlag(&'static str),
}

impl View for ParseError {
    type V = ParseErrorView;

    open spec fn view(&self) -> ParseErrorView {
        match self {
            ParseError::InvalidAddress(field, value) => ParseErrorView::InvalidAddress(
                field,
                value@,
            ),
            ParseError::InvalidPath(field, value) => ParseErrorView::InvalidPath(field, value@),
            ParseError::InvalidNumber(field, value) => ParseErrorView::InvalidNumber(field, value@),
            ParseError::UnknownArgument(argument) => ParseErrorView::UnknownArgument(argument@),
            ParseError::MissingValue(field) => ParseErrorView::MissingValue(field),
            ParseError::UnexpectedValue(field, value) => ParseErrorView::UnexpectedValue(
                field,
                value@,
            ),
            ParseError::RepeatedFlag(field) => ParseErrorView::RepeatedFlag(field),
        }
    }
}

/// The view of what reading a command line came to.
pub open spec fn outcome_view(outcome: Result<RawOptions, ParseError>) -> Result<
    OptionsView,
    ParseErrorView,
> {
    match outcome {
        Ok(options) => Ok(options@),
        Err(error) => Err(error@),
    }
}

} // verus!
