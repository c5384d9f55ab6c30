//! The flags of the command line and their names.

use crate::text::spells;
use vstd::prelude::*;

verus! {

/// The flags of the command line.
#[derive(Clone, Copy, Debug, PartialEq, Eq, Structural)]
pub enum Flag {
    /// `--allowed`, `-a`
    Allowed,
    /// `--blocklist`, `-b`
    Blocklist,
    /// `--no-blocklist`, `-B`
    NoBlocklist,
    /// `--watch-dir`, `-c`
    WatchDir,
    /// `--no-watch-dir`, `-C`
    NoWatchDir,
    /// `--incomplete-dir`
    IncompleteDir,
    /// `--no-incomplete-dir`
    NoIncompleteDir,
    /// `--dump-settings`, `-d`
    DumpSettings,
    /// `--logfile`, `-e`
    Logfile,
    /// `--foreground`, `-f`
    Foreground,
    /// `--config-dir`, `-g`
    ConfigDir,
    /// `--port`, `-p`
    Port,
    /// `--auth`, `-t`
    Auth,
    /// `--no-auth`, `-T`
    NoAuth,
    /// `--username`, `-u`
    Username,
    /// `--password`, `-v`
    Password,
    /// `--log-error`
    LogError,
    /// `--log-info`
    LogInfo,
    /// `--log-debug`
    LogDebug,
    /// `--download-dir`, `-w`
    DownloadDir,
    /// `--paused`
    Paused,
    /// `--dht`, `-o`
    Dht,
    /// `--no-dht`, `-O`
    NoDht,
    /// `--lpd`, `-y`
    Lpd,
    /// `--no-lpd`, `-Y`
    NoLpd,
    /// `--utp`
    Utp,
    /// `--no-utp`
    NoUtp,
    /// `--peerport`, `-P`
    Peerport,
    /// `--portmap`, `-m`
    Portmap,
    /// `--no-portmap`, `-M`
    NoPortmap,
    /// `--peerlimit-global`, `-L`
    PeerlimitGlobal,
    /// `--peerlimit-torrent`, `-l`
    PeerlimitTorrent,
    /// `--encryption-required`
    EncryptionRequired,
    /// `--encryption-preferred`
    EncryptionPreferred,
    /// `--encryption-tolerated`
    EncryptionTolerated,
    /// `--bind-address-ipv4`, `-i`
    BindAddressIpv4,
    /// `--bind-address-ipv6`, `-I`
    BindAddressIpv6,
    /// `--rpc-bind-address`, `-r`
    RpcBindAddress,
    /// `--global-seedratio`
    GlobalSeedratio,
    /// `--no-global-seedratio`
    NoGlobalSeedratio,
    /// `--pid-file`, `-x`
    PidFile,
}

impl Flag {
    /// The field of [`RawOptions`] that the flag fills.
    pub open spec fn field(self) -> &'static str {
        match self {
            Flag::Allowed => "allowed",
            Flag::Blocklist => "blocklist",
            Flag::NoBlocklist => "no_blocklist",
            Flag::WatchDir => "watch_dir",
            Flag::NoWatchDir => "no_watch_dir",
            Flag::IncompleteDir => "incomplete_dir",
            Flag::NoIncompleteDir => "no_incomplete_dir",
            Flag::DumpSettings => "dump_settings",
            Flag::Logfile => "logfile",
            Flag::Foreground => "foreground",
            Flag::ConfigDir => "config_dir",
            Flag::Port => "port",
            Flag::Auth => "auth",
            Flag::NoAuth => "no_auth",
            Flag::Username => "username",
            Flag::Password => "password",
            Flag::LogError => "log_error",
            Flag::LogInfo => "log_info",
            Flag::LogDebug => "log_debug",
            Flag::DownloadDir => "download_dir",
            Flag::Paused => "paused",
            Flag::Dht => "dht",
            Flag::NoDht => "no_dht",
            Flag::Lpd => "lpd",
            Flag::NoLpd => "no_lpd",
            Flag::Utp => "utp",
            Flag::NoUtp => "no_utp",
            Flag::Peerport => "peerport",
            Flag::Portmap => "portmap",
            Flag::NoPortmap => "no_portmap",
            Flag::PeerlimitGlobal => "peerlimit_global",
            Flag::PeerlimitTorrent => "peerlimit_torrent",
            Flag::EncryptionRequired => "encryption_required",
            Flag::EncryptionPreferred => "encryption_preferred",
            Flag::EncryptionTolerated => "encryption_tolerated",
            Flag::BindAddressIpv4 => "bind_address_ipv4",
            Flag::BindAddressIpv6 => "bind_address_ipv6",
            Flag::RpcBindAddress => "rpc_bind_address",
            Flag::GlobalSeedratio => "global_seedratio",
            Flag::NoGlobalSeedratio => "no_global_seedratio",
            Flag::PidFile => "pid_file",
        }
    }

    /// Whether the flag is followed by a value.
    pub open spec fn takes_value(self) -> bool {
        match self {
            Flag::Allowed
            | Flag::WatchDir
            | Flag::IncompleteDir
            | Flag::Logfile
            | Flag::ConfigDir
            | Flag::Port
            | Flag::Username
            | Flag::Password
            | Flag::DownloadDir
            | Flag::Peerport
            | Flag::PeerlimitGlobal
            | Flag::PeerlimitTorrent
            | Flag::BindAddressIpv4
            | Flag::BindAddressIpv6
            | Flag::RpcBindAddress
            | Flag::GlobalSeedratio
            | Flag::PidFile => true,
            _ => false,
        }
    }

    /// The number that the flag stands for where it is not given and
    /// nothing was persisted: the setting of a fresh installation.
    pub open spec fn default_number(self) -> Option<u16> {
        match self {
            Flag::Port => Some(9091),
            Flag::Peerport => Some(51413),
            Flag::PeerlimitGlobal => Some(200),
            Flag::PeerlimitTorrent => Some(50),
            _ => None,
        }
    }

    /// Computes [`Flag::default_number`].
    pub fn default_value(self) -> (number: Option<u16>)
        ensures
            number == self.default_number(),
    {
        match self {
            Flag::Port => Some(9091),
            Flag::Peerport => Some(51413),
            Flag::PeerlimitGlobal => Some(200),
            Flag::PeerlimitTorrent => Some(50),
            _ => None,
        }
    }

    /// Computes [`Flag::field`].
    pub fn field_name(self) -> (name: &'static str)
        ensures
            name == self.field(),
    {
        match self {
            Flag::Allowed => "allowed",
            Flag::Blocklist => "blocklist",
            Flag::NoBlocklist => "no_blocklist",
            Flag::WatchDir => "watch_dir",
            Flag::NoWatchDir => "no_watch_dir",
            Flag::IncompleteDir => "incomplete_dir",
            Flag::NoIncompleteDir => "no_incomplete_dir",
            Flag::DumpSettings => "dump_settings",
            Flag::Logfile => "logfile",
            Flag::Foreground => "foreground",
            Flag::ConfigDir => "config_dir",
            Flag::Port => "port",
            Flag::Auth => "auth",
            Flag::NoAuth => "no_auth",
            Flag::Username => "username",
            Flag::Password => "password",
            Flag::LogError => "log_error",
            Flag::LogInfo => "log_info",
            Flag::LogDebug => "log_debug",
            Flag::DownloadDir => "download_dir",
            Flag::Paused => "paused",
            Flag::Dht => "dht",
            Flag::NoDht => "no_dht",
            Flag::Lpd => "lpd",
            Flag::NoLpd => "no_lpd",
            Flag::Utp => "utp",
            Flag::NoUtp => "no_utp",
            Flag::Peerport => "peerport",
            Flag::Portmap => "portmap",
            Flag::NoPortmap => "no_portmap",
            Flag::PeerlimitGlobal => "peerlimit_global",
            Flag::PeerlimitTorrent => "peerlimit_torrent",
            Flag::EncryptionRequired => "encryption_required",
            Flag::EncryptionPreferred => "encryption_preferred",
            Flag::EncryptionTolerated => "encryption_tolerated",
            Flag::BindAddressIpv4 => "bind_address_ipv4",
            Flag::BindAddressIpv6 => "bind_address_ipv6",
            Flag::RpcBindAddress => "rpc_bind_address",
            Flag::GlobalSeedratio => "global_seedratio",
            Flag::NoGlobalSeedratio => "no_global_seedratio",
            Flag::PidFile => "pid_file",
        }
    }

    /// Computes [`Flag::takes_value`].
    pub fn has_value(self) -> (yes: bool)
        ensures
            yes == self.takes_value(),
    {
        match self {
            Flag::Allowed
            | Flag::WatchDir
            | Flag::IncompleteDir
            | Flag::Logfile
            | Flag::ConfigDir
            | Flag::Port
            | Flag::Username
            | Flag::Password
            | Flag::DownloadDir
            | Flag::Peerport
            | Flag::PeerlimitGlobal
            | Flag::PeerlimitTorrent
            | Flag::BindAddressIpv4
            | Flag::BindAddressIpv6
            | Flag::RpcBindAddress
            | Flag::GlobalSeedratio
            | Flag::PidFile => true,
            _ => false,
        }
    }
}

/// The flag that `word` spells, by its long name after `--` or by its letter
/// after `-`.
#[verifier::opaque]
pub open spec fn flag_named(word: Seq<char>) -> Option<Flag> {
    if word == "--allowed"@ || word == "-a"@ {
        Some(Flag::Allowed)
    } else if word == "--blocklist"@ || word == "-b"@ {
        Some(Flag::Blocklist)
    } else if word == "--no-blocklist"@ || word == "-B"@ {
        Some(Flag::NoBlocklist)
    } else if word == "--watch-dir"@ || word == "-c"@ {
        Some(Flag::WatchDir)
    } else if word == "--no-watch-dir"@ || word == "-C"@ {
        Some(Flag::NoWatchDir)
    } else if word == "--incomplete-dir"@ {
        Some(Flag::IncompleteDir)
    } else if word == "--no-incomplete-dir"@ {
        Some(Flag::NoIncompleteDir)
    } else if word == "--dump-settings"@ || word == "-d"@ {
        Some(Flag::DumpSettings)
    } else if word == "--logfile"@ || word == "-e"@ {
        Some(Flag::Logfile)
    } else if word == "--foreground"@ || word == "-f"@ {
        Some(Flag::Foreground)
    } else if word == "--config-dir"@ || word == "-g"@ {
        Some(Flag::ConfigDir)
    } else if word == "--port"@ || word == "-p"@ {
        Some(Flag::Port)
    } else if word == "--auth"@ || word == "-t"@ {
        Some(Flag::Auth)
    } else if word == "--no-auth"@ || word == "-T"@ {
        Some(Flag::NoAuth)
    } else if word == "--username"@ || word == "-u"@ {
        Some(Flag::Username)
    } else if word == "--password"@ || word == "-v"@ {
        Some(Flag::Password)
    } else if word == "--log-error"@ {
        Some(Flag::LogError)
    } else if word == "--log-info"@ {
        Some(Flag::LogInfo)
    } else if word == "--log-debug"@ {
        Some(Flag::LogDebug)
    } else if word == "--download-dir"@ || word == "-w"@ {
        Some(Flag::DownloadDir)
    } else if word == "--paused"@ {
        Some(Flag::Paused)
    } else if word == "--dht"@ || word == "-o"@ {
        Some(Flag::Dht)
    } else if word == "--no-dht"@ || word == "-O"@ {
        Some(Flag::NoDht)
    } else if word == "--lpd"@ || word == "-y"@ {
        Some(Flag::Lpd)
    } else if word == "--no-lpd"@ || word == "-Y"@ {
        Some(Flag::NoLpd)
    } else if word == "--utp"@ {
        Some(Flag::Utp)
    } else if word == "--no-utp"@ {
        Some(Flag::NoUtp)
    } else if word == "--peerport"@ || word == "-P"@ {
        Some(Flag::Peerport)
    } else if word == "--portmap"@ || word == "-m"@ {
        Some(Flag::Portmap)
    } else if word == "--no-portmap"@ || word == "-M"@ {
        Some(Flag::NoPortmap)
    } else if word == "--peerlimit-global"@ || word == "-L"@ {
        Some(Flag::PeerlimitGlobal)
    } else if word == "--peerlimit-torrent"@ || word == "-l"@ {
        Some(Flag::PeerlimitTorrent)
    } else if word == "--encryption-required"@ {
        Some(Flag::EncryptionRequired)
    } else if word == "--encryption-preferred"@ {
        Some(Flag::EncryptionPreferred)
    } else if word == "--encryption-tolerated"@ {
        Some(Flag::EncryptionTolerated)
    } else if word == "--bind-address-ipv4"@ || word == "-i"@ {
        Some(Flag::BindAddressIpv4)
    } else if word == "--bind-address-ipv6"@ || word == "-I"@ {
        Some(Flag::BindAddressIpv6)
    } else if word == "--rpc-bind-address"@ || word == "-r"@ {
        Some(Flag::RpcBindAddress)
    } else if word == "--global-seedratio"@ {
        Some(Flag::GlobalSeedratio)
    } else if word == "--no-global-seedratio"@ {
        Some(Flag::NoGlobalSeedratio)
    } else if word == "--pid-file"@ || word == "-x"@ {
        Some(Flag::PidFile)
    } else {
        None
    }
}

/// Computes [`flag_named`].
pub fn find_flag(word: &Vec<char>) -> (flag: Option<Flag>)
    ensures
        flag == flag_named(word@),
{
    reveal(flag_named);
    if spells(word, "--allowed") || spells(word, "-a") {
        return Some(Flag::Allowed);
    }
    if spells(word, "--blocklist") || spells(word, "-b") {
        return Some(Flag::Blocklist);
    }
    if spells(word, "--no-blocklist") || spells(word, "-B") {
        return Some(Flag::NoBlocklist);
    }
    if spells(word, "--watch-dir") || spells(word, "-c") {
        return Some(Flag::WatchDir);
    }
    if spells(word, "--no-watch-dir") || spells(word, "-C") {
        return Some(Flag::NoWatchDir);
    }
    if spells(word, "--incomplete-dir") {
        return Some(Flag::IncompleteDir);
    }
    if spells(word, "--no-incomplete-dir") {
        return Some(Flag::NoIncompleteDir);
    }
    if spells(word, "--dump-settings") || spells(word, "-d") {
        return Some(Flag::DumpSettings);
    }
    if spells(word, "--logfile") || spells(word, "-e") {
        return Some(Flag::Logfile);
    }
    if spells(word, "--foreground") || spells(word, "-f") {
        return Some(Flag::Foreground);
    }
    if spells(word, "--config-dir") || spells(word, "-g") {
        return Some(Flag::ConfigDir);
    }
    if spells(word, "--port") || spells(word, "-p") {
        return Some(Flag::Port);
    }
    if spells(word, "--auth") || spells(word, "-t") {
        return Some(Flag::Auth);
    }
    if spells(word, "--no-auth") || spells(word, "-T") {
        return Some(Flag::NoAuth);
    }
    if spells(word, "--username") || spells(word, "-u") {
        return Some(Flag::Username);
    }
    if spells(word, "--password") || spells(word, "-v") {
        return Some(Flag::Password);
    }
    if spells(word, "--log-error") {
        return Some(Flag::LogError);
    }
    if spells(word, "--log-info") {
        return Some(Flag::LogInfo);
    }
    if spells(word, "--log-debug") {
        return Some(Flag::LogDebug);
    }
    if spells(word, "--download-dir") || spells(word, "-w") {
        return Some(Flag::DownloadDir);
    }
    if spells(word, "--paused") {
        return Some(Flag::Paused);
    }
    if spells(word, "--dht") || spells(word, "-o") {
        return Some(Flag::Dht);
    }
    if spells(word, "--no-dht") || spells(word, "-O") {
        return Some(Flag::NoDht);
    }
    if spells(word, "--lpd") || spells(word, "-y") {
        return Some(Flag::Lpd);
    }
    if spells(word, "--no-lpd") || spells(word, "-Y") {
        return Some(Flag::NoLpd);
    }
    if spells(word, "--utp") {
        return Some(Flag::Utp);
    }
    if spells(word, "--no-utp") {
        return Some(Flag::NoUtp);
    }
    if spells(word, "--peerport") || spells(word, "-P") {
        return Some(Flag::Peerport);
    }
    if spells(word, "--portmap") || spells(word, "-m") {
        return Some(Flag::Portmap);
    }
    if spells(word, "--no-portmap") || spells(word, "-M") {
        return Some(Flag::NoPortmap);
    }
    if spells(word, "--peerlimit-global") || spells(word, "-L") {
        return Some(Flag::PeerlimitGlobal);
    }
    if spells(word, "--peerlimit-torrent") || spells(word, "-l") {
        return Some(Flag::PeerlimitTorrent);
    }
    if spells(word, "--encryption-required") {
        return Some(Flag::EncryptionRequired);
    }
    if spells(word, "--encryption-preferred") {
        return Some(Flag::EncryptionPreferred);
    }
    if spells(word, "--encryption-tolerated") {
        return Some(Flag::EncryptionTolerated);
    }
    if spells(word, "--bind-address-ipv4") || spells(word, "-i") {
        return Some(Flag::BindAddressIpv4);
    }
    if spells(word, "--bind-address-ipv6") || spells(word, "-I") {
        return Some(Flag::BindAddressIpv6);
    }
    if spells(word, "--rpc-bind-address") || spells(word, "-r") {
        return Some(Flag::RpcBindAddress);
    }
    if spells(word, "--global-seedratio") {
        return Some(Flag::GlobalSeedratio);
    }
    if spells(word, "--no-global-seedratio") {
        return Some(Flag::NoGlobalSeedratio);
    }
    if spells(word, "--pid-file") || spells(word, "-x") {
        return Some(Flag::PidFile);
    }
    None
}

} // verus!
