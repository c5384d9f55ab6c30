//! The canonical settings of a session: every parameter of the daemon with its
//! type, its default and its bounds.

use crate::address::{IpAddress, Ipv4Address, Ipv6Address};
use crate::paths::{config_dir_choice, resolve_config_dir};
use crate::text::{text_view, texts_view};
use crate::urls::{canonical_url, url_canonical};
use vstd::prelude::*;

verus! {

/// The blocklist address of a fresh installation, before it is brought into
/// canonical form.
pub const DEFAULT_BLOCKLIST_URL: &'static str = "http://www.example.com/blocklist";

/// Largest minute of a day.
pub const MAX_MINUTE_OF_DAY: u16 = 1439;

/// How peer connections are encrypted.
#[derive(Clone, Copy, Debug, PartialEq, Eq, Structural)]
pub enum EncryptionMode {
    /// Unencrypted connections are preferred.
    ClearPreferred,
    /// Encrypted connections are preferred.
    EncryptionPreferred,
    /// Only encrypted connections are made.
    EncryptionRequired,
}

/// How much is logged, from the least to the most.
#[derive(Clone, Copy, Debug, PartialEq, Eq, Structural)]
pub enum LogLevel {
    Error,
    Info,
    Debug,
    Firehose,
}

/// How disk space is set aside for new files.
#[derive(Clone, Copy, Debug, PartialEq, Eq, Structural)]
pub enum PreallocationMode {
    /// No space is set aside; documents call this mode `None`.
    Off,
    /// Files are created sparse.
    Sparse,
    /// Files are written out in full.
    Full,
}

/// A non-negative ratio with three decimal places.
#[derive(Clone, Copy, Debug, PartialEq, Eq, Structural)]
pub struct Ratio {
    /// The ratio times one thousand.
    pub thousandths: u32,
}

impl LogLevel {
    /// Position in the order of verbosity: a level logs what the levels below it log.
    pub open spec fn rank(self) -> nat {
        match self {
            LogLevel::Error => 0,
            LogLevel::Info => 1,
            LogLevel::Debug => 2,
            LogLevel::Firehose => 3,
        }
    }

    /// Computes [`LogLevel::rank`].
    pub fn verbosity(self) -> (rank: u8)
        ensures
            rank == self.rank(),
    {
        match self {
            LogLevel::Error => 0,
            LogLevel::Info => 1,
            LogLevel::Debug => 2,
            LogLevel::Firehose => 3,
        }
    }
}

/// The settings a session runs with.
#[derive(Clone, Debug, PartialEq, Eq)]
pub struct SessionSettings {
    /// Peer blocklists are applied.
    pub blocklist_enabled: bool,
    /// Where the blocklist is fetched from, in the canonical form of a URL.
    pub blocklist_url: String,
    /// Size of the disk cache, in megabytes.
    pub cache_size_mb: u16,
    /// The distributed hash table is used to find peers.
    pub dht_enabled: bool,
    /// Peers may be reached over uTP.
    pub utp_enabled: bool,
    /// Peers are looked for on the local network.
    pub ltp_enabled: bool,
    /// Where downloaded data is saved.
    pub download_dir: Option<String>,
    /// Download speed limit.
    pub speed_limit_down: u16,
    /// The download speed limit is in force.
    pub speed_limit_down_enabled: bool,
    /// How peer connections are encrypted.
    pub encryption: EncryptionMode,
    /// Minutes after which an idle seeding torrent is stopped.
    pub idle_seeding_limit: u16,
    /// The idle seeding limit is in force.
    pub idle_seeding_limit_enabled: bool,
    /// Where torrents are kept until they are complete.
    pub incomplete_dir: Option<String>,
    /// `incomplete_dir` is honoured.
    pub incomplete_dir_enabled: bool,
    /// How much is logged.
    pub message_level: LogLevel,
    /// Number of torrents that download at once.
    pub download_queue_size: u32,
    /// The download queue is in force.
    pub download_queue_enabled: bool,
    /// Largest number of peers overall.
    pub peer_limit_global: u16,
    /// Largest number of peers of one torrent.
    pub peer_limit_per_torrent: u16,
    /// Port on which peers connect.
    pub peer_port: u16,
    /// A random peer port is picked at every start.
    pub peer_port_random_on_start: bool,
    /// Lowest port a random pick may give.
    pub peer_port_random_low: u16,
    /// Highest port a random pick may give.
    pub peer_port_random_high: u16,
    /// Type of service of peer sockets.
    pub peer_socket_tos: String,
    /// Peers are exchanged with other peers.
    pub pex_enabled: bool,
    /// The peer port is mapped with NAT-PMP or UPnP.
    pub port_forwarding_enabled: bool,
    /// How disk space is set aside for new files.
    pub preallocation: PreallocationMode,
    /// Blocks are read ahead of requests.
    pub prefetch_enabled: bool,
    /// Hours for which a peer id is kept.
    pub peer_id_ttl_hours: u16,
    /// Stalled torrents do not count against the queue.
    pub queue_stalled_enabled: bool,
    /// Minutes without traffic after which a torrent counts as stalled.
    pub queue_stalled_minutes: u16,
    /// Ratio up to which torrents are seeded.
    pub ratio_limit: Ratio,
    /// The ratio limit is in force.
    pub ratio_limit_enabled: bool,
    /// Unfinished files carry a `.part` suffix.
    pub rename_partial_files: bool,
    /// Remote control asks for a user name and password.
    pub rpc_authentication_required: bool,
    /// Address on which remote control listens.
    pub rpc_bind_enabled_address: IpAddress,
    /// Remote control is available.
    pub rpc_enabled: bool,
    /// Password for remote control.
    pub rpc_password: String,
    /// User name for remote control.
    pub rpc_username: String,
    /// Addresses that may use remote control.
    pub rpc_whitelist: Vec<IpAddress>,
    /// `rpc_whitelist` is in force.
    pub rpc_whitelist_enabled: bool,
    /// Host names under which remote control may be reached.
    pub rpc_host_whitelist: Vec<String>,
    /// `rpc_host_whitelist` is in force.
    pub rpc_host_whitelist_enabled: bool,
    /// Port on which remote control listens.
    pub rpc_port: u16,
    /// Path under which remote control is served.
    pub rpc_url: String,
    /// Paused torrents are scraped too.
    pub scrape_paused_torrents_enabled: bool,
    /// Script run when a torrent is done.
    pub script_torrent_done_filename: String,
    /// `script_torrent_done_filename` is honoured.
    pub script_torrent_done_enabled: bool,
    /// Number of torrents that seed at once.
    pub seed_queue_size: u16,
    /// The seed queue is in force.
    pub seed_queue_enabled: bool,
    /// The alternative speed limits are in force.
    pub alt_speed_enabled: bool,
    /// Alternative upload speed limit.
    pub alt_speed_up: u16,
    /// Alternative download speed limit.
    pub alt_speed_down: u16,
    /// Minute of the day at which the alternative limits start.
    pub alt_speed_time_begin: u16,
    /// The alternative limits follow the clock.
    pub alt_speed_time_enabled: bool,
    /// Minute of the day at which the alternative limits end.
    pub alt_speed_time_end: u16,
    /// Days of the week on which the alternative limits follow the clock.
    pub alt_speed_time_day: u16,
    /// Upload speed limit.
    pub speed_limit_up: u16,
    /// The upload speed limit is in force.
    pub speed_limit_up_enabled: bool,
    /// File mode mask for downloaded files.
    pub umask: u16,
    /// Number of peers one torrent uploads to at once.
    pub upload_slots_per_torrent: u16,
    /// IPv4 address on which peers connect.
    pub bind_address_ipv4: Ipv4Address,
    /// IPv6 address on which peers connect.
    pub bind_address_ipv6: Ipv6Address,
    /// Added torrents start at once.
    pub start_added_torrents: bool,
    /// The `.torrent` file is deleted once added.
    pub trash_original_torrent_files: bool,
    /// Where new `.torrent` files are looked for.
    pub watch_dir: Option<String>,
    /// `watch_dir` is honoured.
    pub watch_dir_enabled: bool,
}

/// What a [`SessionSettings`] value holds, with texts as sequences of characters.
pub struct SettingsView {
    pub blocklist_enabled: bool,
    pub blocklist_url: Seq<char>,
    pub cache_size_mb: u16,
    pub dht_enabled: bool,
    pub utp_enabled: bool,
    pub ltp_enabled: bool,
    pub download_dir: Option<Seq<char>>,
    pub speed_limit_down: u16,
    pub speed_limit_down_enabled: bool,
    pub encryption: EncryptionMode,
    pub idle_seeding_limit: u16,
    pub idle_seeding_limit_enabled: bool,
    pub incomplete_dir: Option<Seq<char>>,
    pub incomplete_dir_enabled: bool,
    pub message_level: LogLevel,
    pub download_queue_size: u32,
    pub download_queue_enabled: bool,
    pub peer_limit_global: u16,
    pub peer_limit_per_torrent: u16,
    pub peer_port: u16,
    pub peer_port_random_on_start: bool,
    pub peer_port_random_low: u16,
    pub peer_port_random_high: u16,
    pub peer_socket_tos: Seq<char>,
    pub pex_enabled: bool,
    pub port_forwarding_enabled: bool,
    pub preallocation: PreallocationMode,
    pub prefetch_enabled: bool,
    pub peer_id_ttl_hours: u16,
    pub queue_stalled_enabled: bool,
    pub queue_stalled_minutes: u16,
    pub ratio_limit: Ratio,
    pub ratio_limit_enabled: bool,
    pub rename_partial_files: bool,
    pub rpc_authentication_required: bool,
    pub rpc_bind_enabled_address: IpAddress,
    pub rpc_enabled: bool,
    pub rpc_password: Seq<char>,
    pub rpc_username: Seq<char>,
    pub rpc_whitelist: Seq<IpAddress>,
    pub rpc_whitelist_enabled: bool,
    pub rpc_host_whitelist: Seq<Seq<char>>,
    pub rpc_host_whitelist_enabled: bool,
    pub rpc_port: u16,
    pub rpc_url: Seq<char>,
    pub scrape_paused_torrents_enabled: bool,
    pub script_torrent_done_filename: Seq<char>,
    pub script_torrent_done_enabled: bool,
    pub seed_queue_size: u16,
    pub seed_queue_enabled: bool,
    pub alt_speed_enabled: bool,
    pub alt_speed_up: u16,
    pub alt_speed_down: u16,
    pub alt_speed_time_begin: u16,
    pub alt_speed_time_enabled: bool,
    pub alt_speed_time_end: u16,
    pub alt_speed_time_day: u16,
    pub speed_limit_up: u16,
    pub speed_limit_up_enabled: bool,
    pub umask: u16,
    pub upload_slots_per_torrent: u16,
    pub bind_address_ipv4: Ipv4Address,
    pub bind_address_ipv6: Ipv6Address,
    pub start_added_torrents: bool,
    pub trash_original_torrent_files: bool,
    pub watch_dir: Option<Seq<char>>,
    pub watch_dir_enabled: bool,
}

/// The blocklist address of a fresh installation: the canonical form of
/// [`DEFAULT_BLOCKLIST_URL`], or that text itself should it have none.
pub open spec fn default_blocklist_url() -> Seq<char> {
    match url_canonical(DEFAULT_BLOCKLIST_URL@) {
        Some(url) => url,
        None => DEFAULT_BLOCKLIST_URL@,
    }
}

impl View for SessionSettings {
    type V = SettingsView;

    open spec fn view(&self) -> SettingsView {
        SettingsView {
            blocklist_enabled: self.blocklist_enabled,
            blocklist_url: self.blocklist_url@,
            cache_size_mb: self.cache_size_mb,
            dht_enabled: self.dht_enabled,
            utp_enabled: self.utp_enabled,
            ltp_enabled: self.ltp_enabled,
            download_dir: text_view(self.download_dir),
            speed_limit_down: self.speed_limit_down,
            speed_limit_down_enabled: self.speed_limit_down_enabled,
            encryption: self.encryption,
            idle_seeding_limit: self.idle_seeding_limit,
            idle_seeding_limit_enabled: self.idle_seeding_limit_enabled,
            incomplete_dir: text_view(self.incomplete_dir),
            incomplete_dir_enabled: self.incomplete_dir_enabled,
            message_level: self.message_level,
            download_queue_size: self.download_queue_size,
            download_queue_enabled: self.download_queue_enabled,
            peer_limit_global: self.peer_limit_global,
            peer_limit_per_torrent: self.peer_limit_per_torrent,
            peer_port: self.peer_port,
            peer_port_random_on_start: self.peer_port_random_on_start,
            peer_port_random_low: self.peer_port_random_low,
            peer_port_random_high: self.peer_port_random_high,
            peer_socket_tos: self.peer_socket_tos@,
            pex_enabled: self.pex_enabled,
            port_forwarding_enabled: self.port_forwarding_enabled,
            preallocation: self.preallocation,
            prefetch_enabled: self.prefetch_enabled,
            peer_id_ttl_hours: self.peer_id_ttl_hours,
            queue_stalled_enabled: self.queue_stalled_enabled,
            queue_stalled_minutes: self.queue_stalled_minutes,
            ratio_limit: self.ratio_limit,
            ratio_limit_enabled: self.ratio_limit_enabled,
            rename_partial_files: self.rename_partial_files,
            rpc_authentication_required: self.rpc_authentication_required,
            rpc_bind_enabled_address: self.rpc_bind_enabled_address,
            rpc_enabled: self.rpc_enabled,
            rpc_password: self.rpc_password@,
            rpc_username: self.rpc_username@,
            rpc_whitelist: self.rpc_whitelist@,
            rpc_whitelist_enabled: self.rpc_whitelist_enabled,
            rpc_host_whitelist: texts_view(self.rpc_host_whitelist@),
            rpc_host_whitelist_enabled: self.rpc_host_whitelist_enabled,
            rpc_port: self.rpc_port,
            rpc_url: self.rpc_url@,
            scrape_paused_torrents_enabled: self.scrape_paused_torrents_enabled,
            script_torrent_done_filename: self.script_torrent_done_filename@,
            script_torrent_done_enabled: self.script_torrent_done_enabled,
            seed_queue_size: self.seed_queue_size,
            seed_queue_enabled: self.seed_queue_enabled,
            alt_speed_enabled: self.alt_speed_enabled,
            alt_speed_up: self.alt_speed_up,
            alt_speed_down: self.alt_speed_down,
            alt_speed_time_begin: self.alt_speed_time_begin,
            alt_speed_time_enabled: self.alt_speed_time_enabled,
            alt_speed_time_end: self.alt_speed_time_end,
            alt_speed_time_day: self.alt_speed_time_day,
            speed_limit_up: self.speed_limit_up,
            speed_limit_up_enabled: self.speed_limit_up_enabled,
            umask: self.umask,
            upload_slots_per_torrent: self.upload_slots_per_torrent,
            bind_address_ipv4: self.bind_address_ipv4,
            bind_address_ipv6: self.bind_address_ipv6,
            start_added_torrents: self.start_added_torrents,
            trash_original_torrent_files: self.trash_original_torrent_files,
            watch_dir: text_view(self.watch_dir),
            watch_dir_enabled: self.watch_dir_enabled,
        }
    }
}

impl SettingsView {
    /// The settings of a fresh installation, around the three values that the
    /// platform and the URL parser give.
    pub open spec fn defaults(
        download_dir: Option<Seq<char>>,
        incomplete_dir: Option<Seq<char>>,
        blocklist_url: Seq<char>,
    ) -> SettingsView {
        SettingsView {
            blocklist_enabled: true,
            blocklist_url: blocklist_url,
            cache_size_mb: 4,
            dht_enabled: true,
            utp_enabled: true,
            ltp_enabled: false,
            download_dir: download_dir,
            speed_limit_down: 100,
            speed_limit_down_enabled: false,
            encryption: EncryptionMode::EncryptionPreferred,
            idle_seeding_limit: 30,
            idle_seeding_limit_enabled: false,
            incomplete_dir: incomplete_dir,
            incomplete_dir_enabled: false,
            message_level: LogLevel::Info,
            download_queue_size: 5,
            download_queue_enabled: true,
            peer_limit_global: 200,
            peer_limit_per_torrent: 50,
            peer_port: 51413,
            peer_port_random_on_start: false,
            peer_port_random_low: 49152,
            peer_port_random_high: 65535,
            peer_socket_tos: "default"@,
            pex_enabled: true,
            port_forwarding_enabled: true,
            preallocation: PreallocationMode::Sparse,
            prefetch_enabled: true,
            peer_id_ttl_hours: 6,
            queue_stalled_enabled: true,
            queue_stalled_minutes: 30,
            ratio_limit: Ratio { thousandths: 2000 },
            ratio_limit_enabled: false,
            rename_partial_files: true,
            rpc_authentication_required: false,
            rpc_bind_enabled_address: IpAddress::V4(Ipv4Address::unspecified()),
            rpc_enabled: false,
            rpc_password: Seq::empty(),
            rpc_username: Seq::empty(),
            rpc_whitelist: seq![
                IpAddress::V4(Ipv4Address::localhost()),
                IpAddress::V6(Ipv6Address::localhost()),
            ],
            rpc_whitelist_enabled: true,
            rpc_host_whitelist: seq![Seq::<char>::empty()],
            rpc_host_whitelist_enabled: true,
            rpc_port: 9091,
            rpc_url: Seq::empty(),
            scrape_paused_torrents_enabled: true,
            script_torrent_done_filename: Seq::empty(),
            script_torrent_done_enabled: false,
            seed_queue_size: 10,
            seed_queue_enabled: false,
            alt_speed_enabled: false,
            alt_speed_up: 50,
            alt_speed_down: 50,
            alt_speed_time_begin: 540,
            alt_speed_time_enabled: false,
            alt_speed_time_end: 1020,
            alt_speed_time_day: 0,
            speed_limit_up: 100,
            speed_limit_up_enabled: false,
            umask: 22,
            upload_slots_per_torrent: 14,
            bind_address_ipv4: Ipv4Address::unspecified(),
            bind_address_ipv6: Ipv6Address::unspecified(),
            start_added_torrents: true,
            trash_original_torrent_files: false,
            watch_dir: None,
            watch_dir_enabled: false,
        }
    }

    /// Whether the settings can be written and read back: their numbers are
    /// within bounds, and the blocklist URL is in canonical form.
    pub open spec fn is_valid(self) -> bool {
        self.in_bounds() && url_canonical(self.blocklist_url) == Some(self.blocklist_url)
    }

    /// Every bounded number lies within its bounds.
    pub open spec fn in_bounds(self) -> bool {
        &&& self.alt_speed_time_begin <= MAX_MINUTE_OF_DAY
        &&& self.alt_speed_time_end <= MAX_MINUTE_OF_DAY
    }

    /// The first bounded number, in the order of the fields, that lies outside
    /// its bounds: the field's name and the number.
    pub open spec fn first_violation(self) -> Option<(&'static str, u32)> {
        if self.alt_speed_time_begin > MAX_MINUTE_OF_DAY {
            Some(("alt_speed_time_begin", self.alt_speed_time_begin as u32))
        } else if self.alt_speed_time_end > MAX_MINUTE_OF_DAY {
            Some(("alt_speed_time_end", self.alt_speed_time_end as u32))
        } else {
            None
        }
    }

    /// The settings of a fresh installation are within bounds, whatever the
    /// platform and the URL parser gave.
    pub proof fn law_defaults_in_bounds(
        download_dir: Option<Seq<char>>,
        incomplete_dir: Option<Seq<char>>,
        blocklist_url: Seq<char>,
    )
        ensures
            SettingsView::defaults(download_dir, incomplete_dir, blocklist_url).in_bounds(),
    {
    }

    /// Settings are within bounds exactly when no number violates them.
    pub proof fn lemma_in_bounds_iff_no_violation(self)
        ensures
            self.in_bounds() <==> self.first_violation() is None,
    {
    }
}

impl SessionSettings {
    /// Builds the settings of a fresh installation around the three values
    /// that the platform and the URL parser give.
    pub fn with_platform(
        download_dir: Option<String>,
        incomplete_dir: Option<String>,
        blocklist_url: String,
    ) -> (settings: SessionSettings)
        ensures
            settings@ == SettingsView::defaults(
                text_view(download_dir),
                text_view(incomplete_dir),
                blocklist_url@,
            ),
            settings@.in_bounds(),
            settings.download_dir == download_dir,
            settings.incomplete_dir == incomplete_dir,
            settings.blocklist_url == blocklist_url,
    {
        let mut rpc_whitelist: Vec<IpAddress> = Vec::new();
        rpc_whitelist.push(IpAddress::V4(Ipv4Address::new(127, 0, 0, 1)));
        rpc_whitelist.push(IpAddress::V6(Ipv6Address::new(0, 0, 0, 0, 0, 0, 0, 1)));
        let mut rpc_host_whitelist: Vec<String> = Vec::new();
        rpc_host_whitelist.push(String::new());
        let settings = SessionSettings {
            blocklist_enabled: true,
            blocklist_url,
            cache_size_mb: 4,
            dht_enabled: true,
            utp_enabled: true,
            ltp_enabled: false,
            download_dir,
            speed_limit_down: 100,
            speed_limit_down_enabled: false,
            encryption: EncryptionMode::EncryptionPreferred,
            idle_seeding_limit: 30,
            idle_seeding_limit_enabled: false,
            incomplete_dir,
            incomplete_dir_enabled: false,
            message_level: LogLevel::Info,
            download_queue_size: 5,
            download_queue_enabled: true,
            peer_limit_global: 200,
            peer_limit_per_torrent: 50,
            peer_port: 51413,
            peer_port_random_on_start: false,
            peer_port_random_low: 49152,
            peer_port_random_high: 65535,
            peer_socket_tos: "default".to_owned(),
            pex_enabled: true,
            port_forwarding_enabled: true,
            preallocation: PreallocationMode::Sparse,
            prefetch_enabled: true,
            peer_id_ttl_hours: 6,
            queue_stalled_enabled: true,
            queue_stalled_minutes: 30,
            ratio_limit: Ratio { thousandths: 2000 },
            ratio_limit_enabled: false,
            rename_partial_files: true,
            rpc_authentication_required: false,
            rpc_bind_enabled_address: IpAddress::V4(Ipv4Address::new(0, 0, 0, 0)),
            rpc_enabled: false,
            rpc_password: String::new(),
            rpc_username: String::new(),
            rpc_whitelist,
            rpc_whitelist_enabled: true,
            rpc_host_whitelist,
            rpc_host_whitelist_enabled: true,
            rpc_port: 9091,
            rpc_url: String::new(),
            scrape_paused_torrents_enabled: true,
            script_torrent_done_filename: String::new(),
            script_torrent_done_enabled: false,
            seed_queue_size: 10,
            seed_queue_enabled: false,
            alt_speed_enabled: false,
            alt_speed_up: 50,
            alt_speed_down: 50,
            alt_speed_time_begin: 540,
            alt_speed_time_enabled: false,
            alt_speed_time_end: 1020,
            alt_speed_time_day: 0,
            speed_limit_up: 100,
            speed_limit_up_enabled: false,
            umask: 22,
            upload_slots_per_torrent: 14,
            bind_address_ipv4: Ipv4Address::new(0, 0, 0, 0),
            bind_address_ipv6: Ipv6Address::new(0, 0, 0, 0, 0, 0, 0, 0),
            start_added_torrents: true,
            trash_original_torrent_files: false,
            watch_dir: None,
            watch_dir_enabled: false,
        };
        assert(settings@.rpc_whitelist =~= seq![
            IpAddress::V4(Ipv4Address::localhost()),
            IpAddress::V6(Ipv6Address::localhost()),
        ]);
        assert(settings@.rpc_host_whitelist =~= seq![Seq::<char>::empty()]);
        settings
    }

    /// The settings of a fresh installation on this machine.
    ///
    /// `config_home` is the directory that the environment names in place of
    /// the platform's configuration directory, if it names one; `downloads`
    /// is the download directory that the platform names, if it names one.
    /// Downloads go to the configuration directory that
    /// [`resolve_config_dir`] finds, and incomplete torrents to `downloads`.
    pub fn default(config_home: Option<String>, downloads: Option<String>) -> (settings:
        SessionSettings)
        ensures
            settings@ == SettingsView::defaults(
                settings@.download_dir,
                text_view(downloads),
                default_blocklist_url(),
            ),
            settings@.in_bounds(),
            settings.incomplete_dir == downloads,
            config_home is Some ==> settings.download_dir == config_home,
            config_home is None ==> exists|
                platform_config: Option<Seq<char>>,
                home: Option<Seq<char>>,
            |
                settings@.download_dir == #[trigger] config_dir_choice(None, platform_config, home),
    {
        let blocklist_url = match canonical_url(DEFAULT_BLOCKLIST_URL) {
            Some(url) => url,
            None => DEFAULT_BLOCKLIST_URL.to_owned(),
        };
        let download_dir = resolve_config_dir(config_home);
        SessionSettings::with_platform(download_dir, downloads, blocklist_url)
    }

    /// Whether the settings can be written and read back: whether their
    /// numbers are within bounds and the blocklist URL is in canonical form.
    pub fn is_valid(&self) -> (ok: bool)
        ensures
            ok == self@.is_valid(),
    {
        proof {
            self@.lemma_in_bounds_iff_no_violation();
        }
        if self.first_violation().is_some() {
            return false;
        }
        match canonical_url(self.blocklist_url.as_str()) {
            Some(url) => url == self.blocklist_url,
            None => false,
        }
    }

    /// The first bounded number, in the order of the fields, that lies outside
    /// its bounds, if there is one.
    pub fn first_violation(&self) -> (found: Option<(&'static str, u32)>)
        ensures
            found == self@.first_violation(),
    {
        if self.alt_speed_time_begin > MAX_MINUTE_OF_DAY {
            Some(("alt_speed_time_begin", self.alt_speed_time_begin as u32))
        } else if self.alt_speed_time_end > MAX_MINUTE_OF_DAY {
            Some(("alt_speed_time_end", self.alt_speed_time_end as u32))
        } else {
            None
        }
    }
}

} // verus!
