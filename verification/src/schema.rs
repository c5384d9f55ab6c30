//! The schema of the settings document: the fields of the settings in their
//! order, each with its name and the kind of its value, and the settings as
//! the values of these fields.

use crate::address::{IpAddress, Ipv4Address, Ipv6Address};
use crate::document::{
    document_read, document_text, entries_of, field_read, law_first_fault_is_reported,
    law_number_out_of_range, lemma_document_conforms, lemma_document_round_trip, lookup, name_ok,
    read_document, schema_ok, value_views, values_conform, values_fit, write_document, Field,
    SchemaError, SchemaErrorView,
};
use crate::number::{all_digits, value_of};
use crate::session::{
    EncryptionMode, LogLevel, PreallocationMode, Ratio, SessionSettings, SettingsView,
    MAX_MINUTE_OF_DAY,
};
use crate::text::{copy_text, split, text_view, texts_view};
use crate::value::{conforms, is_stable, Kind, Value, ValueView};
use vstd::prelude::*;
use vstd::string::StrSliceExecFns;
use vstd::utf8::{
    decode_utf8, encode_utf8, encode_utf8_decode_utf8, encode_utf8_valid_utf8, valid_utf8,
};

verus! {

/// Number of fields of the settings.
pub const FIELD_COUNT: usize = 67;

/// The field at a place of the schema.
pub open spec fn field_at(at: int) -> Field {
    if at == 0 {
        Field { name: "blocklist_enabled", kind: Kind::Flag }
    } else if at == 1 {
        Field { name: "blocklist_url", kind: Kind::Url }
    } else if at == 2 {
        Field { name: "cache_size_mb", kind: Kind::Count(0xffff) }
    } else if at == 3 {
        Field { name: "dht_enabled", kind: Kind::Flag }
    } else if at == 4 {
        Field { name: "utp_enabled", kind: Kind::Flag }
    } else if at == 5 {
        Field { name: "ltp_enabled", kind: Kind::Flag }
    } else if at == 6 {
        Field { name: "download_dir", kind: Kind::Path }
    } else if at == 7 {
        Field { name: "speed_limit_down", kind: Kind::Count(0xffff) }
    } else if at == 8 {
        Field { name: "speed_limit_down_enabled", kind: Kind::Flag }
    } else if at == 9 {
        Field { name: "encryption", kind: Kind::Encryption }
    } else if at == 10 {
        Field { name: "idle_seeding_limit", kind: Kind::Count(0xffff) }
    } else if at == 11 {
        Field { name: "idle_seeding_limit_enabled", kind: Kind::Flag }
    } else if at == 12 {
        Field { name: "incomplete_dir", kind: Kind::Path }
    } else if at == 13 {
        Field { name: "incomplete_dir_enabled", kind: Kind::Flag }
    } else if at == 14 {
        Field { name: "message_level", kind: Kind::Level }
    } else if at == 15 {
        Field { name: "download_queue_size", kind: Kind::Count(0xffff_ffff) }
    } else if at == 16 {
        Field { name: "download_queue_enabled", kind: Kind::Flag }
    } else if at == 17 {
        Field { name: "peer_limit_global", kind: Kind::Count(0xffff) }
    } else if at == 18 {
        Field { name: "peer_limit_per_torrent", kind: Kind::Count(0xffff) }
    } else if at == 19 {
        Field { name: "peer_port", kind: Kind::Count(0xffff) }
    } else if at == 20 {
        Field { name: "peer_port_random_on_start", kind: Kind::Flag }
    } else if at == 21 {
        Field { name: "peer_port_random_low", kind: Kind::Count(0xffff) }
    } else if at == 22 {
        Field { name: "peer_port_random_high", kind: Kind::Count(0xffff) }
    } else if at == 23 {
        Field { name: "peer_socket_tos", kind: Kind::Text }
    } else if at == 24 {
        Field { name: "pex_enabled", kind: Kind::Flag }
    } else if at == 25 {
        Field { name: "port_forwarding_enabled", kind: Kind::Flag }
    } else if at == 26 {
        Field { name: "preallocation", kind: Kind::Preallocation }
    } else if at == 27 {
        Field { name: "prefetch_enabled", kind: Kind::Flag }
    } else if at == 28 {
        Field { name: "peer_id_ttl_hours", kind: Kind::Count(0xffff) }
    } else if at == 29 {
        Field { name: "queue_stalled_enabled", kind: Kind::Flag }
    } else if at == 30 {
        Field { name: "queue_stalled_minutes", kind: Kind::Count(0xffff) }
    } else if at == 31 {
        Field { name: "ratio_limit", kind: Kind::Ratio }
    } else if at == 32 {
        Field { name: "ratio_limit_enabled", kind: Kind::Flag }
    } else if at == 33 {
        Field { name: "rename_partial_files", kind: Kind::Flag }
    } else if at == 34 {
        Field { name: "rpc_authentication_required", kind: Kind::Flag }
    } else if at == 35 {
        Field { name: "rpc_bind_enabled_address", kind: Kind::Address }
    } else if at == 36 {
        Field { name: "rpc_enabled", kind: Kind::Flag }
    } else if at == 37 {
        Field { name: "rpc_password", kind: Kind::Text }
    } else if at == 38 {
        Field { name: "rpc_username", kind: Kind::Text }
    } else if at == 39 {
        Field { name: "rpc_whitelist", kind: Kind::Addresses }
    } else if at == 40 {
        Field { name: "rpc_whitelist_enabled", kind: Kind::Flag }
    } else if at == 41 {
        Field { name: "rpc_host_whitelist", kind: Kind::Texts }
    } else if at == 42 {
        Field { name: "rpc_host_whitelist_enabled", kind: Kind::Flag }
    } else if at == 43 {
        Field { name: "rpc_port", kind: Kind::Count(0xffff) }
    } else if at == 44 {
        Field { name: "rpc_url", kind: Kind::Text }
    } else if at == 45 {
        Field { name: "scrape_paused_torrents_enabled", kind: Kind::Flag }
    } else if at == 46 {
        Field { name: "script_torrent_done_filename", kind: Kind::Text }
    } else if at == 47 {
        Field { name: "script_torrent_done_enabled", kind: Kind::Flag }
    } else if at == 48 {
        Field { name: "seed_queue_size", kind: Kind::Count(0xffff) }
    } else if at == 49 {
        Field { name: "seed_queue_enabled", kind: Kind::Flag }
    } else if at == 50 {
        Field { name: "alt_speed_enabled", kind: Kind::Flag }
    } else if at == 51 {
        Field { name: "alt_speed_up", kind: Kind::Count(0xffff) }
    } else if at == 52 {
        Field { name: "alt_speed_down", kind: Kind::Count(0xffff) }
    } else if at == 53 {
        Field { name: "alt_speed_time_begin", kind: Kind::Count(MAX_MINUTE_OF_DAY as u32) }
    } else if at == 54 {
        Field { name: "alt_speed_time_enabled", kind: Kind::Flag }
    } else if at == 55 {
        Field { name: "alt_speed_time_end", kind: Kind::Count(MAX_MINUTE_OF_DAY as u32) }
    } else if at == 56 {
        Field { name: "alt_speed_time_day", kind: Kind::Count(0xffff) }
    } else if at == 57 {
        Field { name: "speed_limit_up", kind: Kind::Count(0xffff) }
    } else if at == 58 {
        Field { name: "speed_limit_up_enabled", kind: Kind::Flag }
    } else if at == 59 {
        Field { name: "umask", kind: Kind::Count(0xffff) }
    } else if at == 60 {
        Field { name: "upload_slots_per_torrent", kind: Kind::Count(0xffff) }
    } else if at == 61 {
        Field { name: "bind_address_ipv4", kind: Kind::Address4 }
    } else if at == 62 {
        Field { name: "bind_address_ipv6", kind: Kind::Address6 }
    } else if at == 63 {
        Field { name: "start_added_torrents", kind: Kind::Flag }
    } else if at == 64 {
        Field { name: "trash_original_torrent_files", kind: Kind::Flag }
    } else if at == 65 {
        Field { name: "watch_dir", kind: Kind::Path }
    } else {
        Field { name: "watch_dir_enabled", kind: Kind::Flag }
    }
}

/// The schema of the settings: their fields in the order of declaration.
pub open spec fn settings_schema() -> Seq<Field> {
    Seq::new(FIELD_COUNT as nat, |at: int| field_at(at))
}

/// Computes [`field_at`].
pub fn field(at: usize) -> (found: Field)
    requires
        at < FIELD_COUNT,
    ensures
        found == field_at(at as int),
{
    if at == 0 {
        Field { name: "blocklist_enabled", kind: Kind::Flag }
    } else if at == 1 {
        Field { name: "blocklist_url", kind: Kind::Url }
    } else if at == 2 {
        Field { name: "cache_size_mb", kind: Kind::Count(0xffff) }
    } else if at == 3 {
        Field { name: "dht_enabled", kind: Kind::Flag }
    } else if at == 4 {
        Field { name: "utp_enabled", kind: Kind::Flag }
    } else if at == 5 {
        Field { name: "ltp_enabled", kind: Kind::Flag }
    } else if at == 6 {
        Field { name: "download_dir", kind: Kind::Path }
    } else if at == 7 {
        Field { name: "speed_limit_down", kind: Kind::Count(0xffff) }
    } else if at == 8 {
        Field { name: "speed_limit_down_enabled", kind: Kind::Flag }
    } else if at == 9 {
        Field { name: "encryption", kind: Kind::Encryption }
    } else if at == 10 {
        Field { name: "idle_seeding_limit", kind: Kind::Count(0xffff) }
    } else if at == 11 {
        Field { name: "idle_seeding_limit_enabled", kind: Kind::Flag }
    } else if at == 12 {
        Field { name: "incomplete_dir", kind: Kind::Path }
    } else if at == 13 {
        Field { name: "incomplete_dir_enabled", kind: Kind::Flag }
    } else if at == 14 {
        Field { name: "message_level", kind: Kind::Level }
    } else if at == 15 {
        Field { name: "download_queue_size", kind: Kind::Count(0xffff_ffff) }
    } else if at == 16 {
        Field { name: "download_queue_enabled", kind: Kind::Flag }
    } else if at == 17 {
        Field { name: "peer_limit_global", kind: Kind::Count(0xffff) }
    } else if at == 18 {
        Field { name: "peer_limit_per_torrent", kind: Kind::Count(0xffff) }
    } else if at == 19 {
        Field { name: "peer_port", kind: Kind::Count(0xffff) }
    } else if at == 20 {
        Field { name: "peer_port_random_on_start", kind: Kind::Flag }
    } else if at == 21 {
        Field { name: "peer_port_random_low", kind: Kind::Count(0xffff) }
    } else if at == 22 {
        Field { name: "peer_port_random_high", kind: Kind::Count(0xffff) }
    } else if at == 23 {
        Field { name: "peer_socket_tos", kind: Kind::Text }
    } else if at == 24 {
        Field { name: "pex_enabled", kind: Kind::Flag }
    } else if at == 25 {
        Field { name: "port_forwarding_enabled", kind: Kind::Flag }
    } else if at == 26 {
        Field { name: "preallocation", kind: Kind::Preallocation }
    } else if at == 27 {
        Field { name: "prefetch_enabled", kind: Kind::Flag }
    } else if at == 28 {
        Field { name: "peer_id_ttl_hours", kind: Kind::Count(0xffff) }
    } else if at == 29 {
        Field { name: "queue_stalled_enabled", kind: Kind::Flag }
    } else if at == 30 {
        Field { name: "queue_stalled_minutes", kind: Kind::Count(0xffff) }
    } else if at == 31 {
        Field { name: "ratio_limit", kind: Kind::Ratio }
    } else if at == 32 {
        Field { name: "ratio_limit_enabled", kind: Kind::Flag }
    } else if at == 33 {
        Field { name: "rename_partial_files", kind: Kind::Flag }
    } else if at == 34 {
        Field { name: "rpc_authentication_required", kind: Kind::Flag }
    } else if at == 35 {
        Field { name: "rpc_bind_enabled_address", kind: Kind::Address }
    } else if at == 36 {
        Field { name: "rpc_enabled", kind: Kind::Flag }
    } else if at == 37 {
        Field { name: "rpc_password", kind: Kind::Text }
    } else if at == 38 {
        Field { name: "rpc_username", kind: Kind::Text }
    } else if at == 39 {
        Field { name: "rpc_whitelist", kind: Kind::Addresses }
    } else if at == 40 {
        Field { name: "rpc_whitelist_enabled", kind: Kind::Flag }
    } else if at == 41 {
        Field { name: "rpc_host_whitelist", kind: Kind::Texts }
    } else if at == 42 {
        Field { name: "rpc_host_whitelist_enabled", kind: Kind::Flag }
    } else if at == 43 {
        Field { name: "rpc_port", kind: Kind::Count(0xffff) }
    } else if at == 44 {
        Field { name: "rpc_url", kind: Kind::Text }
    } else if at == 45 {
        Field { name: "scrape_paused_torrents_enabled", kind: Kind::Flag }
    } else if at == 46 {
        Field { name: "script_torrent_done_filename", kind: Kind::Text }
    } else if at == 47 {
        Field { name: "script_torrent_done_enabled", kind: Kind::Flag }
    } else if at == 48 {
        Field { name: "seed_queue_size", kind: Kind::Count(0xffff) }
    } else if at == 49 {
        Field { name: "seed_queue_enabled", kind: Kind::Flag }
    } else if at == 50 {
        Field { name: "alt_speed_enabled", kind: Kind::Flag }
    } else if at == 51 {
        Field { name: "alt_speed_up", kind: Kind::Count(0xffff) }
    } else if at == 52 {
        Field { name: "alt_speed_down", kind: Kind::Count(0xffff) }
    } else if at == 53 {
        Field { name: "alt_speed_time_begin", kind: Kind::Count(MAX_MINUTE_OF_DAY as u32) }
    } else if at == 54 {
        Field { name: "alt_speed_time_enabled", kind: Kind::Flag }
    } else if at == 55 {
        Field { name: "alt_speed_time_end", kind: Kind::Count(MAX_MINUTE_OF_DAY as u32) }
    } else if at == 56 {
        Field { name: "alt_speed_time_day", kind: Kind::Count(0xffff) }
    } else if at == 57 {
        Field { name: "speed_limit_up", kind: Kind::Count(0xffff) }
    } else if at == 58 {
        Field { name: "speed_limit_up_enabled", kind: Kind::Flag }
    } else if at == 59 {
        Field { name: "umask", kind: Kind::Count(0xffff) }
    } else if at == 60 {
        Field { name: "upload_slots_per_torrent", kind: Kind::Count(0xffff) }
    } else if at == 61 {
        Field { name: "bind_address_ipv4", kind: Kind::Address4 }
    } else if at == 62 {
        Field { name: "bind_address_ipv6", kind: Kind::Address6 }
    } else if at == 63 {
        Field { name: "start_added_torrents", kind: Kind::Flag }
    } else if at == 64 {
        Field { name: "trash_original_torrent_files", kind: Kind::Flag }
    } else if at == 65 {
        Field { name: "watch_dir", kind: Kind::Path }
    } else {
        Field { name: "watch_dir_enabled", kind: Kind::Flag }
    }
}

/// Computes [`settings_schema`].
pub fn schema() -> (fields: Vec<Field>)
    ensures
        fields@ == settings_schema(),
{
    let mut fields: Vec<Field> = Vec::new();
    let mut at: usize = 0;
    while at < FIELD_COUNT
        invariant
            at <= FIELD_COUNT,
            fields@ == Seq::new(at as nat, |k: int| field_at(k)),
        decreases FIELD_COUNT - at,
    {
        fields.push(field(at));
        assert(fields@ =~= Seq::new((at + 1) as nat, |k: int| field_at(k)));
        at += 1;
    }
    fields
}

impl SettingsView {
    /// The value of the field at a place of the schema.
    pub open spec fn value_at(self, at: int) -> ValueView {
        if at == 0 {
            ValueView::Flag(self.blocklist_enabled)
        } else if at == 1 {
            ValueView::Text(self.blocklist_url)
        } else if at == 2 {
            ValueView::Count(self.cache_size_mb as u32)
        } else if at == 3 {
            ValueView::Flag(self.dht_enabled)
        } else if at == 4 {
            ValueView::Flag(self.utp_enabled)
        } else if at == 5 {
            ValueView::Flag(self.ltp_enabled)
        } else if at == 6 {
            ValueView::Path(self.download_dir)
        } else if at == 7 {
            ValueView::Count(self.speed_limit_down as u32)
        } else if at == 8 {
            ValueView::Flag(self.speed_limit_down_enabled)
        } else if at == 9 {
            ValueView::Encryption(self.encryption)
        } else if at == 10 {
            ValueView::Count(self.idle_seeding_limit as u32)
        } else if at == 11 {
            ValueView::Flag(self.idle_seeding_limit_enabled)
        } else if at == 12 {
            ValueView::Path(self.incomplete_dir)
        } else if at == 13 {
            ValueView::Flag(self.incomplete_dir_enabled)
        } else if at == 14 {
            ValueView::Level(self.message_level)
        } else if at == 15 {
            ValueView::Count(self.download_queue_size)
        } else if at == 16 {
            ValueView::Flag(self.download_queue_enabled)
        } else if at == 17 {
            ValueView::Count(self.peer_limit_global as u32)
        } else if at == 18 {
            ValueView::Count(self.peer_limit_per_torrent as u32)
        } else if at == 19 {
            ValueView::Count(self.peer_port as u32)
        } else if at == 20 {
            ValueView::Flag(self.peer_port_random_on_start)
        } else if at == 21 {
            ValueView::Count(self.peer_port_random_low as u32)
        } else if at == 22 {
            ValueView::Count(self.peer_port_random_high as u32)
        } else if at == 23 {
            ValueView::Text(self.peer_socket_tos)
        } else if at == 24 {
            ValueView::Flag(self.pex_enabled)
        } else if at == 25 {
            ValueView::Flag(self.port_forwarding_enabled)
        } else if at == 26 {
            ValueView::Preallocation(self.preallocation)
        } else if at == 27 {
            ValueView::Flag(self.prefetch_enabled)
        } else if at == 28 {
            ValueView::Count(self.peer_id_ttl_hours as u32)
        } else if at == 29 {
            ValueView::Flag(self.queue_stalled_enabled)
        } else if at == 30 {
            ValueView::Count(self.queue_stalled_minutes as u32)
        } else if at == 31 {
            ValueView::Ratio(self.ratio_limit)
        } else if at == 32 {
            ValueView::Flag(self.ratio_limit_enabled)
        } else if at == 33 {
            ValueView::Flag(self.rename_partial_files)
        } else if at == 34 {
            ValueView::Flag(self.rpc_authentication_required)
        } else if at == 35 {
            ValueView::Address(self.rpc_bind_enabled_address)
        } else if at == 36 {
            ValueView::Flag(self.rpc_enabled)
        } else if at == 37 {
            ValueView::Text(self.rpc_password)
        } else if at == 38 {
            ValueView::Text(self.rpc_username)
        } else if at == 39 {
            ValueView::Addresses(self.rpc_whitelist)
        } else if at == 40 {
            ValueView::Flag(self.rpc_whitelist_enabled)
        } else if at == 41 {
            ValueView::Texts(self.rpc_host_whitelist)
        } else if at == 42 {
            ValueView::Flag(self.rpc_host_whitelist_enabled)
        } else if at == 43 {
            ValueView::Count(self.rpc_port as u32)
        } else if at == 44 {
            ValueView::Text(self.rpc_url)
        } else if at == 45 {
            ValueView::Flag(self.scrape_paused_torrents_enabled)
        } else if at == 46 {
            ValueView::Text(self.script_torrent_done_filename)
        } else if at == 47 {
            ValueView::Flag(self.script_torrent_done_enabled)
        } else if at == 48 {
            ValueView::Count(self.seed_queue_size as u32)
        } else if at == 49 {
            ValueView::Flag(self.seed_queue_enabled)
        } else if at == 50 {
            ValueView::Flag(self.alt_speed_enabled)
        } else if at == 51 {
            ValueView::Count(self.alt_speed_up as u32)
        } else if at == 52 {
            ValueView::Count(self.alt_speed_down as u32)
        } else if at == 53 {
            ValueView::Count(self.alt_speed_time_begin as u32)
        } else if at == 54 {
            ValueView::Flag(self.alt_speed_time_enabled)
        } else if at == 55 {
            ValueView::Count(self.alt_speed_time_end as u32)
        } else if at == 56 {
            ValueView::Count(self.alt_speed_time_day as u32)
        } else if at == 57 {
            ValueView::Count(self.speed_limit_up as u32)
        } else if at == 58 {
            ValueView::Flag(self.speed_limit_up_enabled)
        } else if at == 59 {
            ValueView::Count(self.umask as u32)
        } else if at == 60 {
            ValueView::Count(self.upload_slots_per_torrent as u32)
        } else if at == 61 {
            ValueView::Address4(self.bind_address_ipv4)
        } else if at == 62 {
            ValueView::Address6(self.bind_address_ipv6)
        } else if at == 63 {
            ValueView::Flag(self.start_added_torrents)
        } else if at == 64 {
            ValueView::Flag(self.trash_original_torrent_files)
        } else if at == 65 {
            ValueView::Path(self.watch_dir)
        } else {
            ValueView::Flag(self.watch_dir_enabled)
        }
    }

    /// The settings as the values of the fields of the schema.
    pub open spec fn values(self) -> Seq<ValueView> {
        Seq::new(FIELD_COUNT as nat, |at: int| self.value_at(at))
    }

    /// The settings that the values of the fields of the schema make.
    pub open spec fn of_values(values: Seq<ValueView>) -> SettingsView {
        SettingsView {
            blocklist_enabled: values[0]->Flag_0,
            blocklist_url: values[1]->Text_0,
            cache_size_mb: values[2]->Count_0 as u16,
            dht_enabled: values[3]->Flag_0,
            utp_enabled: values[4]->Flag_0,
            ltp_enabled: values[5]->Flag_0,
            download_dir: values[6]->Path_0,
            speed_limit_down: values[7]->Count_0 as u16,
            speed_limit_down_enabled: values[8]->Flag_0,
            encryption: values[9]->Encryption_0,
            idle_seeding_limit: values[10]->Count_0 as u16,
            idle_seeding_limit_enabled: values[11]->Flag_0,
            incomplete_dir: values[12]->Path_0,
            incomplete_dir_enabled: values[13]->Flag_0,
            message_level: values[14]->Level_0,
            download_queue_size: values[15]->Count_0,
            download_queue_enabled: values[16]->Flag_0,
            peer_limit_global: values[17]->Count_0 as u16,
            peer_limit_per_torrent: values[18]->Count_0 as u16,
            peer_port: values[19]->Count_0 as u16,
            peer_port_random_on_start: values[20]->Flag_0,
            peer_port_random_low: values[21]->Count_0 as u16,
            peer_port_random_high: values[22]->Count_0 as u16,
            peer_socket_tos: values[23]->Text_0,
            pex_enabled: values[24]->Flag_0,
            port_forwarding_enabled: values[25]->Flag_0,
            preallocation: values[26]->Preallocation_0,
            prefetch_enabled: values[27]->Flag_0,
            peer_id_ttl_hours: values[28]->Count_0 as u16,
            queue_stalled_enabled: values[29]->Flag_0,
            queue_stalled_minutes: values[30]->Count_0 as u16,
            ratio_limit: values[31]->Ratio_0,
            ratio_limit_enabled: values[32]->Flag_0,
            rename_partial_files: values[33]->Flag_0,
            rpc_authentication_required: values[34]->Flag_0,
            rpc_bind_enabled_address: values[35]->Address_0,
            rpc_enabled: values[36]->Flag_0,
            rpc_password: values[37]->Text_0,
            rpc_username: values[38]->Text_0,
            rpc_whitelist: values[39]->Addresses_0,
            rpc_whitelist_enabled: values[40]->Flag_0,
            rpc_host_whitelist: values[41]->Texts_0,
            rpc_host_whitelist_enabled: values[42]->Flag_0,
            rpc_port: values[43]->Count_0 as u16,
            rpc_url: values[44]->Text_0,
            scrape_paused_torrents_enabled: values[45]->Flag_0,
            script_torrent_done_filename: values[46]->Text_0,
            script_torrent_done_enabled: values[47]->Flag_0,
            seed_queue_size: values[48]->Count_0 as u16,
            seed_queue_enabled: values[49]->Flag_0,
            alt_speed_enabled: values[50]->Flag_0,
            alt_speed_up: values[51]->Count_0 as u16,
            alt_speed_down: values[52]->Count_0 as u16,
            alt_speed_time_begin: values[53]->Count_0 as u16,
            alt_speed_time_enabled: values[54]->Flag_0,
            alt_speed_time_end: values[55]->Count_0 as u16,
            alt_speed_time_day: values[56]->Count_0 as u16,
            speed_limit_up: values[57]->Count_0 as u16,
            speed_limit_up_enabled: values[58]->Flag_0,
            umask: values[59]->Count_0 as u16,
            upload_slots_per_torrent: values[60]->Count_0 as u16,
            bind_address_ipv4: values[61]->Address4_0,
            bind_address_ipv6: values[62]->Address6_0,
            start_added_torrents: values[63]->Flag_0,
            trash_original_torrent_files: values[64]->Flag_0,
            watch_dir: values[65]->Path_0,
            watch_dir_enabled: values[66]->Flag_0,
        }
    }

    /// The settings are made of their own values.
    pub proof fn lemma_of_own_values(self)
        ensures
            SettingsView::of_values(self.values()) == self,
    {
    }

    /// The values of valid settings are those of the schema.
    pub proof fn lemma_values_fit(self)
        requires
            self.is_valid(),
        ensures
            values_fit(settings_schema(), self.values()),
    {
        let schema = settings_schema();
        let values = self.values();
        assert forall|at: int| 0 <= at < schema.len() implies conforms(
            #[trigger] values[at],
            schema[at].kind,
        ) && is_stable(values[at], schema[at].kind) by {
            assert(values[at] == self.value_at(at));
            assert(schema[at] == field_at(at));
        }
    }
}

/// A copy of a list of addresses.
fn copy_addresses(addresses: &Vec<IpAddress>) -> (copy: Vec<IpAddress>)
    ensures
        copy@ == addresses@,
{
    let mut copy: Vec<IpAddress> = Vec::new();
    let mut i: usize = 0;
    while i < addresses.len()
        invariant
            i <= addresses.len(),
            copy@ == addresses@.subrange(0, i as int),
        decreases addresses.len() - i,
    {
        copy.push(addresses[i]);
        assert(copy@ =~= addresses@.subrange(0, i + 1));
        i += 1;
    }
    assert(addresses@.subrange(0, addresses.len() as int) =~= addresses@);
    copy
}

/// A copy of a list of texts.
fn copy_texts(texts: &Vec<String>) -> (copy: Vec<String>)
    ensures
        copy@ == texts@,
{
    let mut copy: Vec<String> = Vec::new();
    let mut i: usize = 0;
    while i < texts.len()
        invariant
            i <= texts.len(),
            copy@ == texts@.subrange(0, i as int),
        decreases texts.len() - i,
    {
        copy.push(texts[i].clone());
        assert(copy@ =~= texts@.subrange(0, i + 1));
        i += 1;
    }
    assert(texts@.subrange(0, texts.len() as int) =~= texts@);
    copy
}

impl SessionSettings {
    /// Computes [`SettingsView::values`].
    pub fn to_values(&self) -> (values: Vec<Value>)
        ensures
            value_views(values@) == self@.values(),
            values.len() == FIELD_COUNT,
    {
        let values = vec![

            Value::Flag(self.blocklist_enabled),
            Value::Text(self.blocklist_url.clone()),
            Value::Count(self.cache_size_mb as u32),
            Value::Flag(self.dht_enabled),
            Value::Flag(self.utp_enabled),
            Value::Flag(self.ltp_enabled),
            Value::Path(copy_text(&self.download_dir)),
            Value::Count(self.speed_limit_down as u32),
            Value::Flag(self.speed_limit_down_enabled),
            Value::Encryption(self.encryption),
            Value::Count(self.idle_seeding_limit as u32),
            Value::Flag(self.idle_seeding_limit_enabled),
            Value::Path(copy_text(&self.incomplete_dir)),
            Value::Flag(self.incomplete_dir_enabled),
            Value::Level(self.message_level),
            Value::Count(self.download_queue_size),
            Value::Flag(self.download_queue_enabled),
            Value::Count(self.peer_limit_global as u32),
            Value::Count(self.peer_limit_per_torrent as u32),
            Value::Count(self.peer_port as u32),
            Value::Flag(self.peer_port_random_on_start),
            Value::Count(self.peer_port_random_low as u32),
            Value::Count(self.peer_port_random_high as u32),
            Value::Text(self.peer_socket_tos.clone()),
            Value::Flag(self.pex_enabled),
            Value::Flag(self.port_forwarding_enabled),
            Value::Preallocation(self.preallocation),
            Value::Flag(self.prefetch_enabled),
            Value::Count(self.peer_id_ttl_hours as u32),
            Value::Flag(self.queue_stalled_enabled),
            Value::Count(self.queue_stalled_minutes as u32),
            Value::Ratio(self.ratio_limit),
            Value::Flag(self.ratio_limit_enabled),
            Value::Flag(self.rename_partial_files),
            Value::Flag(self.rpc_authentication_required),
            Value::Address(self.rpc_bind_enabled_address),
            Value::Flag(self.rpc_enabled),
            Value::Text(self.rpc_password.clone()),
            Value::Text(self.rpc_username.clone()),
            Value::Addresses(copy_addresses(&self.rpc_whitelist)),
            Value::Flag(self.rpc_whitelist_enabled),
            Value::Texts(copy_texts(&self.rpc_host_whitelist)),
            Value::Flag(self.rpc_host_whitelist_enabled),
            Value::Count(self.rpc_port as u32),
            Value::Text(self.rpc_url.clone()),
            Value::Flag(self.scrape_paused_torrents_enabled),
            Value::Text(self.script_torrent_done_filename.clone()),
            Value::Flag(self.script_torrent_done_enabled),
            Value::Count(self.seed_queue_size as u32),
            Value::Flag(self.seed_queue_enabled),
            Value::Flag(self.alt_speed_enabled),
            Value::Count(self.alt_speed_up as u32),
            Value::Count(self.alt_speed_down as u32),
            Value::Count(self.alt_speed_time_begin as u32),
            Value::Flag(self.alt_speed_time_enabled),
            Value::Count(self.alt_speed_time_end as u32),
            Value::Count(self.alt_speed_time_day as u32),
            Value::Count(self.speed_limit_up as u32),
            Value::Flag(self.speed_limit_up_enabled),
            Value::Count(self.umask as u32),
            Value::Count(self.upload_slots_per_torrent as u32),
            Value::Address4(self.bind_address_ipv4),
            Value::Address6(self.bind_address_ipv6),
            Value::Flag(self.start_added_torrents),
            Value::Flag(self.trash_original_torrent_files),
            Value::Path(copy_text(&self.watch_dir)),
            Value::Flag(self.watch_dir_enabled),
        ];
        assert(value_views(values@) =~= self@.values());
        values
    }
}

/// What the value at a place holds, where it is of the kind `Flag`.
fn flag_in(values: &Vec<Value>, at: usize) -> (found: bool)
    requires
        at < values.len(),
        values[at as int]@ is Flag,
    ensures
        values[at as int]@ == ValueView::Flag(found),
{
    match &values[at] {
        Value::Flag(inner) => *inner,
        _ => false,
    }
}

/// What the value at a place holds, where it is of the kind `Count`.
fn count_in(values: &Vec<Value>, at: usize) -> (found: u32)
    requires
        at < values.len(),
        values[at as int]@ is Count,
    ensures
        values[at as int]@ == ValueView::Count(found),
{
    match &values[at] {
        Value::Count(inner) => *inner,
        _ => 0,
    }
}

/// What the value at a place holds, where it is of the kind `Encryption`.
fn encryption_in(values: &Vec<Value>, at: usize) -> (found: EncryptionMode)
    requires
        at < values.len(),
        values[at as int]@ is Encryption,
    ensures
        values[at as int]@ == ValueView::Encryption(found),
{
    match &values[at] {
        Value::Encryption(inner) => *inner,
        _ => EncryptionMode::ClearPreferred,
    }
}

/// What the value at a place holds, where it is of the kind `Level`.
fn level_in(values: &Vec<Value>, at: usize) -> (found: LogLevel)
    requires
        at < values.len(),
        values[at as int]@ is Level,
    ensures
        values[at as int]@ == ValueView::Level(found),
{
    match &values[at] {
        Value::Level(inner) => *inner,
        _ => LogLevel::Error,
    }
}

/// What the value at a place holds, where it is of the kind `Preallocation`.
fn preallocation_in(values: &Vec<Value>, at: usize) -> (found: PreallocationMode)
    requires
        at < values.len(),
        values[at as int]@ is Preallocation,
    ensures
        values[at as int]@ == ValueView::Preallocation(found),
{
    match &values[at] {
        Value::Preallocation(inner) => *inner,
        _ => PreallocationMode::Off,
    }
}

/// What the value at a place holds, where it is of the kind `Ratio`.
fn ratio_in(values: &Vec<Value>, at: usize) -> (found: Ratio)
    requires
        at < values.len(),
        values[at as int]@ is Ratio,
    ensures
        values[at as int]@ == ValueView::Ratio(found),
{
    match &values[at] {
        Value::Ratio(inner) => *inner,
        _ => Ratio { thousandths: 0 },
    }
}

/// What the value at a place holds, where it is of the kind `Address`.
fn address_in(values: &Vec<Value>, at: usize) -> (found: IpAddress)
    requires
        at < values.len(),
        values[at as int]@ is Address,
    ensures
        values[at as int]@ == ValueView::Address(found),
{
    match &values[at] {
        Value::Address(inner) => *inner,
        _ => IpAddress::V4(Ipv4Address::new(0, 0, 0, 0)),
    }
}

/// What the value at a place holds, where it is of the kind `Address4`.
fn address4_in(values: &Vec<Value>, at: usize) -> (found: Ipv4Address)
    requires
        at < values.len(),
        values[at as int]@ is Address4,
    ensures
        values[at as int]@ == ValueView::Address4(found),
{
    match &values[at] {
        Value::Address4(inner) => *inner,
        _ => Ipv4Address::new(0, 0, 0, 0),
    }
}

/// What the value at a place holds, where it is of the kind `Address6`.
fn address6_in(values: &Vec<Value>, at: usize) -> (found: Ipv6Address)
    requires
        at < values.len(),
        values[at as int]@ is Address6,
    ensures
        values[at as int]@ == ValueView::Address6(found),
{
    match &values[at] {
        Value::Address6(inner) => *inner,
        _ => Ipv6Address::new(0, 0, 0, 0, 0, 0, 0, 0),
    }
}

/// What the value at a place holds, where it is of the kind `Text`.
fn text_in(values: &Vec<Value>, at: usize) -> (found: String)
    requires
        at < values.len(),
        values[at as int]@ is Text,
    ensures
        values[at as int]@ == ValueView::Text(found@),
{
    match &values[at] {
        Value::Text(inner) => inner.clone(),
        _ => String::new(),
    }
}

/// What the value at a place holds, where it is of the kind `Path`.
fn path_in(values: &Vec<Value>, at: usize) -> (found: Option<String>)
    requires
        at < values.len(),
        values[at as int]@ is Path,
    ensures
        values[at as int]@ == ValueView::Path(text_view(found)),
{
    match &values[at] {
        Value::Path(inner) => copy_text(inner),
        _ => None,
    }
}

/// What the value at a place holds, where it is of the kind `Addresses`.
fn addresses_in(values: &Vec<Value>, at: usize) -> (found: Vec<IpAddress>)
    requires
        at < values.len(),
        values[at as int]@ is Addresses,
    ensures
        values[at as int]@ == ValueView::Addresses(found@),
{
    match &values[at] {
        Value::Addresses(inner) => copy_addresses(inner),
        _ => Vec::new(),
    }
}

/// What the value at a place holds, where it is of the kind `Texts`.
fn texts_in(values: &Vec<Value>, at: usize) -> (found: Vec<String>)
    requires
        at < values.len(),
        values[at as int]@ is Texts,
    ensures
        values[at as int]@ == ValueView::Texts(texts_view(found@)),
{
    match &values[at] {
        Value::Texts(inner) => copy_texts(inner),
        _ => Vec::new(),
    }
}

/// The number that the value at a place holds, where it is a number of
/// sixteen bits.
fn small_count_in(values: &Vec<Value>, at: usize) -> (found: u16)
    requires
        at < values.len(),
        values[at as int]@ matches ValueView::Count(count) && count <= 0xffff,
    ensures
        values[at as int]@ == ValueView::Count(found as u32),
{
    match &values[at] {
        Value::Count(inner) => *inner as u16,
        _ => 0,
    }
}

impl SessionSettings {
    /// The settings that the values of the fields of the schema make.
    pub fn from_values(values: &Vec<Value>) -> (settings: SessionSettings)
        requires
            values.len() == FIELD_COUNT,
            forall|at: int|
                0 <= at < FIELD_COUNT ==> conforms(
                    #[trigger] value_views(values@)[at],
                    field_at(at).kind,
                ),
        ensures
            settings@ == SettingsView::of_values(value_views(values@)),
    {
        proof {
            assert forall|at: int| 0 <= at < FIELD_COUNT implies conforms(
                (#[trigger] values@[at])@,
                field_at(at).kind,
            ) by {
                assert(value_views(values@)[at] == values@[at]@);
            }
        }
        SessionSettings {
            blocklist_enabled: flag_in(values, 0),
            blocklist_url: text_in(values, 1),
            cache_size_mb: small_count_in(values, 2),
            dht_enabled: flag_in(values, 3),
            utp_enabled: flag_in(values, 4),
            ltp_enabled: flag_in(values, 5),
            download_dir: path_in(values, 6),
            speed_limit_down: small_count_in(values, 7),
            speed_limit_down_enabled: flag_in(values, 8),
            encryption: encryption_in(values, 9),
            idle_seeding_limit: small_count_in(values, 10),
            idle_seeding_limit_enabled: flag_in(values, 11),
            incomplete_dir: path_in(values, 12),
            incomplete_dir_enabled: flag_in(values, 13),
            message_level: level_in(values, 14),
            download_queue_size: count_in(values, 15),
            download_queue_enabled: flag_in(values, 16),
            peer_limit_global: small_count_in(values, 17),
            peer_limit_per_torrent: small_count_in(values, 18),
            peer_port: small_count_in(values, 19),
            peer_port_random_on_start: flag_in(values, 20),
            peer_port_random_low: small_count_in(values, 21),
            peer_port_random_high: small_count_in(values, 22),
            peer_socket_tos: text_in(values, 23),
            pex_enabled: flag_in(values, 24),
            port_forwarding_enabled: flag_in(values, 25),
            preallocation: preallocation_in(values, 26),
            prefetch_enabled: flag_in(values, 27),
            peer_id_ttl_hours: small_count_in(values, 28),
            queue_stalled_enabled: flag_in(values, 29),
            queue_stalled_minutes: small_count_in(values, 30),
            ratio_limit: ratio_in(values, 31),
            ratio_limit_enabled: flag_in(values, 32),
            rename_partial_files: flag_in(values, 33),
            rpc_authentication_required: flag_in(values, 34),
            rpc_bind_enabled_address: address_in(values, 35),
            rpc_enabled: flag_in(values, 36),
            rpc_password: text_in(values, 37),
            rpc_username: text_in(values, 38),
            rpc_whitelist: addresses_in(values, 39),
            rpc_whitelist_enabled: flag_in(values, 40),
            rpc_host_whitelist: texts_in(values, 41),
            rpc_host_whitelist_enabled: flag_in(values, 42),
            rpc_port: small_count_in(values, 43),
            rpc_url: text_in(values, 44),
            scrape_paused_torrents_enabled: flag_in(values, 45),
            script_torrent_done_filename: text_in(values, 46),
            script_torrent_done_enabled: flag_in(values, 47),
            seed_queue_size: small_count_in(values, 48),
            seed_queue_enabled: flag_in(values, 49),
            alt_speed_enabled: flag_in(values, 50),
            alt_speed_up: small_count_in(values, 51),
            alt_speed_down: small_count_in(values, 52),
            alt_speed_time_begin: small_count_in(values, 53),
            alt_speed_time_enabled: flag_in(values, 54),
            alt_speed_time_end: small_count_in(values, 55),
            alt_speed_time_day: small_count_in(values, 56),
            speed_limit_up: small_count_in(values, 57),
            speed_limit_up_enabled: flag_in(values, 58),
            umask: small_count_in(values, 59),
            upload_slots_per_torrent: small_count_in(values, 60),
            bind_address_ipv4: address4_in(values, 61),
            bind_address_ipv6: address6_in(values, 62),
            start_added_torrents: flag_in(values, 63),
            trash_original_torrent_files: flag_in(values, 64),
            watch_dir: path_in(values, 65),
            watch_dir_enabled: flag_in(values, 66),
        }
    }
}

/// The names of the fields are names.
proof fn lemma_names_ok()
    ensures
        forall|at: int| 0 <= at < FIELD_COUNT ==> name_ok(#[trigger] field_at(at).name@),
{
    reveal_strlit("blocklist_enabled");
    reveal_strlit("blocklist_url");
    reveal_strlit("cache_size_mb");
    reveal_strlit("dht_enabled");
    reveal_strlit("utp_enabled");
    reveal_strlit("ltp_enabled");
    reveal_strlit("download_dir");
    reveal_strlit("speed_limit_down");
    reveal_strlit("speed_limit_down_enabled");
    reveal_strlit("encryption");
    reveal_strlit("idle_seeding_limit");
    reveal_strlit("idle_seeding_limit_enabled");
    reveal_strlit("incomplete_dir");
    reveal_strlit("incomplete_dir_enabled");
    reveal_strlit("message_level");
    reveal_strlit("download_queue_size");
    reveal_strlit("download_queue_enabled");
    reveal_strlit("peer_limit_global");
    reveal_strlit("peer_limit_per_torrent");
    reveal_strlit("peer_port");
    reveal_strlit("peer_port_random_on_start");
    reveal_strlit("peer_port_random_low");
    reveal_strlit("peer_port_random_high");
    reveal_strlit("peer_socket_tos");
    reveal_strlit("pex_enabled");
    reveal_strlit("port_forwarding_enabled");
    reveal_strlit("preallocation");
    reveal_strlit("prefetch_enabled");
    reveal_strlit("peer_id_ttl_hours");
    reveal_strlit("queue_stalled_enabled");
    reveal_strlit("queue_stalled_minutes");
    reveal_strlit("ratio_limit");
    reveal_strlit("ratio_limit_enabled");
    reveal_strlit("rename_partial_files");
    reveal_strlit("rpc_authentication_required");
    reveal_strlit("rpc_bind_enabled_address");
    reveal_strlit("rpc_enabled");
    reveal_strlit("rpc_password");
    reveal_strlit("rpc_username");
    reveal_strlit("rpc_whitelist");
    reveal_strlit("rpc_whitelist_enabled");
    reveal_strlit("rpc_host_whitelist");
    reveal_strlit("rpc_host_whitelist_enabled");
    reveal_strlit("rpc_port");
    reveal_strlit("rpc_url");
    reveal_strlit("scrape_paused_torrents_enabled");
    reveal_strlit("script_torrent_done_filename");
    reveal_strlit("script_torrent_done_enabled");
    reveal_strlit("seed_queue_size");
    reveal_strlit("seed_queue_enabled");
    reveal_strlit("alt_speed_enabled");
    reveal_strlit("alt_speed_up");
    reveal_strlit("alt_speed_down");
    reveal_strlit("alt_speed_time_begin");
    reveal_strlit("alt_speed_time_enabled");
    reveal_strlit("alt_speed_time_end");
    reveal_strlit("alt_speed_time_day");
    reveal_strlit("speed_limit_up");
    reveal_strlit("speed_limit_up_enabled");
    reveal_strlit("umask");
    reveal_strlit("upload_slots_per_torrent");
    reveal_strlit("bind_address_ipv4");
    reveal_strlit("bind_address_ipv6");
    reveal_strlit("start_added_torrents");
    reveal_strlit("trash_original_torrent_files");
    reveal_strlit("watch_dir");
    reveal_strlit("watch_dir_enabled");
    assert(name_ok("blocklist_enabled"@));
    assert(name_ok("blocklist_url"@));
    assert(name_ok("cache_size_mb"@));
    assert(name_ok("dht_enabled"@));
    assert(name_ok("utp_enabled"@));
    assert(name_ok("ltp_enabled"@));
    assert(name_ok("download_dir"@));
    assert(name_ok("speed_limit_down"@));
    assert(name_ok("speed_limit_down_enabled"@));
    assert(name_ok("encryption"@));
    assert(name_ok("idle_seeding_limit"@));
    assert(name_ok("idle_seeding_limit_enabled"@));
    assert(name_ok("incomplete_dir"@));
    assert(name_ok("incomplete_dir_enabled"@));
    assert(name_ok("message_level"@));
    assert(name_ok("download_queue_size"@));
    assert(name_ok("download_queue_enabled"@));
    assert(name_ok("peer_limit_global"@));
    assert(name_ok("peer_limit_per_torrent"@));
    assert(name_ok("peer_port"@));
    assert(name_ok("peer_port_random_on_start"@));
    assert(name_ok("peer_port_random_low"@));
    assert(name_ok("peer_port_random_high"@));
    assert(name_ok("peer_socket_tos"@));
    assert(name_ok("pex_enabled"@));
    assert(name_ok("port_forwarding_enabled"@));
    assert(name_ok("preallocation"@));
    assert(name_ok("prefetch_enabled"@));
    assert(name_ok("peer_id_ttl_hours"@));
    assert(name_ok("queue_stalled_enabled"@));
    assert(name_ok("queue_stalled_minutes"@));
    assert(name_ok("ratio_limit"@));
    assert(name_ok("ratio_limit_enabled"@));
    assert(name_ok("rename_partial_files"@));
    assert(name_ok("rpc_authentication_required"@));
    assert(name_ok("rpc_bind_enabled_address"@));
    assert(name_ok("rpc_enabled"@));
    assert(name_ok("rpc_password"@));
    assert(name_ok("rpc_username"@));
    assert(name_ok("rpc_whitelist"@));
    assert(name_ok("rpc_whitelist_enabled"@));
    assert(name_ok("rpc_host_whitelist"@));
    assert(name_ok("rpc_host_whitelist_enabled"@));
    assert(name_ok("rpc_port"@));
    assert(name_ok("rpc_url"@));
    assert(name_ok("scrape_paused_torrents_enabled"@));
    assert(name_ok("script_torrent_done_filename"@));
    assert(name_ok("script_torrent_done_enabled"@));
    assert(name_ok("seed_queue_size"@));
    assert(name_ok("seed_queue_enabled"@));
    assert(name_ok("alt_speed_enabled"@));
    assert(name_ok("alt_speed_up"@));
    assert(name_ok("alt_speed_down"@));
    assert(name_ok("alt_speed_time_begin"@));
    assert(name_ok("alt_speed_time_enabled"@));
    assert(name_ok("alt_speed_time_end"@));
    assert(name_ok("alt_speed_time_day"@));
    assert(name_ok("speed_limit_up"@));
    assert(name_ok("speed_limit_up_enabled"@));
    assert(name_ok("umask"@));
    assert(name_ok("upload_slots_per_torrent"@));
    assert(name_ok("bind_address_ipv4"@));
    assert(name_ok("bind_address_ipv6"@));
    assert(name_ok("start_added_torrents"@));
    assert(name_ok("trash_original_torrent_files"@));
    assert(name_ok("watch_dir"@));
    assert(name_ok("watch_dir_enabled"@));
}

/// No two fields share a name: two names of one length differ in their
/// first, fifth or seventeenth character.
proof fn lemma_names_differ()
    ensures
        forall|i: int, j: int|
            0 <= i < j < FIELD_COUNT ==> #[trigger] field_at(i).name@ != #[trigger] field_at(
                j,
            ).name@,
{
    reveal_strlit("blocklist_enabled");
    reveal_strlit("blocklist_url");
    reveal_strlit("cache_size_mb");
    reveal_strlit("dht_enabled");
    reveal_strlit("utp_enabled");
    reveal_strlit("ltp_enabled");
    reveal_strlit("download_dir");
    reveal_strlit("speed_limit_down");
    reveal_strlit("speed_limit_down_enabled");
    reveal_strlit("encryption");
    reveal_strlit("idle_seeding_limit");
    reveal_strlit("idle_seeding_limit_enabled");
    reveal_strlit("incomplete_dir");
    reveal_strlit("incomplete_dir_enabled");
    reveal_strlit("message_level");
    reveal_strlit("download_queue_size");
    reveal_strlit("download_queue_enabled");
    reveal_strlit("peer_limit_global");
    reveal_strlit("peer_limit_per_torrent");
    reveal_strlit("peer_port");
    reveal_strlit("peer_port_random_on_start");
    reveal_strlit("peer_port_random_low");
    reveal_strlit("peer_port_random_high");
    reveal_strlit("peer_socket_tos");
    reveal_strlit("pex_enabled");
    reveal_strlit("port_forwarding_enabled");
    reveal_strlit("preallocation");
    reveal_strlit("prefetch_enabled");
    reveal_strlit("peer_id_ttl_hours");
    reveal_strlit("queue_stalled_enabled");
    reveal_strlit("queue_stalled_minutes");
    reveal_strlit("ratio_limit");
    reveal_strlit("ratio_limit_enabled");
    reveal_strlit("rename_partial_files");
    reveal_strlit("rpc_authentication_required");
    reveal_strlit("rpc_bind_enabled_address");
    reveal_strlit("rpc_enabled");
    reveal_strlit("rpc_password");
    reveal_strlit("rpc_username");
    reveal_strlit("rpc_whitelist");
    reveal_strlit("rpc_whitelist_enabled");
    reveal_strlit("rpc_host_whitelist");
    reveal_strlit("rpc_host_whitelist_enabled");
    reveal_strlit("rpc_port");
    reveal_strlit("rpc_url");
    reveal_strlit("scrape_paused_torrents_enabled");
    reveal_strlit("script_torrent_done_filename");
    reveal_strlit("script_torrent_done_enabled");
    reveal_strlit("seed_queue_size");
    reveal_strlit("seed_queue_enabled");
    reveal_strlit("alt_speed_enabled");
    reveal_strlit("alt_speed_up");
    reveal_strlit("alt_speed_down");
    reveal_strlit("alt_speed_time_begin");
    reveal_strlit("alt_speed_time_enabled");
    reveal_strlit("alt_speed_time_end");
    reveal_strlit("alt_speed_time_day");
    reveal_strlit("speed_limit_up");
    reveal_strlit("speed_limit_up_enabled");
    reveal_strlit("umask");
    reveal_strlit("upload_slots_per_torrent");
    reveal_strlit("bind_address_ipv4");
    reveal_strlit("bind_address_ipv6");
    reveal_strlit("start_added_torrents");
    reveal_strlit("trash_original_torrent_files");
    reveal_strlit("watch_dir");
    reveal_strlit("watch_dir_enabled");
    assert({
        &&& "blocklist_enabled"@.len() == 17
        &&& "blocklist_enabled"@[0] == 'b'
        &&& "blocklist_enabled"@[4] == 'k'
        &&& "blocklist_enabled"@[16] == 'd'
    });
    assert({
        &&& "blocklist_url"@.len() == 13
        &&& "blocklist_url"@[0] == 'b'
        &&& "blocklist_url"@[4] == 'k'
    });
    assert({
        &&& "cache_size_mb"@.len() == 13
        &&& "cache_size_mb"@[0] == 'c'
        &&& "cache_size_mb"@[4] == 'e'
    });
    assert("dht_enabled"@.len() == 11 && "dht_enabled"@[0] == 'd' && "dht_enabled"@[4] == 'e');
    assert("utp_enabled"@.len() == 11 && "utp_enabled"@[0] == 'u' && "utp_enabled"@[4] == 'e');
    assert("ltp_enabled"@.len() == 11 && "ltp_enabled"@[0] == 'l' && "ltp_enabled"@[4] == 'e');
    assert("download_dir"@.len() == 12 && "download_dir"@[0] == 'd' && "download_dir"@[4] == 'l');
    assert({
        &&& "speed_limit_down"@.len() == 16
        &&& "speed_limit_down"@[0] == 's'
        &&& "speed_limit_down"@[4] == 'd'
    });
    assert({
        &&& "speed_limit_down_enabled"@.len() == 24
        &&& "speed_limit_down_enabled"@[0] == 's'
        &&& "speed_limit_down_enabled"@[4] == 'd'
        &&& "speed_limit_down_enabled"@[16] == '_'
    });
    assert("encryption"@.len() == 10 && "encryption"@[0] == 'e' && "encryption"@[4] == 'y');
    assert({
        &&& "idle_seeding_limit"@.len() == 18
        &&& "idle_seeding_limit"@[0] == 'i'
        &&& "idle_seeding_limit"@[4] == '_'
        &&& "idle_seeding_limit"@[16] == 'i'
    });
    assert({
        &&& "idle_seeding_limit_enabled"@.len() == 26
        &&& "idle_seeding_limit_enabled"@[0] == 'i'
        &&& "idle_seeding_limit_enabled"@[4] == '_'
        &&& "idle_seeding_limit_enabled"@[16] == 'i'
    });
    assert({
        &&& "incomplete_dir"@.len() == 14
        &&& "incomplete_dir"@[0] == 'i'
        &&& "incomplete_dir"@[4] == 'm'
    });
    assert({
        &&& "incomplete_dir_enabled"@.len() == 22
        &&& "incomplete_dir_enabled"@[0] == 'i'
        &&& "incomplete_dir_enabled"@[4] == 'm'
        &&& "incomplete_dir_enabled"@[16] == 'n'
    });
    assert({
        &&& "message_level"@.len() == 13
        &&& "message_level"@[0] == 'm'
        &&& "message_level"@[4] == 'a'
    });
    assert({
        &&& "download_queue_size"@.len() == 19
        &&& "download_queue_size"@[0] == 'd'
        &&& "download_queue_size"@[4] == 'l'
        &&& "download_queue_size"@[16] == 'i'
    });
    assert({
        &&& "download_queue_enabled"@.len() == 22
        &&& "download_queue_enabled"@[0] == 'd'
        &&& "download_queue_enabled"@[4] == 'l'
        &&& "download_queue_enabled"@[16] == 'n'
    });
    assert({
        &&& "peer_limit_global"@.len() == 17
        &&& "peer_limit_global"@[0] == 'p'
        &&& "peer_limit_global"@[4] == '_'
        &&& "peer_limit_global"@[16] == 'l'
    });
    assert({
        &&& "peer_limit_per_torrent"@.len() == 22
        &&& "peer_limit_per_torrent"@[0] == 'p'
        &&& "peer_limit_per_torrent"@[4] == '_'
        &&& "peer_limit_per_torrent"@[16] == 'o'
    });
    assert("peer_port"@.len() == 9 && "peer_port"@[0] == 'p' && "peer_port"@[4] == '_');
    assert({
        &&& "peer_port_random_on_start"@.len() == 25
        &&& "peer_port_random_on_start"@[0] == 'p'
        &&& "peer_port_random_on_start"@[4] == '_'
        &&& "peer_port_random_on_start"@[16] == '_'
    });
    assert({
        &&& "peer_port_random_low"@.len() == 20
        &&& "peer_port_random_low"@[0] == 'p'
        &&& "peer_port_random_low"@[4] == '_'
        &&& "peer_port_random_low"@[16] == '_'
    });
    assert({
        &&& "peer_port_random_high"@.len() == 21
        &&& "peer_port_random_high"@[0] == 'p'
        &&& "peer_port_random_high"@[4] == '_'
        &&& "peer_port_random_high"@[16] == '_'
    });
    assert({
        &&& "peer_socket_tos"@.len() == 15
        &&& "peer_socket_tos"@[0] == 'p'
        &&& "peer_socket_tos"@[4] == '_'
    });
    assert("pex_enabled"@.len() == 11 && "pex_enabled"@[0] == 'p' && "pex_enabled"@[4] == 'e');
    assert({
        &&& "port_forwarding_enabled"@.len() == 23
        &&& "port_forwarding_enabled"@[0] == 'p'
        &&& "port_forwarding_enabled"@[4] == '_'
        &&& "port_forwarding_enabled"@[16] == 'e'
    });
    assert({
        &&& "preallocation"@.len() == 13
        &&& "preallocation"@[0] == 'p'
        &&& "preallocation"@[4] == 'l'
    });
    assert({
        &&& "prefetch_enabled"@.len() == 16
        &&& "prefetch_enabled"@[0] == 'p'
        &&& "prefetch_enabled"@[4] == 'e'
    });
    assert({
        &&& "peer_id_ttl_hours"@.len() == 17
        &&& "peer_id_ttl_hours"@[0] == 'p'
        &&& "peer_id_ttl_hours"@[4] == '_'
        &&& "peer_id_ttl_hours"@[16] == 's'
    });
    assert({
        &&& "queue_stalled_enabled"@.len() == 21
        &&& "queue_stalled_enabled"@[0] == 'q'
        &&& "queue_stalled_enabled"@[4] == 'e'
        &&& "queue_stalled_enabled"@[16] == 'a'
    });
    assert({
        &&& "queue_stalled_minutes"@.len() == 21
        &&& "queue_stalled_minutes"@[0] == 'q'
        &&& "queue_stalled_minutes"@[4] == 'e'
        &&& "queue_stalled_minutes"@[16] == 'n'
    });
    assert("ratio_limit"@.len() == 11 && "ratio_limit"@[0] == 'r' && "ratio_limit"@[4] == 'o');
    assert({
        &&& "ratio_limit_enabled"@.len() == 19
        &&& "ratio_limit_enabled"@[0] == 'r'
        &&& "ratio_limit_enabled"@[4] == 'o'
        &&& "ratio_limit_enabled"@[16] == 'l'
    });
    assert({
        &&& "rename_partial_files"@.len() == 20
        &&& "rename_partial_files"@[0] == 'r'
        &&& "rename_partial_files"@[4] == 'm'
        &&& "rename_partial_files"@[16] == 'i'
    });
    assert({
        &&& "rpc_authentication_required"@.len() == 27
        &&& "rpc_authentication_required"@[0] == 'r'
        &&& "rpc_authentication_required"@[4] == 'a'
        &&& "rpc_authentication_required"@[16] == 'o'
    });
    assert({
        &&& "rpc_bind_enabled_address"@.len() == 24
        &&& "rpc_bind_enabled_address"@[0] == 'r'
        &&& "rpc_bind_enabled_address"@[4] == 'b'
        &&& "rpc_bind_enabled_address"@[16] == '_'
    });
    assert("rpc_enabled"@.len() == 11 && "rpc_enabled"@[0] == 'r' && "rpc_enabled"@[4] == 'e');
    assert("rpc_password"@.len() == 12 && "rpc_password"@[0] == 'r' && "rpc_password"@[4] == 'p');
    assert("rpc_username"@.len() == 12 && "rpc_username"@[0] == 'r' && "rpc_username"@[4] == 'u');
    assert({
        &&& "rpc_whitelist"@.len() == 13
        &&& "rpc_whitelist"@[0] == 'r'
        &&& "rpc_whitelist"@[4] == 'w'
    });
    assert({
        &&& "rpc_whitelist_enabled"@.len() == 21
        &&& "rpc_whitelist_enabled"@[0] == 'r'
        &&& "rpc_whitelist_enabled"@[4] == 'w'
        &&& "rpc_whitelist_enabled"@[16] == 'a'
    });
    assert({
        &&& "rpc_host_whitelist"@.len() == 18
        &&& "rpc_host_whitelist"@[0] == 'r'
        &&& "rpc_host_whitelist"@[4] == 'h'
        &&& "rpc_host_whitelist"@[16] == 's'
    });
    assert({
        &&& "rpc_host_whitelist_enabled"@.len() == 26
        &&& "rpc_host_whitelist_enabled"@[0] == 'r'
        &&& "rpc_host_whitelist_enabled"@[4] == 'h'
        &&& "rpc_host_whitelist_enabled"@[16] == 's'
    });
    assert("rpc_port"@.len() == 8 && "rpc_port"@[0] == 'r' && "rpc_port"@[4] == 'p');
    assert("rpc_url"@.len() == 7 && "rpc_url"@[0] == 'r' && "rpc_url"@[4] == 'u');
    assert({
        &&& "scrape_paused_torrents_enabled"@.len() == 30
        &&& "scrape_paused_torrents_enabled"@[0] == 's'
        &&& "scrape_paused_torrents_enabled"@[4] == 'p'
        &&& "scrape_paused_torrents_enabled"@[16] == 'r'
    });
    assert({
        &&& "script_torrent_done_filename"@.len() == 28
        &&& "script_torrent_done_filename"@[0] == 's'
        &&& "script_torrent_done_filename"@[4] == 'p'
        &&& "script_torrent_done_filename"@[16] == 'o'
    });
    assert({
        &&& "script_torrent_done_enabled"@.len() == 27
        &&& "script_torrent_done_enabled"@[0] == 's'
        &&& "script_torrent_done_enabled"@[4] == 'p'
        &&& "script_torrent_done_enabled"@[16] == 'o'
    });
    assert({
        &&& "seed_queue_size"@.len() == 15
        &&& "seed_queue_size"@[0] == 's'
        &&& "seed_queue_size"@[4] == '_'
    });
    assert({
        &&& "seed_queue_enabled"@.len() == 18
        &&& "seed_queue_enabled"@[0] == 's'
        &&& "seed_queue_enabled"@[4] == '_'
        &&& "seed_queue_enabled"@[16] == 'e'
    });
    assert({
        &&& "alt_speed_enabled"@.len() == 17
        &&& "alt_speed_enabled"@[0] == 'a'
        &&& "alt_speed_enabled"@[4] == 's'
        &&& "alt_speed_enabled"@[16] == 'd'
    });
    assert("alt_speed_up"@.len() == 12 && "alt_speed_up"@[0] == 'a' && "alt_speed_up"@[4] == 's');
    assert({
        &&& "alt_speed_down"@.len() == 14
        &&& "alt_speed_down"@[0] == 'a'
        &&& "alt_speed_down"@[4] == 's'
    });
    assert({
        &&& "alt_speed_time_begin"@.len() == 20
        &&& "alt_speed_time_begin"@[0] == 'a'
        &&& "alt_speed_time_begin"@[4] == 's'
        &&& "alt_speed_time_begin"@[16] == 'e'
    });
    assert({
        &&& "alt_speed_time_enabled"@.len() == 22
        &&& "alt_speed_time_enabled"@[0] == 'a'
        &&& "alt_speed_time_enabled"@[4] == 's'
        &&& "alt_speed_time_enabled"@[16] == 'n'
    });
    assert({
        &&& "alt_speed_time_end"@.len() == 18
        &&& "alt_speed_time_end"@[0] == 'a'
        &&& "alt_speed_time_end"@[4] == 's'
        &&& "alt_speed_time_end"@[16] == 'n'
    });
    assert({
        &&& "alt_speed_time_day"@.len() == 18
        &&& "alt_speed_time_day"@[0] == 'a'
        &&& "alt_speed_time_day"@[4] == 's'
        &&& "alt_speed_time_day"@[16] == 'a'
    });
    assert({
        &&& "speed_limit_up"@.len() == 14
        &&& "speed_limit_up"@[0] == 's'
        &&& "speed_limit_up"@[4] == 'd'
    });
    assert({
        &&& "speed_limit_up_enabled"@.len() == 22
        &&& "speed_limit_up_enabled"@[0] == 's'
        &&& "speed_limit_up_enabled"@[4] == 'd'
        &&& "speed_limit_up_enabled"@[16] == 'n'
    });
    assert("umask"@.len() == 5 && "umask"@[0] == 'u' && "umask"@[4] == 'k');
    assert({
        &&& "upload_slots_per_torrent"@.len() == 24
        &&& "upload_slots_per_torrent"@[0] == 'u'
        &&& "upload_slots_per_torrent"@[4] == 'a'
        &&& "upload_slots_per_torrent"@[16] == '_'
    });
    assert({
        &&& "bind_address_ipv4"@.len() == 17
        &&& "bind_address_ipv4"@[0] == 'b'
        &&& "bind_address_ipv4"@[4] == '_'
        &&& "bind_address_ipv4"@[16] == '4'
    });
    assert({
        &&& "bind_address_ipv6"@.len() == 17
        &&& "bind_address_ipv6"@[0] == 'b'
        &&& "bind_address_ipv6"@[4] == '_'
        &&& "bind_address_ipv6"@[16] == '6'
    });
    assert({
        &&& "start_added_torrents"@.len() == 20
        &&& "start_added_torrents"@[0] == 's'
        &&& "start_added_torrents"@[4] == 't'
        &&& "start_added_torrents"@[16] == 'e'
    });
    assert({
        &&& "trash_original_torrent_files"@.len() == 28
        &&& "trash_original_torrent_files"@[0] == 't'
        &&& "trash_original_torrent_files"@[4] == 'h'
        &&& "trash_original_torrent_files"@[16] == 'o'
    });
    assert("watch_dir"@.len() == 9 && "watch_dir"@[0] == 'w' && "watch_dir"@[4] == 'h');
    assert({
        &&& "watch_dir_enabled"@.len() == 17
        &&& "watch_dir_enabled"@[0] == 'w'
        &&& "watch_dir_enabled"@[4] == 'h'
        &&& "watch_dir_enabled"@[16] == 'd'
    });
}

/// The schema of the settings can be written and read back.
pub proof fn lemma_schema_ok()
    ensures
        schema_ok(settings_schema()),
{
    let schema = settings_schema();
    lemma_names_ok();
    lemma_names_differ();
    assert forall|i: int| 0 <= i < schema.len() implies name_ok((#[trigger] schema[i]).name@) by {
        assert(schema[i] == field_at(i));
    }
    assert forall|i: int, j: int| 0 <= i < j < schema.len() implies (#[trigger] schema[i]).name@
        != (#[trigger] schema[j]).name@ by {
        assert(schema[i] == field_at(i) && schema[j] == field_at(j));
    }
}

/// The document of settings: a line `name = value` for each field that is
/// set, in the order of the fields.
pub open spec fn serialized(settings: SettingsView) -> Seq<char> {
    document_text(settings_schema(), settings.values())
}

/// What reading a document as settings comes to: the settings that the
/// values of its fields make, or the error that reading them against the
/// schema gives.
pub open spec fn deserialized(text: Seq<char>) -> Result<SettingsView, SchemaErrorView> {
    match document_read(text, settings_schema()) {
        Ok(values) => Ok(SettingsView::of_values(values)),
        Err(error) => Err(error),
    }
}

/// What reading bytes as settings comes to: bytes that are no UTF-8 text are
/// an error; else what reading the text comes to.
pub open spec fn deserialized_bytes(bytes: Seq<u8>) -> Result<SettingsView, SchemaErrorView> {
    if valid_utf8(bytes) {
        deserialized(decode_utf8(bytes))
    } else {
        Err(SchemaErrorView::NotText)
    }
}

/// The view of settings that were read, or of the error in their place.
pub open spec fn settings_view(outcome: Result<SessionSettings, SchemaError>) -> Result<
    SettingsView,
    SchemaErrorView,
> {
    match outcome {
        Ok(settings) => Ok(settings@),
        Err(error) => Err(error@),
    }
}

/// The text that bytes hold in UTF-8.
///
/// Wraps `std::str::from_utf8`: there is a text exactly where the bytes are
/// valid UTF-8, and it is the one that they encode.
#[verifier::external_body]
fn utf8_text(bytes: &[u8]) -> (text: Option<&str>)
    ensures
        match text {
            Some(found) => valid_utf8(bytes@) && found@ == decode_utf8(bytes@),
            None => !valid_utf8(bytes@),
        },
{
    std::str::from_utf8(bytes).ok()
}

/// Writes the document of settings as a text.
pub fn to_text(settings: &SessionSettings) -> (text: String)
    ensures
        text@ == serialized(settings@),
{
    let fields = schema();
    let values = settings.to_values();
    write_document(&fields, &values)
}

/// Reads settings from the text of a document.
pub fn from_text(text: &str) -> (outcome: Result<SessionSettings, SchemaError>)
    ensures
        settings_view(outcome) == deserialized(text@),
        outcome matches Ok(settings) ==> settings@.in_bounds(),
{
    let fields = schema();
    match read_document(text, &fields) {
        Ok(values) => {
            proof {
                let read = value_views(values@);
                assert forall|at: int| 0 <= at < FIELD_COUNT implies conforms(
                    #[trigger] read[at],
                    field_at(at).kind,
                ) by {
                    assert(fields@[at] == field_at(at));
                }
                assert(conforms(read[53], field_at(53).kind));
                assert(conforms(read[55], field_at(55).kind));
            }
            Ok(SessionSettings::from_values(&values))
        },
        Err(error) => Err(error),
    }
}

/// Writes the document of settings.
pub fn serialize(settings: &SessionSettings) -> (bytes: Vec<u8>)
    ensures
        bytes@ == encode_utf8(serialized(settings@)),
{
    to_text(settings).as_str().as_bytes_vec()
}

/// Reads settings from the bytes of a document.
pub fn deserialize(bytes: &[u8]) -> (outcome: Result<SessionSettings, SchemaError>)
    ensures
        settings_view(outcome) == deserialized_bytes(bytes@),
        outcome matches Ok(settings) ==> settings@.in_bounds(),
{
    match utf8_text(bytes) {
        Some(text) => from_text(text),
        None => Err(SchemaError::NotText),
    }
}

/// Reading the document of settings gives the settings back: for all valid
/// settings, `deserialize(serialize(settings))` is `settings`.
pub proof fn law_round_trip(settings: SettingsView)
    requires
        settings.is_valid(),
    ensures
        deserialized(serialized(settings)) == Ok::<SettingsView, SchemaErrorView>(settings),
        deserialized_bytes(encode_utf8(serialized(settings))) == Ok::<
            SettingsView,
            SchemaErrorView,
        >(settings),
{
    lemma_schema_ok();
    settings.lemma_values_fit();
    lemma_document_round_trip(settings_schema(), settings.values());
    settings.lemma_of_own_values();
    encode_utf8_valid_utf8(serialized(settings));
    encode_utf8_decode_utf8(serialized(settings));
}

/// The bounds of the settings are those of the schema: settings are within
/// bounds exactly when each of their values is within the bounds of its
/// field.
pub proof fn law_bounds_agree(settings: SettingsView)
    ensures
        settings.in_bounds() <==> values_conform(settings_schema(), settings.values()),
{
    let schema = settings_schema();
    let values = settings.values();
    if settings.in_bounds() {
        assert forall|at: int| 0 <= at < schema.len() implies conforms(
            #[trigger] values[at],
            schema[at].kind,
        ) by {
            assert(values[at] == settings.value_at(at));
            assert(schema[at] == field_at(at));
        }
    }
    if values_conform(schema, values) {
        assert(schema[53] == field_at(53) && schema[55] == field_at(55));
        assert(conforms(values[53], schema[53].kind));
        assert(conforms(values[55], schema[55].kind));
    }
}

/// A number out of range is refused with its field: where the lines of a
/// document can be read, the fields before a number have their values, and
/// the text of the number writes more than the bound of its field or
/// follows a minus sign, reading the document gives that the field is out of
/// range, with the text as it was written. So it is for a port of `65536`
/// and for one of `-1`.
pub proof fn law_number_out_of_range_is_refused(text: Seq<char>, at: int, max: u32, raw: Seq<char>)
    requires
        0 <= at < FIELD_COUNT,
        field_at(at).kind == Kind::Count(max),
        entries_of(split(text, '\n')) is Ok,
        forall|j: int|
            0 <= j < at ==> field_read(
                entries_of(split(text, '\n'))->Ok_0,
                #[trigger] field_at(j),
            ) is Ok,
        lookup(entries_of(split(text, '\n'))->Ok_0, field_at(at).name@) == Some(raw),
        (raw.len() > 0 && all_digits(raw, 10) && value_of(raw, 10) > max) || (raw.len() > 1
            && raw[0] == '-' && all_digits(raw.skip(1), 10)),
    ensures
        deserialized(text) == Err::<SettingsView, SchemaErrorView>(
            SchemaErrorView::OutOfRange(field_at(at).name, raw),
        ),
{
    let schema = settings_schema();
    let entries = entries_of(split(text, '\n'))->Ok_0;
    assert(schema[at] == field_at(at));
    assert forall|j: int| 0 <= j < at implies field_read(entries, #[trigger] schema[j]) is Ok by {
        assert(schema[j] == field_at(j));
    }
    law_number_out_of_range(entries, field_at(at), max, raw);
    law_first_fault_is_reported(text, schema, at);
}

/// Settings that were read have their numbers within bounds.
pub proof fn law_read_in_bounds(text: Seq<char>)
    ensures
        deserialized(text) matches Ok(settings) ==> settings.in_bounds(),
{
    let schema = settings_schema();
    if document_read(text, schema) is Ok {
        let values = document_read(text, schema)->Ok_0;
        lemma_document_conforms(text, schema);
        assert(schema[53] == field_at(53) && schema[55] == field_at(55));
        assert(conforms(values[53], schema[53].kind));
        assert(conforms(values[55], schema[55].kind));
    }
}
} // verus!
