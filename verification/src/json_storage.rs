//! The host store that is kept in one JSON file.
use crate::error::AppError;
use crate::host::HostId;
use crate::storage::{
    adds, clone_pair_info, has_room, modifies, reads, removes, HostRecord, MacAddress, Storage,
    StorageHost, StorageHostAdd, StorageHostCache, StorageHostModify, StorageHostPairInfo,
};
use std::collections::HashMap;
use vstd::prelude::*;
use vstd::set_lib::{lemma_int_range, lemma_len_subset, lemma_map_size, set_int_range};

verus! {

broadcast use vstd::std_specs::hash::group_hash_axioms;

/// The error stack of the `openssl` crate, carried through as it is.
#[verifier::external_type_specification]
#[verifier::external_body]
pub struct ExErrorStack(openssl::error::ErrorStack);

/// `openssl::rand::rand_bytes`: fills the buffer, whose length stays as it is. Which
/// bytes it is filled with, and whether the generator fails, is left open.
pub assume_specification[ openssl::rand::rand_bytes ](buf: &mut [u8]) -> (r: Result<
    (),
    openssl::error::ErrorStack,
>)
    requires
        old(buf)@.len() <= i32::MAX,
    ensures
        final(buf)@.len() == old(buf)@.len(),
;

/// A host as it is written to the file.
pub struct V2Host {
    pub address: String,
    pub http_port: u16,
    pub pair_info: Option<V2HostPairInfo>,
    pub cache: V2HostCache,
}

/// Pairing data as it is written to the file.
pub struct V2HostPairInfo {
    pub client_private_key: pem::Pem,
    pub client_certificate: pem::Pem,
    pub server_certificate: pem::Pem,
}

/// What was last seen of a host, as it is written to the file.
pub struct V2HostCache {
    pub name: String,
    pub mac: Option<MacAddress>,
}

/// The contents of the file.
pub struct V2 {
    pub hosts: HashMap<u32, V2Host>,
}

impl V2HostPairInfo {
    /// The pairing data that this stands for.
    pub open spec fn pair_info(self) -> StorageHostPairInfo {
        StorageHostPairInfo {
            client_private_key: self.client_private_key,
            client_certificate: self.client_certificate,
            server_certificate: self.server_certificate,
        }
    }
}

impl View for V2Host {
    type V = HostRecord;

    open spec fn view(&self) -> HostRecord {
        HostRecord {
            address: self.address@,
            http_port: self.http_port,
            pair_info: match self.pair_info {
                Some(pair_info) => Some(pair_info.pair_info()),
                None => None,
            },
            name: self.cache.name@,
            mac: self.cache.mac,
        }
    }
}

/// The hosts that a map of written hosts stands for.
pub open spec fn records(hosts: Map<u32, V2Host>) -> Map<u32, HostRecord> {
    hosts.map_values(|host: V2Host| host@)
}

/// Pairing data in the form of the file.
fn pair_info_to_json(info: StorageHostPairInfo) -> (r: V2HostPairInfo)
    ensures
        r.pair_info() == info,
{
    V2HostPairInfo {
        client_private_key: info.client_private_key,
        client_certificate: info.client_certificate,
        server_certificate: info.server_certificate,
    }
}

/// Optional pairing data in the form of the file.
fn optional_pair_info_to_json(info: Option<StorageHostPairInfo>) -> (r: Option<V2HostPairInfo>)
    ensures
        match info {
            Some(value) => r is Some && r->0.pair_info() == value,
            None => r is None,
        },
{
    match info {
        Some(value) => Some(pair_info_to_json(value)),
        None => None,
    }
}

/// Pairing data out of the form of the file.
fn pair_info_from_json(info: &V2HostPairInfo) -> (r: StorageHostPairInfo)
    ensures
        r == info.pair_info(),
{
    StorageHostPairInfo {
        client_private_key: info.client_private_key.clone(),
        client_certificate: info.client_certificate.clone(),
        server_certificate: info.server_certificate.clone(),
    }
}

/// A host to be stored, in the form of the file.
fn host_to_json(host: &StorageHostAdd) -> (r: V2Host)
    ensures
        r@ == host@,
{
    V2Host {
        address: host.address.clone(),
        http_port: host.http_port,
        pair_info: optional_pair_info_to_json(clone_pair_info(&host.pair_info)),
        cache: V2HostCache { name: host.cache.name.clone(), mac: host.cache.mac },
    }
}

/// A written host under its identifier.
pub fn host_from_json(host_id: HostId, host: &V2Host) -> (r: StorageHost)
    ensures
        r.id == host_id,
        r@ == host@,
        r.address@ == host.address@,
        r.http_port == host.http_port,
        r.cache.name@ == host.cache.name@,
        r.cache.mac == host.cache.mac,
        r.pair_info is Some <==> host.pair_info is Some,
        host.pair_info matches Some(pair_info) ==> r.pair_info->0.client_private_key
            == pair_info.client_private_key && r.pair_info->0.client_certificate
            == pair_info.client_certificate && r.pair_info->0.server_certificate
            == pair_info.server_certificate,
{
    StorageHost {
        id: host_id,
        address: host.address.clone(),
        http_port: host.http_port,
        pair_info: match &host.pair_info {
            Some(pair_info) => Some(pair_info_from_json(pair_info)),
            None => None,
        },
        cache: StorageHostCache { name: host.cache.name.clone(), mac: host.cache.mac },
    }
}

/// A copy of a written host.
fn clone_json_host(host: &V2Host) -> (r: V2Host)
    ensures
        r@ == host@,
{
    V2Host {
        address: host.address.clone(),
        http_port: host.http_port,
        pair_info: match &host.pair_info {
            Some(pair_info) => Some(pair_info_to_json(pair_info_from_json(pair_info))),
            None => None,
        },
        cache: V2HostCache { name: host.cache.name.clone(), mac: host.cache.mac },
    }
}

/// The number that four bytes write, most significant byte first.
pub open spec fn big_endian(bytes: Seq<u8>) -> int {
    bytes[0] * 0x1000000 + bytes[1] * 0x10000 + bytes[2] * 0x100 + bytes[3]
}

/// Reads four bytes as a number, most significant byte first.
pub fn id_from_bytes(bytes: &[u8; 4]) -> (r: u32)
    ensures
        r == big_endian(bytes@),
{
    bytes[0] as u32 * 0x1000000 + bytes[1] as u32 * 0x10000 + bytes[2] as u32 * 0x100
        + bytes[3] as u32
}

/// `ids` are the identifiers of a walk through written hosts, in its order.
pub open spec fn follows(ids: Seq<HostId>, walk: Seq<(&u32, &V2Host)>) -> bool {
    ids.len() == walk.len() && forall|i: int|
        0 <= i < walk.len() ==> (#[trigger] ids[i]).0 == *walk[i].0
}

/// `r` is the judgement on four bytes that were drawn for an identifier.
pub open spec fn judges_draw(
    hosts: Map<u32, HostRecord>,
    drawn: Result<[u8; 4], String>,
    r: Result<Option<u32>, AppError>,
) -> bool {
    match drawn {
        Ok(bytes) => r == Ok::<Option<u32>, AppError>(
            if hosts.contains_key(big_endian(bytes@) as u32) {
                None
            } else {
                Some(big_endian(bytes@) as u32)
            },
        ),
        Err(text) => r == Err::<Option<u32>, AppError>(AppError::OpenSSL(text)),
    }
}

/// What was found where the file is kept.
pub enum StoredFile {
    /// There is no file.
    Missing,
    /// The file could not be read; with the reason.
    Unreadable(String),
    /// The file holds no contents of a known version; with the reason, and with the
    /// reason why it is not of the current version either, where there is one.
    Malformed { error: String, version_error: Option<String> },
    /// The file is of an older version that could not be brought up to date; with
    /// the reason.
    NotMigrated(String),
    /// The contents of the file.
    Data(V2),
}

impl StoredFile {
    /// The text of the failure to load this file, where loading fails.
    pub open spec fn failure(self) -> Option<Seq<char>> {
        match self {
            StoredFile::Missing => None,
            StoredFile::Data(_) => None,
            StoredFile::Unreadable(reason) => Some("Failed to read data: "@ + reason@),
            StoredFile::NotMigrated(reason) => Some(reason@),
            StoredFile::Malformed { error, version_error } => Some(
                "Failed to deserialize data as json: "@ + error@ + ", Version specific error: "@ + (
                match version_error {
                    Some(text) => text@,
                    None => "none"@,
                }),
            ),
        }
    }

    /// The hosts in the file; a missing file holds none.
    pub open spec fn hosts(self) -> Map<u32, HostRecord> {
        match self {
            StoredFile::Data(data) => records(data.hosts@),
            _ => Map::empty(),
        }
    }
}

/// The host store: the hosts in memory, and whether the file is behind them.
pub struct JsonStorage {
    pub hosts: HashMap<u32, V2Host>,
    /// A write of the file was asked for and has not begun.
    pub write_pending: bool,
}

impl JsonStorage {
    /// Takes over what was found in the file. A missing file is an empty store.
    pub fn load(file: StoredFile) -> (r: Result<JsonStorage, String>)
        ensures
            match r {
                Ok(storage) => file.failure() is None && storage.hosts() == file.hosts()
                    && !storage.write_pending,
                Err(text) => file.failure() == Some(text@),
            },
    {
        match file {
            StoredFile::Missing => {
                let storage = JsonStorage { hosts: HashMap::new(), write_pending: false };
                proof {
                    assert(storage.hosts() =~= Map::<u32, HostRecord>::empty());
                }
                Ok(storage)
            },
            StoredFile::Unreadable(reason) => Err(
                "Failed to read data: ".to_owned().concat(reason.as_str()),
            ),
            StoredFile::NotMigrated(reason) => Err(reason),
            StoredFile::Malformed { error, version_error } => {
                let version_text = match version_error {
                    Some(text) => text,
                    None => "none".to_owned(),
                };
                Err(
                    "Failed to deserialize data as json: ".to_owned().concat(error.as_str()).concat(
                        ", Version specific error: ",
                    ).concat(version_text.as_str()),
                )
            },
            StoredFile::Data(data) => Ok(JsonStorage { hosts: data.hosts, write_pending: false }),
        }
    }

    /// Asks for a write of the file.
    pub fn force_write(&mut self)
        ensures
            final(self).hosts() == old(self).hosts(),
            final(self).write_pending,
    {
        self.write_pending = true;
    }

    /// Begins a write where one was asked for. Requests that came in the meantime
    /// count as one.
    pub fn take_write_request(&mut self) -> (r: bool)
        ensures
            r == old(self).write_pending,
            !final(self).write_pending,
            final(self).hosts() == old(self).hosts(),
    {
        let pending = self.write_pending;
        self.write_pending = false;
        pending
    }

    /// The contents to be written to the file.
    pub fn store(&self) -> (r: V2)
        ensures
            records(r.hosts@) == self.hosts(),
    {
        let mut hosts: HashMap<u32, V2Host> = HashMap::new();
        for entry in it: self.hosts.iter()
            invariant
                it.seq() == vstd::std_specs::iter::IteratorSpec::remaining(
                    &vstd::std_specs::hash::spec_hash_map_iter(&self.hosts),
                ),
                forall|k: u32| #[trigger]
                    hosts@.contains_key(k) ==> self.hosts@.contains_key(k) && hosts@[k]@
                        == self.hosts@[k]@,
                forall|j: int|
                    0 <= j < it.index() ==> hosts@.contains_key(*(#[trigger] it.seq()[j]).0),
        {
            hosts.insert(*entry.0, clone_json_host(entry.1));
        }
        proof {
            assert(records(hosts@) =~= self.hosts());
        }
        V2 { hosts }
    }

    /// Stores a host under the identifier `id`, unless that is in use.
    pub fn insert_host(&mut self, id: u32, host: &StorageHostAdd) -> (r: Option<StorageHost>)
        ensures
            r is None <==> old(self).hosts().contains_key(id),
            match r {
                Some(stored) => stored.id.0 == id && final(self).write_pending && adds(
                    old(self).hosts(),
                    final(self).hosts(),
                    host@,
                    stored,
                ),
                None => *final(self) == *old(self),
            },
    {
        if self.hosts.contains_key(&id) {
            return None;
        }
        let written = host_to_json(host);
        let stored = host_from_json(HostId(id), &written);
        self.hosts.insert(id, written);
        self.force_write();
        proof {
            assert(self.hosts() =~= old(self).hosts().insert(id, host@));
        }
        Some(stored)
    }

    /// Takes four bytes that were drawn for an identifier, or why none could be drawn.
    /// `None` says that the identifier is in use, and that another one is to be drawn.
    pub fn on_drawn(&self, drawn: Result<[u8; 4], String>) -> (r: Result<Option<u32>, AppError>)
        ensures
            judges_draw(self.hosts(), drawn, r),
            match drawn {
                Ok(bytes) => {
                    &&& r matches Ok(id)
                    &&& id is None <==> self.hosts().contains_key(big_endian(bytes@) as u32)
                    &&& id matches Some(id) ==> id == big_endian(bytes@)
                },
                Err(text) => r == Err::<Option<u32>, AppError>(AppError::OpenSSL(text)),
            },
    {
        match drawn {
            Ok(bytes) => {
                let id = id_from_bytes(&bytes);
                if self.hosts.contains_key(&id) {
                    Ok(None)
                } else {
                    Ok(Some(id))
                }
            },
            Err(text) => Err(AppError::OpenSSL(text)),
        }
    }

    /// Whether some identifier is not in use.
    pub fn has_free_id(&self) -> (r: bool)
        ensures
            r == has_room(self.hosts()),
    {
        proof {
            assert(self.hosts().dom() =~= self.hosts@.dom());
            lemma_room_is_a_matter_of_size(self.hosts());
        }
        self.hosts.len() as u64 <= 0xFFFF_FFFF
    }

    /// The first identifier that is not in use.
    fn first_free_id(&self) -> (r: u32)
        requires
            has_room(self.hosts()),
        ensures
            !self.hosts().contains_key(r),
    {
        let mut id: u32 = 0;
        while self.hosts.contains_key(&id)
            invariant
                has_room(self.hosts()),
                forall|k: u32| k < id ==> self.hosts().contains_key(k),
            decreases u32::MAX - id,
        {
            proof {
                let free = choose|k: u32| !self.hosts().contains_key(k);
                assert(self.hosts().contains_key(id));
                assert(free > id);
            }
            id = id + 1;
        }
        id
    }

    /// Draws identifiers at random until one is not in use. Draws beyond any number that
    /// can be made leave the first free identifier.
    pub fn draw_free_id(&self) -> (r: Result<u32, AppError>)
        requires
            has_room(self.hosts()),
        ensures
            match r {
                Ok(id) => !self.hosts().contains_key(id),
                Err(error) => error is OpenSSL,
            },
    {
        let mut left: u64 = u64::MAX;
        while left > 0
            invariant
                has_room(self.hosts()),
            decreases left,
        {
            let mut id_bytes: [u8; 4] = [0u8;4];
            let drawn = match openssl::rand::rand_bytes(&mut id_bytes) {
                Ok(_) => Ok(id_bytes),
                Err(error) => Err(error.to_string()),
            };
            match self.on_drawn(drawn) {
                Ok(Some(id)) => {
                    return Ok(id);
                },
                Ok(None) => {},
                Err(error) => {
                    return Err(error);
                },
            }
            left = left - 1;
        }
        Ok(self.first_free_id())
    }
}

/// Some identifier is free exactly where fewer hosts are stored than there are
/// identifiers.
proof fn lemma_room_is_a_matter_of_size(hosts: Map<u32, HostRecord>)
    requires
        hosts.dom().finite(),
    ensures
        has_room(hosts) <==> hosts.dom().len() <= 0xFFFF_FFFF,
{
    let used = hosts.dom();
    let number = |id: u32| id as int;
    let all = set_int_range(0, 0x1_0000_0000);
    lemma_int_range(0, 0x1_0000_0000);
    if has_room(hosts) {
        let free = choose|id: u32| !hosts.contains_key(id);
        let more = used.insert(free);
        let numbers = more.map(number);
        lemma_map_size(more, numbers, number);
        assert(numbers.subset_of(all));
        lemma_len_subset(numbers, all);
    } else {
        assert(used.map(number) =~= all) by {
            assert forall|n: int| all.contains(n) implies used.map(number).contains(n) by {
                let id = n as u32;
                assert(hosts.contains_key(id));
                assert(used.contains(id) && number(id) == n);
            }
        }
        lemma_map_size(used, all, number);
    }
}

impl Storage for JsonStorage {
    open spec fn hosts(&self) -> Map<u32, HostRecord> {
        records(self.hosts@)
    }

    fn add_host(&mut self, host: &StorageHostAdd) -> (r: Result<StorageHost, AppError>)
        ensures
            match r {
                Ok(_) => final(self).write_pending,
                Err(error) => error is OpenSSL && *final(self) == *old(self),
            },
    {
        match self.draw_free_id() {
            Ok(id) => match self.insert_host(id, host) {
                Some(stored) => Ok(stored),
                None => vstd::pervasive::unreached(),
            },
            Err(error) => Err(error),
        }
    }

    fn modify_host(&mut self, host_id: HostId, modify: StorageHostModify) -> (r: Result<
        (),
        AppError,
    >)
        ensures
            modifies(old(self).hosts(), final(self).hosts(), host_id, modify, r),
            final(self).write_pending == (old(self).write_pending || r is Ok),
    {
        let mut host = match self.hosts.remove(&host_id.0) {
            Some(host) => host,
            None => {
                proof {
                    assert(self.hosts() =~= old(self).hosts());
                }
                return Err(AppError::HostNotFound);
            },
        };
        if let Some(new_address) = modify.address {
            host.address = new_address;
        }
        if let Some(new_http_port) = modify.http_port {
            host.http_port = new_http_port;
        }
        if let Some(new_pair_info) = modify.pair_info {
            host.pair_info = optional_pair_info_to_json(new_pair_info);
        }
        if let Some(new_name) = modify.cache_name {
            host.cache.name = new_name;
        }
        if let Some(new_mac) = modify.cache_mac {
            host.cache.mac = new_mac;
        }
        proof {
            assert(host@ == modify.applied_to(old(self).hosts()[host_id.0]));
        }
        self.hosts.insert(host_id.0, host);
        self.force_write();
        proof {
            assert(self.hosts() =~= old(self).hosts().insert(
                host_id.0,
                modify.applied_to(old(self).hosts()[host_id.0]),
            ));
        }
        Ok(())
    }

    fn get_host(&self, host_id: HostId) -> (r: Result<StorageHost, AppError>)
        ensures
            reads(self.hosts(), host_id, r),
    {
        match self.hosts.get(&host_id.0) {
            Some(host) => Ok(host_from_json(host_id, host)),
            None => Err(AppError::HostNotFound),
        }
    }

    fn remove_host(&mut self, host_id: HostId) -> (r: Result<(), AppError>)
        ensures
            removes(old(self).hosts(), final(self).hosts(), host_id, r),
            final(self).write_pending,
    {
        let result = match self.hosts.remove(&host_id.0) {
            None => Err(AppError::HostNotFound),
            Some(_) => Ok(()),
        };
        self.force_write();
        proof {
            assert(self.hosts() =~= old(self).hosts().remove(host_id.0));
            if !old(self).hosts().contains_key(host_id.0) {
                assert(self.hosts() =~= old(self).hosts());
            }
        }
        result
    }

    fn list_hosts(&self) -> (r: Result<Vec<(HostId, Option<StorageHost>)>, AppError>)
        ensures
            r is Ok,
            forall|i: int| 0 <= i < r->Ok_0@.len() ==> (#[trigger] r->Ok_0@[i]).1 is Some,
            follows(
                r->Ok_0@.map_values(|entry: (HostId, Option<StorageHost>)| entry.0),
                vstd::std_specs::iter::IteratorSpec::remaining(
                    &vstd::std_specs::hash::spec_hash_map_iter(&self.hosts),
                ),
            ),
    {
        let mut list: Vec<(HostId, Option<StorageHost>)> = Vec::new();
        for entry in it: self.hosts.iter()
            invariant
                it.seq() == vstd::std_specs::iter::IteratorSpec::remaining(
                    &vstd::std_specs::hash::spec_hash_map_iter(&self.hosts),
                ),
                it.seq().no_duplicates(),
                list@.len() == it.index(),
                forall|j: int|
                    0 <= j < list@.len() ==> (#[trigger] list@[j]).0.0 == *it.seq()[j].0
                        && list@[j].1 is Some && list@[j].1->0.id == list@[j].0 && list@[j].1->0@
                        == it.seq()[j].1@,
        {
            let id = HostId(*entry.0);
            list.push((id, Some(host_from_json(id, entry.1))));
        }
        proof {
            let order = vstd::std_specs::iter::IteratorSpec::remaining(
                &vstd::std_specs::hash::spec_hash_map_iter(&self.hosts),
            );
            assert forall|i: int| 0 <= i < list@.len() implies self.hosts().contains_key(
                (#[trigger] list@[i]).0.0,
            ) && list@[i].1->0@ == self.hosts()[list@[i].0.0] by {
                assert(self.hosts@.contains_key(*order[i].0));
            }
            assert forall|i: int, j: int| 0 <= i < j < list@.len() implies (#[trigger] list@[i]).0
                != (#[trigger] list@[j]).0 by {
                assert(self.hosts@[*order[i].0] == *order[i].1);
                assert(self.hosts@[*order[j].0] == *order[j].1);
                assert(order[i] != order[j]);
            }
            assert forall|id: u32| #[trigger] self.hosts().contains_key(id) implies exists|i: int|
                0 <= i < list@.len() && (#[trigger] list@[i]).0.0 == id by {
                assert(self.hosts@.contains_key(id));
                let i = choose|i: int|
                    0 <= i < order.len() && order[i] == (&id, &self.hosts@[id]);
                assert(list@[i].0.0 == id);
            }
        }
        Ok(list)
    }
}

/// What is written to the file loads back as the same hosts.
pub proof fn law_written_hosts_load_back(
    storage: JsonStorage,
    written: V2,
    loaded: Result<JsonStorage, String>,
)
    requires
        records(written.hosts@) == storage.hosts(),
        match loaded {
            Ok(storage) => StoredFile::Data(written).failure() is None && storage.hosts()
                == StoredFile::Data(written).hosts() && !storage.write_pending,
            Err(text) => StoredFile::Data(written).failure() == Some(text@),
        },
    ensures
        loaded matches Ok(again) && again.hosts() == storage.hosts() && !again.write_pending,
{
}

/// Where no write is asked for, the file holds the hosts.
pub open spec fn in_step(storage: JsonStorage, file: Map<u32, HostRecord>) -> bool {
    storage.write_pending || storage.hosts() == file
}

/// No change is lost: whatever is added, changed or removed, the file holds the
/// hosts or a write of it is asked for.
pub proof fn law_changes_ask_for_a_write(
    before: JsonStorage,
    after: JsonStorage,
    file: Map<u32, HostRecord>,
    id: HostId,
    host: HostRecord,
    stored: StorageHost,
    modify: StorageHostModify,
    done: Result<(), AppError>,
)
    requires
        in_step(before, file),
        ({
            ||| adds(before.hosts(), after.hosts(), host, stored) && after.write_pending
            ||| modifies(before.hosts(), after.hosts(), id, modify, done) && after.write_pending
                == (before.write_pending || done is Ok)
            ||| removes(before.hosts(), after.hosts(), id, done) && after.write_pending
        }),
    ensures
        in_step(after, file),
{
}

/// After a write that was asked for, the file holds the hosts again.
pub proof fn law_write_brings_file_in_step(
    before: JsonStorage,
    after: JsonStorage,
    file: Map<u32, HostRecord>,
    asked: bool,
    written: V2,
)
    requires
        in_step(before, file),
        asked == before.write_pending,
        !after.write_pending,
        after.hosts() == before.hosts(),
        records(written.hosts@) == after.hosts(),
    ensures
        in_step(
            after,
            if asked {
                records(written.hosts@)
            } else {
                file
            },
        ),
{
}

/// What is written of a host is all of its fields.
pub proof fn law_written_hosts_hold_every_field(host: V2Host)
    ensures
        host@.address == host.address@,
        host@.http_port == host.http_port,
        host@.name == host.cache.name@,
        host@.mac == host.cache.mac,
        host@.pair_info is Some <==> host.pair_info is Some,
        host.pair_info matches Some(pair_info) ==> host@.pair_info->0.client_private_key
            == pair_info.client_private_key && host@.pair_info->0.client_certificate
            == pair_info.client_certificate && host@.pair_info->0.server_certificate
            == pair_info.server_certificate,
{
}

/// The store holds what is written under each identifier, and nothing else.
pub proof fn law_store_holds_what_is_written(storage: JsonStorage, id: u32)
    ensures
        storage.hosts().contains_key(id) <==> storage.hosts@.contains_key(id),
        storage.hosts@.contains_key(id) ==> storage.hosts()[id] == storage.hosts@[id]@,
{
}

/// An identifier is read with its bytes in order: each byte has its own place, the first
/// one the highest.
pub proof fn law_bytes_have_their_places(bytes: Seq<u8>)
    requires
        bytes.len() == 4,
    ensures
        0 <= big_endian(bytes) <= 0xFFFF_FFFF,
        big_endian(bytes) == ((bytes[0] * 256 + bytes[1]) * 256 + bytes[2]) * 256 + bytes[3],
{
}

/// A file that is missing or whole is loaded; any other one is refused with its reason
/// in the text.
pub proof fn law_files_are_loaded_or_refused(file: StoredFile)
    ensures
        file.failure() is None <==> file is Missing || file is Data,
        file is Missing ==> file.hosts() == Map::<u32, HostRecord>::empty(),
        file matches StoredFile::Unreadable(reason) ==> file.failure() == Some(
            "Failed to read data: "@ + reason@,
        ),
        file matches StoredFile::NotMigrated(reason) ==> file.failure() == Some(reason@),
        file matches StoredFile::Malformed { error, version_error: Some(text) } ==> file.failure()
            == Some(
            "Failed to deserialize data as json: "@ + error@ + ", Version specific error: "@
                + text@,
        ),
        file matches StoredFile::Malformed { error, version_error: None } ==> file.failure()
            == Some(
            "Failed to deserialize data as json: "@ + error@ + ", Version specific error: "@
                + "none"@,
        ),
{
}

/// Loading a file takes over every host in it.
pub proof fn law_every_host_of_a_file_is_loaded(data: V2, id: u32)
    ensures
        StoredFile::Data(data).hosts().contains_key(id) <==> data.hosts@.contains_key(id),
        data.hosts@.contains_key(id) ==> StoredFile::Data(data).hosts()[id] == data.hosts@[id]@,
{
}

/// A list of the hosts has the order of the walk through them.
pub proof fn law_lists_have_the_order_of_the_walk(
    ids: Seq<HostId>,
    walk: Seq<(&u32, &V2Host)>,
    i: int,
)
    requires
        follows(ids, walk),
        0 <= i < ids.len(),
    ensures
        ids.len() == walk.len(),
        ids[i].0 == *walk[i].0,
{
}

/// What was drawn is used as it is, its bytes in order, exactly where no host has it.
pub proof fn law_drawn_identifiers_are_used_where_free(
    hosts: Map<u32, HostRecord>,
    drawn: Result<[u8; 4], String>,
    r: Result<Option<u32>, AppError>,
    id: u32,
)
    requires
        judges_draw(hosts, drawn, r),
    ensures
        drawn matches Ok(bytes) ==> (id == ((bytes@[0] * 256 + bytes@[1]) * 256 + bytes@[2]) * 256
            + bytes@[3] ==> (r matches Ok(found) && (found is None <==> hosts.contains_key(id)) && (
        found matches Some(used) ==> used == id))),
        drawn matches Err(text) ==> (r matches Err(error) && error == AppError::OpenSSL(text)),
{
    if let Ok(bytes) = drawn {
        law_bytes_have_their_places(bytes@);
    }
}

} // verus!
