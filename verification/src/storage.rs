//! What is stored of a stream host, and the interface of a host store.
use crate::error::AppError;
use crate::host::HostId;
use vstd::prelude::*;

verus! {

/// The certificate and key texts of the `pem` crate, carried through as they are.
#[verifier::external_type_specification]
#[verifier::external_body]
pub struct ExPem(pem::Pem);

/// `pem::Pem::clone`: the copy holds the same tag, headers and contents.
pub assume_specification[ <pem::Pem as Clone>::clone ](pem: &pem::Pem) -> (r: pem::Pem)
    ensures
        r == *pem,
;

/// The hardware address of a network interface.
#[derive(Debug, Clone, Copy, PartialEq, Eq)]
pub struct MacAddress {
    pub bytes: [u8; 6],
}

/// What a pairing leaves behind: the client's key and certificate and the
/// certificate of the host.
pub struct StorageHostPairInfo {
    pub client_private_key: pem::Pem,
    pub client_certificate: pem::Pem,
    pub server_certificate: pem::Pem,
}

impl Clone for StorageHostPairInfo {
    fn clone(&self) -> (r: Self)
        ensures
            r == *self,
    {
        StorageHostPairInfo {
            client_private_key: self.client_private_key.clone(),
            client_certificate: self.client_certificate.clone(),
            server_certificate: self.server_certificate.clone(),
        }
    }
}

/// What was last seen of a host.
pub struct StorageHostCache {
    pub name: String,
    pub mac: Option<MacAddress>,
}

impl Clone for StorageHostCache {
    fn clone(&self) -> (r: Self)
        ensures
            r == *self,
    {
        StorageHostCache { name: self.name.clone(), mac: self.mac }
    }
}

/// Everything that is stored of one host, apart from its identifier.
pub struct HostRecord {
    pub address: Seq<char>,
    pub http_port: u16,
    pub pair_info: Option<StorageHostPairInfo>,
    pub name: Seq<char>,
    pub mac: Option<MacAddress>,
}

/// A stored host.
pub struct StorageHost {
    pub id: HostId,
    pub address: String,
    pub http_port: u16,
    pub pair_info: Option<StorageHostPairInfo>,
    pub cache: StorageHostCache,
}

impl View for StorageHost {
    type V = HostRecord;

    open spec fn view(&self) -> HostRecord {
        HostRecord {
            address: self.address@,
            http_port: self.http_port,
            pair_info: self.pair_info,
            name: self.cache.name@,
            mac: self.cache.mac,
        }
    }
}

/// A copy of optional pairing data.
pub fn clone_pair_info(info: &Option<StorageHostPairInfo>) -> (r: Option<StorageHostPairInfo>)
    ensures
        r == *info,
{
    match info {
        Some(value) => Some(value.clone()),
        None => None,
    }
}

impl Clone for StorageHost {
    fn clone(&self) -> (r: Self)
        ensures
            r == *self,
    {
        StorageHost {
            id: self.id,
            address: self.address.clone(),
            http_port: self.http_port,
            pair_info: clone_pair_info(&self.pair_info),
            cache: self.cache.clone(),
        }
    }
}

/// A host that is to be stored.
pub struct StorageHostAdd {
    pub address: String,
    pub http_port: u16,
    pub pair_info: Option<StorageHostPairInfo>,
    pub cache: StorageHostCache,
}

impl View for StorageHostAdd {
    type V = HostRecord;

    open spec fn view(&self) -> HostRecord {
        HostRecord {
            address: self.address@,
            http_port: self.http_port,
            pair_info: self.pair_info,
            name: self.cache.name@,
            mac: self.cache.mac,
        }
    }
}

impl Clone for StorageHostAdd {
    fn clone(&self) -> (r: Self)
        ensures
            r == *self,
    {
        StorageHostAdd {
            address: self.address.clone(),
            http_port: self.http_port,
            pair_info: clone_pair_info(&self.pair_info),
            cache: self.cache.clone(),
        }
    }
}

/// A change of a stored host: every field that is present replaces the stored one.
#[derive(Clone)]
pub struct StorageHostModify {
    pub address: Option<String>,
    pub http_port: Option<u16>,
    pub pair_info: Option<Option<StorageHostPairInfo>>,
    pub cache_name: Option<String>,
    pub cache_mac: Option<Option<MacAddress>>,
}

impl StorageHostModify {
    /// `record` after this change.
    pub open spec fn applied_to(self, record: HostRecord) -> HostRecord {
        HostRecord {
            address: match self.address {
                Some(address) => address@,
                None => record.address,
            },
            http_port: match self.http_port {
                Some(http_port) => http_port,
                None => record.http_port,
            },
            pair_info: match self.pair_info {
                Some(pair_info) => pair_info,
                None => record.pair_info,
            },
            name: match self.cache_name {
                Some(name) => name@,
                None => record.name,
            },
            mac: match self.cache_mac {
                Some(mac) => mac,
                None => record.mac,
            },
        }
    }

    /// No field is present.
    pub open spec fn is_empty(self) -> bool {
        self.address is None && self.http_port is None && self.pair_info is None
            && self.cache_name is None && self.cache_mac is None
    }
}

impl Default for StorageHostModify {
    fn default() -> (r: Self)
        ensures
            r.is_empty(),
    {
        StorageHostModify {
            address: None,
            http_port: None,
            pair_info: None,
            cache_name: None,
            cache_mac: None,
        }
    }
}

/// `list` names every host of `hosts` once and nothing else, and what it says of a
/// host is what is stored of it.
pub open spec fn lists(
    list: Seq<(HostId, Option<StorageHost>)>,
    hosts: Map<u32, HostRecord>,
) -> bool {
    &&& forall|i: int|
        0 <= i < list.len() ==> hosts.contains_key((#[trigger] list[i]).0.0) && (list[i].1 matches Some(
            host,
        ) ==> host.id == list[i].0 && host@ == hosts[list[i].0.0])
    &&& forall|i: int, j: int|
        0 <= i < j < list.len() ==> (#[trigger] list[i]).0 != (#[trigger] list[j]).0
    &&& forall|id: u32| #[trigger]
        hosts.contains_key(id) ==> exists|i: int|
            0 <= i < list.len() && (#[trigger] list[i]).0.0 == id
}

/// `r` is what is read of the host `id` where `hosts` are stored.
pub open spec fn reads(
    hosts: Map<u32, HostRecord>,
    id: HostId,
    r: Result<StorageHost, AppError>,
) -> bool {
    if hosts.contains_key(id.0) {
        r matches Ok(host) && host.id == id && host@ == hosts[id.0]
    } else {
        r == Err::<StorageHost, AppError>(AppError::HostNotFound)
    }
}

/// Some identifier is not in use.
pub open spec fn has_room(hosts: Map<u32, HostRecord>) -> bool {
    exists|id: u32| !hosts.contains_key(id)
}

/// Between `before` and `after` a host was added and became `stored`.
pub open spec fn adds(
    before: Map<u32, HostRecord>,
    after: Map<u32, HostRecord>,
    host: HostRecord,
    stored: StorageHost,
) -> bool {
    !before.contains_key(stored.id.0) && stored@ == host && after == before.insert(
        stored.id.0,
        host,
    )
}

/// Between `before` and `after` the host `id` was to be changed, with the result `r`.
pub open spec fn modifies(
    before: Map<u32, HostRecord>,
    after: Map<u32, HostRecord>,
    id: HostId,
    modify: StorageHostModify,
    r: Result<(), AppError>,
) -> bool {
    if before.contains_key(id.0) {
        r is Ok && after == before.insert(id.0, modify.applied_to(before[id.0]))
    } else {
        r == Err::<(), AppError>(AppError::HostNotFound) && after == before
    }
}

/// Between `before` and `after` the host `id` was to be removed, with the result `r`.
pub open spec fn removes(
    before: Map<u32, HostRecord>,
    after: Map<u32, HostRecord>,
    id: HostId,
    r: Result<(), AppError>,
) -> bool {
    if before.contains_key(id.0) {
        r is Ok && after == before.remove(id.0)
    } else {
        r == Err::<(), AppError>(AppError::HostNotFound) && after == before
    }
}

/// A store of hosts. An operation that fails changes nothing.
pub trait Storage {
    /// The stored hosts by identifier.
    spec fn hosts(&self) -> Map<u32, HostRecord>;

    /// Stores a host under an identifier that is not in use.
    fn add_host(&mut self, host: &StorageHostAdd) -> (r: Result<StorageHost, AppError>)
        requires
            has_room(old(self).hosts()),
        ensures
            match r {
                Ok(stored) => adds(old(self).hosts(), final(self).hosts(), host@, stored),
                Err(_) => final(self).hosts() == old(self).hosts(),
            },
    ;

    /// Changes a stored host.
    fn modify_host(&mut self, host_id: HostId, modify: StorageHostModify) -> (r: Result<
        (),
        AppError,
    >)
        ensures
            match r {
                Ok(_) => {
                    &&& old(self).hosts().contains_key(host_id.0)
                    &&& final(self).hosts() == old(self).hosts().insert(
                        host_id.0,
                        modify.applied_to(old(self).hosts()[host_id.0]),
                    )
                },
                Err(_) => final(self).hosts() == old(self).hosts(),
            },
    ;

    /// Reads a stored host.
    fn get_host(&self, host_id: HostId) -> (r: Result<StorageHost, AppError>)
        ensures
            r matches Ok(host) ==> self.hosts().contains_key(host_id.0) && host.id == host_id
                && host@ == self.hosts()[host_id.0],
    ;

    /// Removes a stored host.
    fn remove_host(&mut self, host_id: HostId) -> (r: Result<(), AppError>)
        ensures
            match r {
                Ok(_) => {
                    &&& old(self).hosts().contains_key(host_id.0)
                    &&& final(self).hosts() == old(self).hosts().remove(host_id.0)
                },
                Err(_) => final(self).hosts() == old(self).hosts(),
            },
    ;

    /// Lists the stored hosts, in no particular order.
    fn list_hosts(&self) -> (r: Result<Vec<(HostId, Option<StorageHost>)>, AppError>)
        ensures
            r matches Ok(list) ==> lists(list@, self.hosts()),
    ;
}

/// Two readings of a host say the same.
pub open spec fn same_reading(
    a: Result<StorageHost, AppError>,
    b: Result<StorageHost, AppError>,
) -> bool {
    match (a, b) {
        (Ok(a), Ok(b)) => a.id == b.id && a@ == b@,
        (Err(a), Err(b)) => a == b,
        _ => false,
    }
}

/// A host that was added reads back as it was given, under its new identifier.
pub proof fn law_added_host_reads_back(
    before: Map<u32, HostRecord>,
    after: Map<u32, HostRecord>,
    host: HostRecord,
    stored: StorageHost,
    r: Result<StorageHost, AppError>,
)
    requires
        adds(before, after, host, stored),
        reads(after, stored.id, r),
    ensures
        r matches Ok(read) && read.id == stored.id && read@ == host && read@ == stored@,
{
}

/// Adding a host leaves every other host as it was.
pub proof fn law_adding_keeps_other_hosts(
    before: Map<u32, HostRecord>,
    after: Map<u32, HostRecord>,
    host: HostRecord,
    stored: StorageHost,
    id: HostId,
    r: Result<StorageHost, AppError>,
    s: Result<StorageHost, AppError>,
)
    requires
        adds(before, after, host, stored),
        id != stored.id,
        reads(before, id, r),
        reads(after, id, s),
    ensures
        same_reading(r, s),
{
}

/// A host that was changed reads back with the fields that the change holds, and
/// with its own in place of those that the change does not hold.
pub proof fn law_modified_host_reads_back(
    before: Map<u32, HostRecord>,
    after: Map<u32, HostRecord>,
    id: HostId,
    modify: StorageHostModify,
    done: Result<(), AppError>,
    r: Result<StorageHost, AppError>,
    s: Result<StorageHost, AppError>,
)
    requires
        modifies(before, after, id, modify, done),
        reads(before, id, r),
        reads(after, id, s),
    ensures
        done is Ok <==> r is Ok,
        done is Ok <==> s is Ok,
        done is Ok ==> s->Ok_0.id == id && s->Ok_0@ == modify.applied_to(r->Ok_0@),
{
}

/// Changing a host leaves every other host as it was.
pub proof fn law_modifying_keeps_other_hosts(
    before: Map<u32, HostRecord>,
    after: Map<u32, HostRecord>,
    changed: HostId,
    modify: StorageHostModify,
    done: Result<(), AppError>,
    id: HostId,
    r: Result<StorageHost, AppError>,
    s: Result<StorageHost, AppError>,
)
    requires
        modifies(before, after, changed, modify, done),
        id != changed,
        reads(before, id, r),
        reads(after, id, s),
    ensures
        same_reading(r, s),
{
}

/// A change that holds nothing changes nothing.
pub proof fn law_empty_modify_changes_nothing(
    before: Map<u32, HostRecord>,
    after: Map<u32, HostRecord>,
    id: HostId,
    modify: StorageHostModify,
    done: Result<(), AppError>,
)
    requires
        modify.is_empty(),
        modifies(before, after, id, modify, done),
    ensures
        after == before,
{
    assert(after =~= before);
}

/// A change that is made twice is made once.
pub proof fn law_modifying_again_changes_nothing(
    before: Map<u32, HostRecord>,
    between: Map<u32, HostRecord>,
    after: Map<u32, HostRecord>,
    id: HostId,
    modify: StorageHostModify,
    first: Result<(), AppError>,
    second: Result<(), AppError>,
)
    requires
        modifies(before, between, id, modify, first),
        modifies(between, after, id, modify, second),
    ensures
        after == between,
        first is Ok <==> second is Ok,
{
    assert(after =~= between);
}

/// A host that was removed is gone: it is not read any more, and it cannot be
/// changed or removed again.
pub proof fn law_removed_host_is_gone(
    before: Map<u32, HostRecord>,
    after: Map<u32, HostRecord>,
    later: Map<u32, HostRecord>,
    id: HostId,
    modify: StorageHostModify,
    removed: Result<(), AppError>,
    r: Result<StorageHost, AppError>,
    again: Result<(), AppError>,
    changed: Result<(), AppError>,
)
    requires
        removes(before, after, id, removed),
        reads(after, id, r),
        removes(after, later, id, again),
        modifies(after, later, id, modify, changed),
    ensures
        r == Err::<StorageHost, AppError>(AppError::HostNotFound),
        again == Err::<(), AppError>(AppError::HostNotFound),
        changed == Err::<(), AppError>(AppError::HostNotFound),
        later == after,
{
}

/// Removing a host leaves every other host as it was.
pub proof fn law_removing_keeps_other_hosts(
    before: Map<u32, HostRecord>,
    after: Map<u32, HostRecord>,
    removed: HostId,
    done: Result<(), AppError>,
    id: HostId,
    r: Result<StorageHost, AppError>,
    s: Result<StorageHost, AppError>,
)
    requires
        removes(before, after, removed, done),
        id != removed,
        reads(before, id, r),
        reads(after, id, s),
    ensures
        same_reading(r, s),
{
}

/// Removing a host that was just added leaves the store as it was before.
pub proof fn law_removing_undoes_adding(
    before: Map<u32, HostRecord>,
    between: Map<u32, HostRecord>,
    after: Map<u32, HostRecord>,
    host: HostRecord,
    stored: StorageHost,
    done: Result<(), AppError>,
)
    requires
        adds(before, between, host, stored),
        removes(between, after, stored.id, done),
    ensures
        done is Ok,
        after == before,
{
    assert(after =~= before);
}

/// A list of the hosts names exactly those that can be read.
pub proof fn law_list_names_what_can_be_read(
    hosts: Map<u32, HostRecord>,
    list: Seq<(HostId, Option<StorageHost>)>,
    id: HostId,
    r: Result<StorageHost, AppError>,
)
    requires
        lists(list, hosts),
        reads(hosts, id, r),
    ensures
        r is Ok <==> exists|i: int| 0 <= i < list.len() && (#[trigger] list[i]).0 == id,
{
    if hosts.contains_key(id.0) {
        let i = choose|i: int| 0 <= i < list.len() && (#[trigger] list[i]).0.0 == id.0;
        assert(list[i].0 == id);
    }
}

/// What is stored of a host, or to be stored, is all of its fields.
pub proof fn law_records_hold_every_field(stored: StorageHost, added: StorageHostAdd)
    ensures
        stored@.address == stored.address@,
        stored@.http_port == stored.http_port,
        stored@.pair_info == stored.pair_info,
        stored@.name == stored.cache.name@,
        stored@.mac == stored.cache.mac,
        added@.address == added.address@,
        added@.http_port == added.http_port,
        added@.pair_info == added.pair_info,
        added@.name == added.cache.name@,
        added@.mac == added.cache.mac,
{
}

/// A change touches each field by itself: a field that it holds is replaced, one that it
/// does not hold stays.
pub proof fn law_changes_touch_each_field_by_itself(
    modify: StorageHostModify,
    record: HostRecord,
)
    ensures
        ({
            let after = modify.applied_to(record);
            &&& modify.address matches Some(address) ==> after.address == address@
            &&& modify.address is None ==> after.address == record.address
            &&& modify.http_port matches Some(http_port) ==> after.http_port == http_port
            &&& modify.http_port is None ==> after.http_port == record.http_port
            &&& modify.pair_info matches Some(pair_info) ==> after.pair_info == pair_info
            &&& modify.pair_info is None ==> after.pair_info == record.pair_info
            &&& modify.cache_name matches Some(name) ==> after.name == name@
            &&& modify.cache_name is None ==> after.name == record.name
            &&& modify.cache_mac matches Some(mac) ==> after.mac == mac
            &&& modify.cache_mac is None ==> after.mac == record.mac
        }),
        modify.is_empty() <==> modify.address is None && modify.http_port is None
            && modify.pair_info is None && modify.cache_name is None && modify.cache_mac is None,
{
}

/// Exactly the hosts that are stored can be read, each under its own identifier and with
/// every field.
pub proof fn law_reading_gives_what_is_stored(
    hosts: Map<u32, HostRecord>,
    id: HostId,
    r: Result<StorageHost, AppError>,
)
    requires
        reads(hosts, id, r),
    ensures
        r is Ok <==> hosts.contains_key(id.0),
        r matches Err(error) ==> error is HostNotFound,
        r matches Ok(host) ==> host.id == id && host.address@ == hosts[id.0].address
            && host.http_port == hosts[id.0].http_port && host.pair_info == hosts[id.0].pair_info
            && host.cache.name@ == hosts[id.0].name && host.cache.mac == hosts[id.0].mac,
{
    if let Ok(host) = r {
        assert(host@ == hosts[id.0]);
    }
}

/// Adding stores exactly one more host, with every field that was given, under an
/// identifier that was free.
pub proof fn law_adding_stores_every_field(
    before: Map<u32, HostRecord>,
    after: Map<u32, HostRecord>,
    host: StorageHostAdd,
    stored: StorageHost,
    id: u32,
)
    requires
        adds(before, after, host@, stored),
    ensures
        !before.contains_key(stored.id.0),
        after.contains_key(id) <==> before.contains_key(id) || id == stored.id.0,
        before.contains_key(id) ==> after[id] == before[id],
        after[stored.id.0].address == host.address@,
        after[stored.id.0].http_port == host.http_port,
        after[stored.id.0].pair_info == host.pair_info,
        after[stored.id.0].name == host.cache.name@,
        after[stored.id.0].mac == host.cache.mac,
        stored.address@ == host.address@,
        stored.http_port == host.http_port,
        stored.pair_info == host.pair_info,
        stored.cache.name@ == host.cache.name@,
        stored.cache.mac == host.cache.mac,
{
    assert(stored@ == host@);
}

/// Changing works exactly on hosts that are stored, and stores no host more or less.
pub proof fn law_changing_works_on_stored_hosts(
    before: Map<u32, HostRecord>,
    after: Map<u32, HostRecord>,
    id: HostId,
    modify: StorageHostModify,
    r: Result<(), AppError>,
    other: u32,
)
    requires
        modifies(before, after, id, modify, r),
    ensures
        r is Ok <==> before.contains_key(id.0),
        r matches Err(error) ==> error is HostNotFound && after == before,
        after.contains_key(other) <==> before.contains_key(other),
        before.contains_key(other) && other != id.0 ==> after[other] == before[other],
        r is Ok ==> (modify.address matches Some(address) ==> after[id.0].address == address@),
        r is Ok ==> (modify.address is None ==> after[id.0].address == before[id.0].address),
        r is Ok ==> (modify.http_port matches Some(http_port) ==> after[id.0].http_port
            == http_port),
        r is Ok ==> (modify.http_port is None ==> after[id.0].http_port
            == before[id.0].http_port),
        r is Ok ==> (modify.pair_info matches Some(pair_info) ==> after[id.0].pair_info
            == pair_info),
        r is Ok ==> (modify.pair_info is None ==> after[id.0].pair_info
            == before[id.0].pair_info),
        r is Ok ==> (modify.cache_name matches Some(name) ==> after[id.0].name == name@),
        r is Ok ==> (modify.cache_name is None ==> after[id.0].name == before[id.0].name),
        r is Ok ==> (modify.cache_mac matches Some(mac) ==> after[id.0].mac == mac),
        r is Ok ==> (modify.cache_mac is None ==> after[id.0].mac == before[id.0].mac),
{
}

/// Removing takes exactly one stored host away.
pub proof fn law_removing_takes_one_host_away(
    before: Map<u32, HostRecord>,
    after: Map<u32, HostRecord>,
    id: HostId,
    r: Result<(), AppError>,
    other: u32,
)
    requires
        removes(before, after, id, r),
    ensures
        r is Ok <==> before.contains_key(id.0),
        r matches Err(error) ==> error is HostNotFound,
        after.contains_key(other) <==> before.contains_key(other) && other != id.0,
        after.contains_key(other) ==> after[other] == before[other],
{
}

/// A list of the hosts holds each of them once, under its identifier and with what is
/// stored of it, and no other.
pub proof fn law_list_holds_each_host_once(
    list: Seq<(HostId, Option<StorageHost>)>,
    hosts: Map<u32, HostRecord>,
    i: int,
    j: int,
    id: u32,
)
    requires
        lists(list, hosts),
        0 <= i < list.len(),
        0 <= j < list.len(),
    ensures
        hosts.contains_key(list[i].0.0),
        list[i].1 matches Some(host) ==> host.id == list[i].0 && host@ == hosts[list[i].0.0],
        list[i].0 == list[j].0 ==> i == j,
        hosts.contains_key(id) ==> exists|k: int|
            0 <= k < list.len() && (#[trigger] list[k]).0.0 == id,
{
    if i < j {
        assert(list[i].0 != list[j].0);
    }
    if j < i {
        assert(list[j].0 != list[i].0);
    }
}

/// There is room exactly where some identifier is not in use.
pub proof fn law_room_is_a_free_identifier(hosts: Map<u32, HostRecord>, id: u32)
    ensures
        !hosts.contains_key(id) ==> has_room(hosts),
        (forall|k: u32| hosts.contains_key(k)) ==> !has_room(hosts),
{
}

} // verus!
