//! The web server: its configuration and its hosts.
use crate::config::{Config, StorageConfig};
use crate::error::{ApiError, AppError};
use crate::host::{build_hostport, new_uuid, ClientKind, ClientSetup, Host, HostId, HostInfo};
use crate::json_storage::{follows, JsonStorage, StoredFile};
use crate::storage::{has_room, HostRecord, Storage, StorageHost, StorageHostAdd, StorageHostCache};
use vstd::prelude::*;

verus! {

/// Opens the configured store on what was found in its file.
pub fn create_storage(config: &StorageConfig, file: StoredFile) -> (r: Result<JsonStorage, String>)
    ensures
        match r {
            Ok(storage) => file.failure() is None && storage.hosts() == file.hosts()
                && !storage.write_pending,
            Err(text) => file.failure() == Some(text@),
        },
{
    match config {
        StorageConfig::Json { .. } => JsonStorage::load(file),
    }
}

/// Turns a handle to the server that may be gone into an error.
pub fn access<T>(handle: Option<T>) -> (r: Result<T, AppError>)
    ensures
        r == (match handle {
            Some(app) => Ok::<T, AppError>(app),
            None => Err(AppError::AppDestroyed),
        }),
{
    match handle {
        Some(app) => Ok(app),
        None => Err(AppError::AppDestroyed),
    }
}

/// The question that is put to a host before it is added.
pub struct AddHostRequest {
    pub client: ClientSetup,
    pub address: String,
}

/// `r` is the host to be stored, once it has answered `reply`.
pub open spec fn makes_host<V>(
    address: Seq<char>,
    http_port: u16,
    reply: Result<HostInfo<V>, ApiError>,
    r: Result<StorageHostAdd, AppError>,
) -> bool {
    match reply {
        Ok(info) => r matches Ok(host) && host@ == (HostRecord {
            address,
            http_port,
            pair_info: None,
            name: info.host_name@,
            mac: info.mac,
        }),
        Err(error) => r == Err::<StorageHostAdd, AppError>(
            if error.is_connect() {
                AppError::HostNotFound
            } else {
                AppError::MoonlightApi(error)
            },
        ),
    }
}

/// The host to be stored, once it has answered.
pub fn host_to_add<V>(
    address: String,
    http_port: u16,
    reply: Result<HostInfo<V>, ApiError>,
) -> (r: Result<StorageHostAdd, AppError>)
    ensures
        makes_host(address@, http_port, reply, r),
        match reply {
            Ok(info) => {
                &&& r matches Ok(host)
                &&& host@.address == address@
                &&& host@.http_port == http_port
                &&& host@.pair_info is None
                &&& host@.name == info.host_name@
                &&& host@.mac == info.mac
            },
            Err(error) => r == Err::<StorageHostAdd, AppError>(
                if error.is_connect() {
                    AppError::HostNotFound
                } else {
                    AppError::MoonlightApi(error)
                },
            ),
        },
{
    match reply {
        Ok(info) => Ok(
            StorageHostAdd {
                address,
                http_port,
                pair_info: None,
                cache: StorageHostCache { name: info.host_name, mac: info.mac },
            },
        ),
        Err(error) => if error.no_connection() {
            Err(AppError::HostNotFound)
        } else {
            Err(AppError::MoonlightApi(error))
        },
    }
}

/// `r` is the host of this identifier, as it is stored.
pub open spec fn opens<V>(
    hosts: Map<u32, HostRecord>,
    host_id: HostId,
    r: Result<Host<V>, AppError>,
) -> bool {
    match r {
        Ok(host) => {
            &&& hosts.contains_key(host_id.0)
            &&& host.id == host_id
            &&& host.cache_storage is Some
            &&& host.cache_storage->0.id == host_id
            &&& host.cache_storage->0@ == hosts[host_id.0]
            &&& host.cache_host_info is None
        },
        Err(error) => !hosts.contains_key(host_id.0) && error == AppError::HostNotFound,
    }
}

/// The web server.
pub struct App {
    pub config: Config,
    pub storage: JsonStorage,
}

impl App {
    /// Starts the server on what was found in the file of its store.
    pub fn new(config: Config, file: StoredFile) -> (r: Result<App, String>)
        ensures
            match r {
                Ok(app) => file.failure() is None && app.config == config && app.storage.hosts()
                    == file.hosts() && !app.storage.write_pending,
                Err(text) => file.failure() == Some(text@),
            },
    {
        match create_storage(&config.data_storage, file) {
            Ok(storage) => Ok(App { config, storage }),
            Err(text) => Err(text),
        }
    }

    /// The configuration of the server.
    pub fn config(&self) -> (r: &Config)
        ensures
            *r == self.config,
    {
        &self.config
    }

    /// `list` names every stored host once, each with what is stored of it.
    pub open spec fn holds_all<V>(self, list: Seq<Host<V>>) -> bool {
        &&& forall|i: int|
            0 <= i < list.len() ==> self.storage.hosts().contains_key((#[trigger] list[i]).id.0)
                && list[i].cache_host_info is None && list[i].cache_storage is Some
                && list[i].cache_storage->0.id == list[i].id && list[i].cache_storage->0@
                == self.storage.hosts()[list[i].id.0]
        &&& forall|i: int, j: int|
            0 <= i < j < list.len() ==> (#[trigger] list[i]).id != (#[trigger] list[j]).id
        &&& forall|id: u32| #[trigger]
            self.storage.hosts().contains_key(id) ==> exists|i: int|
                0 <= i < list.len() && (#[trigger] list[i]).id.0 == id
    }

    /// The stored hosts, in the order in which the store is walked.
    pub fn list_hosts<V>(&self) -> (r: Result<Vec<Host<V>>, AppError>)
        ensures
            r is Ok,
            self.holds_all(r->Ok_0@),
            follows(
                r->Ok_0@.map_values(|host: Host<V>| host.id),
                vstd::std_specs::iter::IteratorSpec::remaining(
                    &vstd::std_specs::hash::spec_hash_map_iter(&self.storage.hosts),
                ),
            ),
    {
        let stored = match self.storage.list_hosts() {
            Ok(stored) => stored,
            Err(error) => {
                return Err(error);
            },
        };
        let mut hosts: Vec<Host<V>> = Vec::new();
        for entry in it: stored
            invariant
                it.seq() == stored@,
                hosts@.len() == it.index(),
                forall|i: int|
                    0 <= i < hosts@.len() ==> (#[trigger] hosts@[i]).id == stored@[i].0
                        && hosts@[i].cache_storage == stored@[i].1
                        && hosts@[i].cache_host_info is None,
        {
            hosts.push(Host { id: entry.0, cache_storage: entry.1, cache_host_info: None });
        }
        proof {
            assert forall|i: int| 0 <= i < hosts@.len() implies self.storage.hosts().contains_key(
                (#[trigger] hosts@[i]).id.0,
            ) && hosts@[i].cache_storage is Some && hosts@[i].cache_storage->0.id == hosts@[i].id
                && hosts@[i].cache_storage->0@ == self.storage.hosts()[hosts@[i].id.0] by {
                assert(stored@[i].1 is Some);
            }
            assert forall|i: int, j: int| 0 <= i < j < hosts@.len() implies (#[trigger] hosts@[i]).id
                != (#[trigger] hosts@[j]).id by {
                assert(stored@[i].0 != stored@[j].0);
            }
            assert forall|id: u32| #[trigger]
                self.storage.hosts().contains_key(id) implies exists|i: int|
                0 <= i < hosts@.len() && (#[trigger] hosts@[i]).id.0 == id by {
                let i = choose|i: int| 0 <= i < stored@.len() && (#[trigger] stored@[i]).0.0 == id;
                assert(hosts@[i].id.0 == id);
            }
        }
        proof {
            assert(hosts@.map_values(|host: Host<V>| host.id) =~= stored@.map_values(
                |entry: (HostId, Option<StorageHost>)| entry.0,
            ));
        }
        Ok(hosts)
    }

    /// One stored host.
    pub fn host<V>(&self, host_id: HostId) -> (r: Result<Host<V>, AppError>)
        ensures
            opens(self.storage.hosts(), host_id, r),
            r is Ok <==> self.storage.hosts().contains_key(host_id.0),
            match r {
                Ok(host) => {
                    &&& host.id == host_id
                    &&& host.cache_storage is Some
                    &&& host.cache_storage->0.id == host_id
                    &&& host.cache_storage->0@ == self.storage.hosts()[host_id.0]
                    &&& host.cache_host_info is None
                },
                Err(error) => error == AppError::HostNotFound,
            },
    {
        match self.storage.get_host(host_id) {
            Ok(host) => Ok(
                Host { id: host.id, cache_storage: Some(host), cache_host_info: None },
            ),
            Err(error) => Err(error),
        }
    }

    /// The question that is put to a host before it is added.
    pub fn add_host_request(&self, address: &str, http_port: u16) -> (r: AddHostRequest)
        ensures
            r.address@ == crate::host::hostport(address@, http_port),
            r.client.kind == ClientKind::Defaults,
            r.client.unique_id@ == self.config.moonlight.pair_device_name@,
            crate::host::is_random_uuid(r.client.uuid),
    {
        AddHostRequest {
            client: ClientSetup {
                kind: ClientKind::Defaults,
                unique_id: self.config.moonlight.pair_device_name.clone(),
                uuid: new_uuid(),
            },
            address: build_hostport(address, http_port),
        }
    }

    /// Adds a host under an identifier that is not in use.
    pub fn add_host<V>(&mut self, host: &StorageHostAdd) -> (r: Result<Host<V>, AppError>)
        requires
            has_room(old(self).storage.hosts()),
        ensures
            final(self).config == old(self).config,
            match r {
                Ok(added) => {
                    &&& !old(self).storage.hosts().contains_key(added.id.0)
                    &&& final(self).storage.hosts() == old(self).storage.hosts().insert(
                        added.id.0,
                        host@,
                    )
                    &&& final(self).storage.write_pending
                    &&& added.cache_storage is Some
                    &&& added.cache_storage->0.id == added.id
                    &&& added.cache_storage->0@ == host@
                    &&& added.cache_host_info is None
                },
                Err(error) => final(self).storage == old(self).storage && error is OpenSSL,
            },
    {
        match self.storage.add_host(host) {
            Ok(stored) => Ok(
                Host { id: stored.id, cache_storage: Some(stored), cache_host_info: None },
            ),
            Err(error) => Err(error),
        }
    }
}

/// A list of the hosts holds each stored host once, as it is stored and with nothing
/// asked of it yet, and no other.
pub proof fn law_list_holds_each_host_once<V>(
    app: App,
    list: Seq<Host<V>>,
    i: int,
    j: int,
    id: u32,
)
    requires
        app.holds_all(list),
        0 <= i < list.len(),
        0 <= j < list.len(),
    ensures
        app.storage.hosts().contains_key(list[i].id.0),
        list[i].cache_storage matches Some(host) && host.id == list[i].id && host@
            == app.storage.hosts()[list[i].id.0],
        list[i].cache_host_info is None,
        list[i].id == list[j].id ==> i == j,
        app.storage.hosts().contains_key(id) ==> exists|k: int|
            0 <= k < list.len() && (#[trigger] list[k]).id.0 == id,
{
    if i < j {
        assert(list[i].id != list[j].id);
    }
    if j < i {
        assert(list[j].id != list[i].id);
    }
}

/// A host that answers is stored where it was asked, with the name and the hardware
/// address that it has told, and as not paired. One that cannot be reached is not found;
/// any other error is passed on.
pub proof fn law_answering_hosts_are_stored<V>(
    address: Seq<char>,
    http_port: u16,
    reply: Result<HostInfo<V>, ApiError>,
    r: Result<StorageHostAdd, AppError>,
)
    requires
        makes_host(address, http_port, reply, r),
    ensures
        r is Ok <==> reply is Ok,
        reply matches Ok(info) ==> (r matches Ok(host) && host.address@ == address
            && host.http_port == http_port && host.pair_info is None && host.cache.name@
            == info.host_name@ && host.cache.mac == info.mac),
        reply matches Err(error) ==> (r matches Err(told) && if error matches ApiError::RequestClient(cause)
            && cause.connect {
            told is HostNotFound
        } else {
            told == AppError::MoonlightApi(error)
        }),
{
    if let Ok(host) = r {
        assert(host@.address == host.address@);
    }
}

/// Exactly the stored hosts can be opened, each under its own identifier and as it is
/// stored, with nothing asked of it yet.
pub proof fn law_stored_hosts_can_be_opened<V>(
    hosts: Map<u32, HostRecord>,
    host_id: HostId,
    r: Result<Host<V>, AppError>,
)
    requires
        opens(hosts, host_id, r),
    ensures
        r is Ok <==> hosts.contains_key(host_id.0),
        r matches Err(error) ==> error is HostNotFound,
        r matches Ok(host) ==> host.id == host_id && host.cache_host_info is None && (
        host.cache_storage matches Some(read) && read.id == host_id && read.address@
            == hosts[host_id.0].address && read.http_port == hosts[host_id.0].http_port
            && read.pair_info == hosts[host_id.0].pair_info && read.cache.name@
            == hosts[host_id.0].name && read.cache.mac == hosts[host_id.0].mac),
{
    if let Ok(host) = r {
        assert(host.cache_storage->0@ == hosts[host_id.0]);
    }
}

} // verus!
