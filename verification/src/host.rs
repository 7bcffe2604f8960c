//! Stream hosts: what is known of one, how to reach it and what its replies mean.
use crate::config::Config;
use crate::error::{ApiError, AppError};
use crate::json_storage::JsonStorage;
use crate::storage::{
    modifies, HostRecord, MacAddress, Storage, StorageHost, StorageHostModify,
    StorageHostPairInfo,
};
use crate::text::{contains, decimal_text};
use vstd::prelude::*;

verus! {

/// Identifies a stored host.
#[derive(Debug, Clone, Copy, PartialEq, Eq, Hash, Structural)]
pub struct HostId(pub u32);

/// Identifies an application of a host.
#[derive(Debug, Clone, Copy, PartialEq, Eq, Hash, Structural)]
pub struct AppId(pub u32);

/// An application as a host lists it.
pub struct NetworkApp {
    pub id: u32,
    pub title: String,
    pub is_hdr_supported: bool,
}

/// An application of a host.
pub struct App {
    pub id: AppId,
    pub title: String,
    pub is_hdr_supported: bool,
}

impl From<NetworkApp> for App {
    fn from(value: NetworkApp) -> (r: App) {
        App { id: AppId(value.id), title: value.title, is_hdr_supported: value.is_hdr_supported }
    }
}

impl vstd::std_specs::convert::FromSpecImpl<NetworkApp> for App {
    open spec fn obeys_from_spec() -> bool {
        true
    }

    open spec fn from_spec(value: NetworkApp) -> App {
        App { id: AppId(value.id), title: value.title, is_hdr_supported: value.is_hdr_supported }
    }
}

/// The applications of a list, in its order.
pub fn apps_from_network(list: Vec<NetworkApp>) -> (r: Vec<App>)
    ensures
        r@.len() == list@.len(),
        forall|i: int|
            0 <= i < r@.len() ==> (#[trigger] r@[i]).id.0 == list@[i].id && r@[i].title
                == list@[i].title && r@[i].is_hdr_supported == list@[i].is_hdr_supported,
{
    let mut apps: Vec<App> = Vec::new();
    for value in it: list
        invariant
            it.seq() == list@,
            apps@.len() == it.index(),
            forall|i: int|
                0 <= i < apps@.len() ==> (#[trigger] apps@[i]).id.0 == list@[i].id
                    && apps@[i].title == list@[i].title && apps@[i].is_hdr_supported
                    == list@[i].is_hdr_supported,
    {
        apps.push(App::from(value));
    }
    apps
}

/// Whether a host takes this client for a paired one.
#[derive(Debug, Clone, Copy, PartialEq, Eq, Structural)]
pub enum PairStatus {
    NotPaired,
    Paired,
}

/// What a host says of itself. `V` is its version, which is only passed on.
pub struct HostInfo<V> {
    pub host_name: String,
    pub mac: Option<MacAddress>,
    pub https_port: u16,
    pub pair_status: PairStatus,
    pub app_version: V,
}

/// The client that requests to a host are made with.
pub enum ClientKind {
    /// No certificate, ordinary timeouts.
    Defaults,
    /// No certificate, long timeouts: someone may have to type in a PIN.
    LongTimeout,
    /// The certificates of an earlier pairing.
    Certificates(StorageHostPairInfo),
}

/// The client that is to be built for the next requests to a host.
pub struct ClientSetup {
    pub kind: ClientKind,
    /// The name of this device.
    pub unique_id: String,
    /// The identifier of this exchange.
    pub uuid: u128,
}

/// How to reach a host.
pub struct Route {
    /// The client can make encrypted requests.
    pub https_capable: bool,
    pub address: String,
    pub http_port: u16,
}

/// The client for a host of which `record` is known.
pub open spec fn client_kind(record: HostRecord, pairing: bool) -> ClientKind {
    if pairing {
        ClientKind::LongTimeout
    } else {
        match record.pair_info {
            Some(pair_info) => ClientKind::Certificates(pair_info),
            None => ClientKind::Defaults,
        }
    }
}

/// `id` is a random UUID: it bears the version and the variant of one.
pub open spec fn is_random_uuid(id: u128) -> bool {
    id & 0xF000_C000_0000_0000_0000 == 0x4000_8000_0000_0000_0000
}

/// `uuid::Uuid::new_v4`, as a number: a random UUID, of which nothing is known but
/// its version and its variant.
#[verifier::external_body]
pub(crate) fn new_uuid() -> (r: u128)
    ensures
        is_random_uuid(r),
{
    uuid::Uuid::new_v4().as_u128()
}

/// `client` and `route` are those for a host of which `record` is known.
pub open spec fn sets_up(
    client: ClientSetup,
    route: Route,
    record: HostRecord,
    config: Config,
    pairing: bool,
) -> bool {
    &&& client.kind == client_kind(record, pairing)
    &&& client.unique_id@ == config.moonlight.pair_device_name@
    &&& is_random_uuid(client.uuid)
    &&& route.https_capable == (client.kind is Certificates)
    &&& route.address@ == record.address
    &&& route.http_port == record.http_port
}

/// The address of a port of a host.
pub open spec fn hostport(host: Seq<char>, port: u16) -> Seq<char> {
    host + ":"@ + crate::text::decimal(port as nat)
}

/// Writes the address of a port of a host.
pub fn build_hostport(host: &str, port: u16) -> (r: String)
    ensures
        r@ == hostport(host@, port),
{
    host.to_owned().concat(":").concat(decimal_text(port as u64).as_str())
}

/// Sorts a reply: `None` stands for a host that is offline.
pub fn is_offline<T>(result: Result<T, ApiError>) -> (r: Result<Option<T>, AppError>)
    ensures
        match result {
            Ok(value) => r == Ok::<Option<T>, AppError>(Some(value)),
            Err(error) => if error.is_connect() {
                r == Ok::<Option<T>, AppError>(None)
            } else {
                r == Err::<Option<T>, AppError>(AppError::MoonlightApi(error))
            },
        },
{
    match result {
        Ok(value) => Ok(Some(value)),
        Err(error) => if error.no_connection() {
            Ok(None)
        } else {
            Err(AppError::MoonlightApi(error))
        },
    }
}

/// The host no longer accepts the certificate of the pairing.
pub open spec fn rejects_certificate(error: ApiError) -> bool {
    match error {
        ApiError::InvalidXmlStatusCode { message: Some(message), .. } => crate::text::occurs(
            message@,
            "Certificate"@,
        ),
        ApiError::RequestClient(error) => error.encryption,
        _ => false,
    }
}

/// Whether the host no longer accepts the certificate of the pairing.
pub fn certificate_rejected(error: &ApiError) -> (r: bool)
    ensures
        r == rejects_certificate(*error),
{
    match error {
        ApiError::InvalidXmlStatusCode { message: Some(message), .. } => contains(
            message.as_str(),
            "Certificate",
        ),
        ApiError::RequestClient(error) => error.encryption,
        _ => false,
    }
}

/// What has to be asked to learn about a host.
pub enum InfoStart {
    /// Nothing: it was asked before.
    Cached,
    /// The unencrypted port, at this address.
    Ask { client: ClientSetup, route: Route, address: String },
}

/// What the reply of the unencrypted port leads to.
pub enum InfoReply<V> {
    /// The host is offline.
    Offline,
    /// The host is known now.
    Ready,
    /// The encrypted port has to be asked too, at this address.
    AskEncrypted { address: String, info: HostInfo<V> },
}

/// A request to pair with a host.
pub struct PairRequest<V> {
    pub http_address: String,
    pub https_address: String,
    /// The name under which this device is paired.
    pub device_name: String,
    /// The version of the host.
    pub app_version: V,
}

/// `request` is the one to pair with a host that was reached on `route` and has said
/// `info` of itself.
pub open spec fn pairs_with<V>(
    request: PairRequest<V>,
    info: HostInfo<V>,
    route: Route,
    config: Config,
) -> bool {
    &&& request.http_address@ == hostport(route.address@, route.http_port)
    &&& request.https_address@ == hostport(route.address@, info.https_port)
    &&& request.device_name@ == config.moonlight.pair_device_name@
    &&& request.app_version == info.app_version
}

/// The pairing data that is stored of a host.
pub open spec fn stored_pair_info(hosts: Map<u32, HostRecord>, id: HostId) -> Result<
    StorageHostPairInfo,
    AppError,
> {
    if !hosts.contains_key(id.0) {
        Err(AppError::HostNotFound)
    } else {
        match hosts[id.0].pair_info {
            Some(pair_info) => Ok(pair_info),
            None => Err(AppError::HostNotPaired),
        }
    }
}

/// A host, with what was read of it before.
pub struct Host<V> {
    pub id: HostId,
    pub cache_storage: Option<StorageHost>,
    pub cache_host_info: Option<HostInfo<V>>,
}

impl<V> Host<V> {
    /// What is known of this host beside the stored `hosts`: an earlier reading
    /// counts before what is stored.
    pub open spec fn record(self, hosts: Map<u32, HostRecord>) -> Option<HostRecord> {
        match self.cache_storage {
            Some(host) => Some(host@),
            None => if hosts.contains_key(self.id.0) {
                Some(hosts[self.id.0])
            } else {
                None
            },
        }
    }

    /// This host after a pairing: what was read of it is forgotten, and what it has
    /// said of itself is replaced by `reply`, where that is an answer.
    pub open spec fn refreshed(self, reply: Result<HostInfo<V>, ApiError>) -> Host<V> {
        Host {
            id: self.id,
            cache_storage: None,
            cache_host_info: match reply {
                Ok(new_info) => Some(new_info),
                Err(_) => self.cache_host_info,
            },
        }
    }

    /// The identifier of the host.
    pub fn id(&self) -> (r: HostId)
        ensures
            r == self.id,
    {
        self.id
    }

    /// Changes what is stored of the host. What was read of it before is forgotten.
    pub fn modify(&mut self, storage: &mut JsonStorage, modify: StorageHostModify) -> (r: Result<
        (),
        AppError,
    >)
        ensures
            final(self).id == old(self).id,
            final(self).cache_storage is None,
            final(self).cache_host_info == old(self).cache_host_info,
            modifies(old(storage).hosts(), final(storage).hosts(), old(self).id, modify, r),
            final(storage).write_pending == (old(storage).write_pending || r is Ok),
    {
        self.cache_storage = None;
        storage.modify_host(self.id, modify)
    }

    /// What is known of the host.
    pub fn storage_host(&self, storage: &JsonStorage) -> (r: Result<StorageHost, AppError>)
        ensures
            match r {
                Ok(host) => self.record(storage.hosts()) == Some(host@),
                Err(error) => self.record(storage.hosts()) is None && error
                    == AppError::HostNotFound,
            },
            self.cache_storage matches Some(host) ==> r == Ok::<StorageHost, AppError>(host),
            self.cache_storage is None && r is Ok ==> r->Ok_0.id == self.id,
    {
        match &self.cache_storage {
            Some(host) => Ok(host.clone()),
            None => storage.get_host(self.id),
        }
    }

    /// The stored address and port of the host.
    pub fn address_port(&self, storage: &JsonStorage) -> (r: Result<(String, u16), AppError>)
        ensures
            r is Ok <==> storage.hosts().contains_key(self.id.0),
            match r {
                Ok(found) => found.0@ == storage.hosts()[self.id.0].address && found.1
                    == storage.hosts()[self.id.0].http_port,
                Err(error) => error == AppError::HostNotFound,
            },
    {
        match storage.get_host(self.id) {
            Ok(host) => Ok((host.address, host.http_port)),
            Err(error) => Err(error),
        }
    }

    /// The stored pairing data of the host.
    pub fn pair_info(&self, storage: &JsonStorage) -> (r: Result<StorageHostPairInfo, AppError>)
        ensures
            r == stored_pair_info(storage.hosts(), self.id),
            r == (if !storage.hosts().contains_key(self.id.0) {
                Err::<StorageHostPairInfo, AppError>(AppError::HostNotFound)
            } else {
                match storage.hosts()[self.id.0].pair_info {
                    Some(pair_info) => Ok(pair_info),
                    None => Err(AppError::HostNotPaired),
                }
            }),
    {
        match storage.get_host(self.id) {
            Ok(host) => match host.pair_info {
                Some(pair_info) => Ok(pair_info),
                None => Err(AppError::HostNotPaired),
            },
            Err(error) => Err(error),
        }
    }

    /// Sets up the client that the next requests to the host are made with.
    pub fn use_client(&self, storage: &JsonStorage, config: &Config, pairing: bool) -> (r: Result<
        (ClientSetup, Route),
        AppError,
    >)
        ensures
            match self.record(storage.hosts()) {
                None => r == Err::<(ClientSetup, Route), AppError>(AppError::HostNotFound),
                Some(record) => r is Ok && sets_up(
                    r->Ok_0.0,
                    r->Ok_0.1,
                    record,
                    *config,
                    pairing,
                ),
            },
    {
        let unique_id = config.moonlight.pair_device_name.clone();
        let host_data = match self.storage_host(storage) {
            Ok(host) => host,
            Err(error) => {
                return Err(error);
            },
        };
        let (kind, https_capable) = if pairing {
            (ClientKind::LongTimeout, false)
        } else {
            match host_data.pair_info {
                Some(pair_info) => (ClientKind::Certificates(pair_info), true),
                None => (ClientKind::Defaults, false),
            }
        };
        Ok(
            (
                ClientSetup { kind, unique_id, uuid: new_uuid() },
                Route {
                    https_capable,
                    address: host_data.address,
                    http_port: host_data.http_port,
                },
            ),
        )
    }

    /// Begins to learn about the host.
    pub fn host_info(&self, storage: &JsonStorage, config: &Config) -> (r: Result<
        InfoStart,
        AppError,
    >)
        ensures
            self.cache_host_info is Some ==> r == Ok::<InfoStart, AppError>(InfoStart::Cached),
            self.cache_host_info is None ==> match self.record(storage.hosts()) {
                None => r == Err::<InfoStart, AppError>(AppError::HostNotFound),
                Some(record) => r matches Ok(InfoStart::Ask { client, route, address }) && sets_up(
                    client,
                    route,
                    record,
                    *config,
                    false,
                ) && address@ == hostport(record.address, record.http_port),
            },
    {
        if self.cache_host_info.is_some() {
            return Ok(InfoStart::Cached);
        }
        match self.use_client(storage, config, false) {
            Ok((client, route)) => {
                let address = build_hostport(route.address.as_str(), route.http_port);
                Ok(InfoStart::Ask { client, route, address })
            },
            Err(error) => Err(error),
        }
    }

    /// Takes the reply of the unencrypted port. A client that can ask the encrypted
    /// port has to do so before the reply is kept.
    pub fn on_host_info(
        &mut self,
        route: &Route,
        reply: Result<HostInfo<V>, ApiError>,
    ) -> (r: Result<InfoReply<V>, AppError>)
        ensures
            final(self).id == old(self).id,
            final(self).cache_storage == old(self).cache_storage,
            match reply {
                Ok(info) => if route.https_capable {
                    &&& r matches Ok(InfoReply::AskEncrypted { address, info: asked })
                    &&& address@ == hostport(route.address@, info.https_port)
                    &&& asked == info
                    &&& final(self).cache_host_info == old(self).cache_host_info
                } else {
                    &&& r == Ok::<InfoReply<V>, AppError>(InfoReply::Ready)
                    &&& final(self).cache_host_info == Some(info)
                },
                Err(error) => {
                    &&& final(self).cache_host_info == old(self).cache_host_info
                    &&& r == (if error.is_connect() {
                        Ok::<InfoReply<V>, AppError>(InfoReply::Offline)
                    } else {
                        Err(AppError::MoonlightApi(error))
                    })
                },
            },
    {
        match is_offline(reply) {
            Ok(Some(info)) => if route.https_capable {
                let address = build_hostport(route.address.as_str(), info.https_port);
                Ok(InfoReply::AskEncrypted { address, info })
            } else {
                self.cache_host_info = Some(info);
                Ok(InfoReply::Ready)
            },
            Ok(None) => Ok(InfoReply::Offline),
            Err(error) => Err(error),
        }
    }

    /// Takes the reply of the encrypted port. Where the host no longer accepts the
    /// certificate, what the unencrypted port said counts.
    pub fn on_encrypted_host_info(
        &mut self,
        info: HostInfo<V>,
        reply: Result<HostInfo<V>, ApiError>,
    ) -> (r: Result<(), AppError>)
        ensures
            final(self).id == old(self).id,
            final(self).cache_storage == old(self).cache_storage,
            match reply {
                Ok(new_info) => r is Ok && final(self).cache_host_info == Some(new_info),
                Err(error) => if rejects_certificate(error) {
                    r is Ok && final(self).cache_host_info == Some(info)
                } else {
                    &&& r == Err::<(), AppError>(AppError::MoonlightApi(error))
                    &&& final(self).cache_host_info == old(self).cache_host_info
                },
            },
    {
        match reply {
            Ok(new_info) => {
                self.cache_host_info = Some(new_info);
                Ok(())
            },
            Err(error) => if certificate_rejected(&error) {
                self.cache_host_info = Some(info);
                Ok(())
            } else {
                Err(AppError::MoonlightApi(error))
            },
        }
    }

    /// What is known of a host that has to be online.
    pub fn online_info(&self) -> (r: Result<&HostInfo<V>, AppError>)
        ensures
            match self.cache_host_info {
                Some(info) => r is Ok && *r->Ok_0 == info,
                None => r is Err && r->Err_0 == AppError::HostOffline,
            },
    {
        match &self.cache_host_info {
            Some(info) => Ok(info),
            None => Err(AppError::HostOffline),
        }
    }

    /// What is known of a host that is about to be paired: it must be there and not
    /// be paired yet.
    pub fn unpaired_info(&self) -> (r: Result<&HostInfo<V>, AppError>)
        ensures
            match self.cache_host_info {
                Some(info) => if info.pair_status == PairStatus::Paired {
                    r is Err && r->Err_0 == AppError::HostPaired
                } else {
                    r is Ok && *r->Ok_0 == info
                },
                None => r is Err && r->Err_0 == AppError::HostNotFound,
            },
    {
        match &self.cache_host_info {
            Some(info) => match info.pair_status {
                PairStatus::Paired => Err(AppError::HostPaired),
                PairStatus::NotPaired => Ok(info),
            },
            None => Err(AppError::HostNotFound),
        }
    }

    /// The request that a pairing begins with.
    pub fn pair(info: &HostInfo<V>, route: &Route, config: &Config) -> (r: PairRequest<V>) where
        V: Copy,

        ensures
            pairs_with(r, *info, *route, *config),
    {
        PairRequest {
            http_address: build_hostport(route.address.as_str(), route.http_port),
            https_address: build_hostport(route.address.as_str(), info.https_port),
            device_name: config.moonlight.pair_device_name.clone(),
            app_version: info.app_version,
        }
    }

    /// Stores the outcome of a pairing, after which the encrypted port was asked once
    /// more: what the host has said of itself then counts from now on. Where it has
    /// said nothing, what it has said before still counts.
    pub fn paired(
        &mut self,
        storage: &mut JsonStorage,
        pair_info: StorageHostPairInfo,
        reply: Result<HostInfo<V>, ApiError>,
    ) -> (r: Result<(), AppError>)
        ensures
            *final(self) == old(self).refreshed(reply),
            r is Ok <==> old(storage).hosts().contains_key(old(self).id.0),
            match r {
                Ok(_) => {
                    &&& final(storage).write_pending
                    &&& final(storage).hosts() == old(storage).hosts().insert(
                        old(self).id.0,
                        (HostRecord {
                            pair_info: Some(pair_info),
                            ..old(storage).hosts()[old(self).id.0]
                        }),
                    )
                },
                Err(error) => {
                    &&& error == AppError::HostNotFound
                    &&& final(storage).hosts() == old(storage).hosts()
                    &&& final(storage).write_pending == old(storage).write_pending
                },
            },
    {
        if let Ok(new_info) = reply {
            self.cache_host_info = Some(new_info);
        }
        let modify = StorageHostModify {
            address: None,
            http_port: None,
            pair_info: Some(Some(pair_info)),
            cache_name: None,
            cache_mac: None,
        };
        self.modify(storage, modify)
    }

    /// The address that lists the applications of the host.
    pub fn list_apps(info: &HostInfo<V>, route: &Route) -> (r: Result<String, AppError>)
        ensures
            if route.https_capable {
                r is Ok && r->Ok_0@ == hostport(route.address@, info.https_port)
            } else {
                r == Err::<String, AppError>(AppError::HostNotPaired)
            },
    {
        if !route.https_capable {
            return Err(AppError::HostNotPaired);
        }
        Ok(build_hostport(route.address.as_str(), info.https_port))
    }

    /// The address that ends the running application of the host.
    pub fn cancel_app(info: &HostInfo<V>, route: &Route) -> (r: Result<String, AppError>)
        ensures
            if route.https_capable {
                r is Ok && r->Ok_0@ == hostport(route.address@, info.https_port)
            } else {
                r == Err::<String, AppError>(AppError::Forbidden)
            },
    {
        if !route.https_capable {
            return Err(AppError::Forbidden);
        }
        Ok(build_hostport(route.address.as_str(), info.https_port))
    }
}

/// The client is a matter of the pairing: one with long timeouts for a pairing, one with
/// the certificates of an earlier pairing where there was one, and else one without any.
/// Only certificates make encrypted requests. The host is reached where it is stored.
pub proof fn law_clients_follow_the_pairing(
    client: ClientSetup,
    route: Route,
    record: HostRecord,
    config: Config,
    pairing: bool,
)
    requires
        sets_up(client, route, record, config, pairing),
    ensures
        pairing ==> client.kind is LongTimeout && !route.https_capable,
        !pairing && record.pair_info is None ==> client.kind is Defaults && !route.https_capable,
        !pairing ==> (record.pair_info matches Some(pair_info) ==> client.kind
            == ClientKind::Certificates(pair_info) && route.https_capable),
        client.unique_id@ == config.moonlight.pair_device_name@,
        (client.uuid >> 76) & 0xF == 4,
        (client.uuid >> 62) & 3 == 2,
        route.address@ == record.address,
        route.http_port == record.http_port,
{
    law_random_identifiers(client.uuid);
}

/// A random UUID bears the number four where its version stands and the bits one and
/// zero where its variant stands; nothing else is known of it.
pub proof fn law_random_identifiers(id: u128)
    ensures
        is_random_uuid(id) <==> (id >> 76) & 0xF == 4 && (id >> 62) & 3 == 2,
{
    assert(id & 0xF000_C000_0000_0000_0000 == 0x4000_8000_0000_0000_0000 <==> (id >> 76) & 0xF == 4
        && (id >> 62) & 3 == 2) by (bit_vector);
}

/// The address of a port is the host, a colon and the port, which can be read back.
pub proof fn law_addresses_read_back(host: Seq<char>, port: u16)
    ensures
        hostport(host, port).len() > host.len(),
        hostport(host, port).take(host.len() as int) == host,
        hostport(host, port)[host.len() as int] == ':',
        hostport(host, port).skip(host.len() + 1int) == crate::text::decimal(port as nat),
        crate::text::parsed_u16(hostport(host, port).skip(host.len() + 1int)) == Some(port),
{
    reveal_strlit(":");
    let address = hostport(host, port);
    assert(address.take(host.len() as int) =~= host);
    assert(address.skip(host.len() + 1int) =~= crate::text::decimal(port as nat));
    crate::text::law_port_text_reads_back(port);
}

/// A certificate counts as rejected where the encryption failed or where the message of
/// the host holds the word for it, in this case of letters; and in no other way.
pub proof fn law_rejected_certificates(error: ApiError)
    ensures
        error matches ApiError::RequestClient(cause) ==> rejects_certificate(error)
            == cause.encryption,
        error matches ApiError::InvalidXmlStatusCode { message: Some(message), .. } ==> (
        rejects_certificate(error) <==> exists|a: Seq<char>, b: Seq<char>|
            message@ == #[trigger] (a + "Certificate"@ + b)),
        error matches ApiError::InvalidXmlStatusCode { message: None, .. }
            ==> !rejects_certificate(error),
        error is Other ==> !rejects_certificate(error),
{
    if let ApiError::InvalidXmlStatusCode { message: Some(message), .. } = error {
        crate::text::law_occurring_text_splits_the_other(message@, "Certificate"@);
    }
}

/// A pairing goes through the port that the host is reached on and through the encrypted
/// one that it has told, under the name of this device and with the version of the host.
pub proof fn law_pair_requests<V>(
    request: PairRequest<V>,
    info: HostInfo<V>,
    route: Route,
    config: Config,
)
    requires
        pairs_with(request, info, route, config),
    ensures
        request.http_address@ == route.address@ + ":"@ + crate::text::decimal(
            route.http_port as nat,
        ),
        request.https_address@ == route.address@ + ":"@ + crate::text::decimal(
            info.https_port as nat,
        ),
        request.device_name@ == config.moonlight.pair_device_name@,
        request.app_version == info.app_version,
{
}

/// What was read of a host counts before what is stored of it; without either nothing is
/// known.
pub proof fn law_readings_count_first<V>(host: Host<V>, hosts: Map<u32, HostRecord>)
    ensures
        host.cache_storage matches Some(read) ==> host.record(hosts) == Some(read@),
        host.cache_storage is None && hosts.contains_key(host.id.0) ==> host.record(hosts) == Some(
            hosts[host.id.0],
        ),
        host.cache_storage is None && !hosts.contains_key(host.id.0) ==> host.record(
            hosts,
        ) is None,
{
}

/// After a pairing a host is the same one; what it has said last counts.
pub proof fn law_refreshed_host<V>(host: Host<V>, reply: Result<HostInfo<V>, ApiError>)
    ensures
        host.refreshed(reply).id == host.id,
        host.refreshed(reply).cache_storage is None,
        reply matches Ok(info) ==> host.refreshed(reply).cache_host_info == Some(info),
        reply is Err ==> host.refreshed(reply).cache_host_info == host.cache_host_info,
{
}

/// An application that a host lists keeps its number, its title and what it can show.
pub proof fn law_listed_apps_keep_their_fields(value: NetworkApp)
    ensures
        <App as vstd::std_specs::convert::FromSpec<NetworkApp>>::from_spec(value).id.0 == value.id,
        <App as vstd::std_specs::convert::FromSpec<NetworkApp>>::from_spec(value).title
            == value.title,
        <App as vstd::std_specs::convert::FromSpec<NetworkApp>>::from_spec(value).is_hdr_supported
            == value.is_hdr_supported,
{
}

/// The pairing data of a host is what is stored of it, where it is stored and paired.
pub proof fn law_pairing_data_is_what_is_stored(hosts: Map<u32, HostRecord>, id: HostId)
    ensures
        stored_pair_info(hosts, id) is Ok <==> hosts.contains_key(id.0)
            && hosts[id.0].pair_info is Some,
        stored_pair_info(hosts, id) matches Ok(pair_info) ==> hosts[id.0].pair_info == Some(
            pair_info,
        ),
        stored_pair_info(hosts, id) matches Err(error) ==> if hosts.contains_key(id.0) {
            error is HostNotPaired
        } else {
            error is HostNotFound
        },
{
}

} // verus!
