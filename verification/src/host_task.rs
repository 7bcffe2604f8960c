//! A call of a stream host, from the first question to the result. The network work
//! between the steps is done by the caller.
use crate::config::Config;
use crate::error::{ApiError, AppError};
use crate::host::{
    apps_from_network, App, ClientKind, ClientSetup, Host, HostInfo, InfoReply, InfoStart,
    NetworkApp, PairRequest, PairStatus, Route,
};
use crate::json_storage::JsonStorage;
use crate::storage::{HostRecord, Storage, StorageHostPairInfo};
use vstd::prelude::*;

verus! {

/// What is wanted of a host.
#[derive(Debug, Clone, Copy, PartialEq, Eq, Structural)]
pub enum HostCall {
    /// The list of its applications.
    ListApps,
    /// The end of its running application.
    CancelApp,
    /// A pairing.
    Pair,
}

/// What a call waits for.
pub enum HostState<V> {
    /// The client for the questions about the host; with the address of the first one.
    InfoClient { route: Route, address: String },
    /// The reply of the unencrypted port.
    Info { route: Route },
    /// The reply of the encrypted port; with what the unencrypted one said.
    EncryptedInfo { info: HostInfo<V> },
    /// The client for the call itself.
    Client { route: Route },
    /// The reply to the call itself; with the address of the encrypted port.
    Reply { address: String },
    /// What the host says of itself after a pairing that was good.
    Refresh { pair_info: StorageHostPairInfo },
}

/// A call under way.
pub struct HostTask<V> {
    pub call: HostCall,
    pub state: HostState<V>,
}

/// What a call needs done next.
pub enum HostAction<V> {
    /// A client is to be built, and used from then on.
    BuildClient(ClientSetup),
    /// The host is to be asked about itself. After a pairing that is done with the
    /// client that the pairing has given.
    AskInfo { encrypted: bool, address: String },
    /// The host is to be asked for its applications.
    ListApps { address: String },
    /// The host is to be asked to end its application.
    CancelApp { address: String },
    /// The host is to be asked to pair, with a new key and certificate.
    Pair(PairRequest<V>),
}

/// What came of an action.
pub enum HostEvent<V> {
    ClientBuilt(Result<(), ApiError>),
    Info(Result<HostInfo<V>, ApiError>),
    Apps(Result<Vec<NetworkApp>, ApiError>),
    Cancelled(Result<bool, ApiError>),
    Paired(Result<StorageHostPairInfo, AppError>),
}

/// What came of a call.
pub enum HostOutcome {
    Apps(Vec<App>),
    Cancelled(bool),
    Paired,
}

/// What follows a step of a call.
pub enum HostStep<V> {
    Continue(HostTask<V>, HostAction<V>),
    Finish(Result<HostOutcome, AppError>),
}

/// `apps` are the applications of `list`, in its order.
pub open spec fn same_apps(list: Seq<NetworkApp>, apps: Seq<App>) -> bool {
    apps.len() == list.len() && forall|i: int|
        0 <= i < apps.len() ==> (#[trigger] apps[i]).id.0 == list[i].id && apps[i].title
            == list[i].title && apps[i].is_hdr_supported == list[i].is_hdr_supported
}

impl<V> HostTask<V> {
    /// `event` is what the call waits for.
    pub open spec fn expects(self, event: HostEvent<V>) -> bool {
        match self.state {
            HostState::InfoClient { .. } => event is ClientBuilt,
            HostState::Info { .. } => event is Info,
            HostState::EncryptedInfo { .. } => event is Info,
            HostState::Client { .. } => event is ClientBuilt,
            HostState::Reply { .. } => match self.call {
                HostCall::ListApps => event is Apps,
                HostCall::CancelApp => event is Cancelled,
                HostCall::Pair => event is Paired,
            },
            HostState::Refresh { .. } => self.call == HostCall::Pair && event is Info,
        }
    }

    /// How many steps the call can still take.
    pub open spec fn steps_left(self) -> nat {
        match self.state {
            HostState::InfoClient { .. } => 6,
            HostState::Info { .. } => 5,
            HostState::EncryptedInfo { .. } => 4,
            HostState::Client { .. } => 3,
            HostState::Reply { .. } => 2,
            HostState::Refresh { .. } => 1,
        }
    }
}

/// The error of a call of a host that is offline.
pub open spec fn offline_error(call: HostCall) -> AppError {
    if call == HostCall::Pair {
        AppError::HostNotFound
    } else {
        AppError::HostOffline
    }
}

/// Why a host of which `info` is known is not called; `None` where it is.
pub open spec fn refusal<V>(call: HostCall, info: Option<HostInfo<V>>) -> Option<AppError> {
    match info {
        None => Some(offline_error(call)),
        Some(info) => if call == HostCall::Pair && info.pair_status == PairStatus::Paired {
            Some(AppError::HostPaired)
        } else {
            None
        },
    }
}

/// `r` is the step that follows once the host is known: a client for the call is set
/// up, unless the call is refused.
pub open spec fn enters<V>(
    call: HostCall,
    host: Host<V>,
    hosts: Map<u32, HostRecord>,
    config: Config,
    r: HostStep<V>,
) -> bool {
    match refusal(call, host.cache_host_info) {
        Some(error) => r == HostStep::<V>::Finish(Err(error)),
        None => match host.record(hosts) {
            None => r == HostStep::<V>::Finish(Err(AppError::HostNotFound)),
            Some(record) => {
                &&& r matches HostStep::Continue(task, HostAction::BuildClient(client))
                &&& task.call == call
                &&& task.state matches HostState::Client { route }
                &&& crate::host::sets_up(client, route, record, config, call == HostCall::Pair)
            },
        },
    }
}

/// `r` is the step that follows once the client for the call is there.
pub open spec fn calls<V>(
    call: HostCall,
    info: Option<HostInfo<V>>,
    route: Route,
    config: Config,
    r: HostStep<V>,
) -> bool {
    match info {
        None => r == HostStep::<V>::Finish(Err(offline_error(call))),
        Some(info) => {
            let encrypted = crate::host::hostport(route.address@, info.https_port);
            match call {
                HostCall::ListApps => if route.https_capable {
                    &&& r matches HostStep::Continue(task, HostAction::ListApps { address })
                    &&& task.call == call
                    &&& task.state matches HostState::Reply { address: at }
                    &&& at@ == encrypted
                    &&& address@ == encrypted
                } else {
                    r == HostStep::<V>::Finish(Err(AppError::HostNotPaired))
                },
                HostCall::CancelApp => if route.https_capable {
                    &&& r matches HostStep::Continue(task, HostAction::CancelApp { address })
                    &&& task.call == call
                    &&& task.state matches HostState::Reply { address: at }
                    &&& at@ == encrypted
                    &&& address@ == encrypted
                } else {
                    r == HostStep::<V>::Finish(Err(AppError::Forbidden))
                },
                HostCall::Pair => {
                    &&& r matches HostStep::Continue(task, HostAction::Pair(request))
                    &&& task.call == call
                    &&& task.state matches HostState::Reply { address: at }
                    &&& at@ == encrypted
                    &&& crate::host::pairs_with(request, info, route, config)
                },
            }
        },
    }
}

/// Sets up the client for a call of a host that is known.
fn enter<V>(call: HostCall, host: &Host<V>, storage: &JsonStorage, config: &Config) -> (r: HostStep<
    V,
>)
    ensures
        enters(call, *host, storage.hosts(), *config, r),
{
    let known = match call {
        HostCall::Pair => host.unpaired_info(),
        _ => host.online_info(),
    };
    match known {
        Ok(_) => {},
        Err(error) => {
            return HostStep::Finish(Err(error));
        },
    }
    let pairing = match call {
        HostCall::Pair => true,
        _ => false,
    };
    match host.use_client(storage, config, pairing) {
        Ok((client, route)) => HostStep::Continue(
            HostTask { call, state: HostState::Client { route } },
            HostAction::BuildClient(client),
        ),
        Err(error) => HostStep::Finish(Err(error)),
    }
}

/// Makes the call, with the client that was built for it.
fn make_call<V: Copy>(call: HostCall, host: &Host<V>, route: Route, config: &Config) -> (r: HostStep<
    V,
>)
    ensures
        calls(call, host.cache_host_info, route, *config, r),
{
    let info = match &host.cache_host_info {
        Some(info) => info,
        None => {
            return HostStep::Finish(
                Err(
                    match call {
                        HostCall::Pair => AppError::HostNotFound,
                        _ => AppError::HostOffline,
                    },
                ),
            );
        },
    };
    match call {
        HostCall::ListApps => match Host::list_apps(info, &route) {
            Ok(address) => HostStep::Continue(
                HostTask { call, state: HostState::Reply { address: address.clone() } },
                HostAction::ListApps { address },
            ),
            Err(error) => HostStep::Finish(Err(error)),
        },
        HostCall::CancelApp => match Host::cancel_app(info, &route) {
            Ok(address) => HostStep::Continue(
                HostTask { call, state: HostState::Reply { address: address.clone() } },
                HostAction::CancelApp { address },
            ),
            Err(error) => HostStep::Finish(Err(error)),
        },
        HostCall::Pair => {
            let request = Host::pair(info, &route, config);
            HostStep::Continue(
                HostTask {
                    call,
                    state: HostState::Reply { address: request.https_address.clone() },
                },
                HostAction::Pair(request),
            )
        },
    }
}

/// `r` is the first step of a call of a host.
pub open spec fn begins<V>(
    call: HostCall,
    host: Host<V>,
    hosts: Map<u32, HostRecord>,
    config: Config,
    r: HostStep<V>,
) -> bool {
    if host.cache_host_info is Some {
        enters(call, host, hosts, config, r)
    } else {
        match host.record(hosts) {
            None => r == HostStep::<V>::Finish(Err(AppError::HostNotFound)),
            Some(record) => {
                &&& r matches HostStep::Continue(task, HostAction::BuildClient(client))
                &&& task.call == call
                &&& task.state matches HostState::InfoClient { route, address }
                &&& crate::host::sets_up(client, route, record, config, false)
                &&& address@ == crate::host::hostport(record.address, record.http_port)
            },
        }
    }
}

/// Begins a call of a host. A host that was not asked about itself before is asked
/// first.
pub fn begin<V>(call: HostCall, host: &Host<V>, storage: &JsonStorage, config: &Config) -> (r:
    HostStep<V>)
    ensures
        begins(call, *host, storage.hosts(), *config, r),
{
    match host.host_info(storage, config) {
        Ok(InfoStart::Cached) => enter(call, host, storage, config),
        Ok(InfoStart::Ask { client, route, address }) => HostStep::Continue(
            HostTask { call, state: HostState::InfoClient { route, address } },
            HostAction::BuildClient(client),
        ),
        Err(error) => HostStep::Finish(Err(error)),
    }
}

/// What one step of a call does to the host and to the store, and what follows it.
pub open spec fn steps<V>(
    task: HostTask<V>,
    before: Host<V>,
    after: Host<V>,
    hosts_before: Map<u32, HostRecord>,
    hosts_after: Map<u32, HostRecord>,
    config: Config,
    event: HostEvent<V>,
    r: HostStep<V>,
) -> bool {
    match (task.state, event) {
        (HostState::InfoClient { route, address }, HostEvent::ClientBuilt(built)) => {
            &&& after == before
            &&& hosts_after == hosts_before
            &&& match built {
                Ok(_) => r == HostStep::Continue(
                    HostTask::<V> { call: task.call, state: HostState::Info { route } },
                    HostAction::AskInfo { encrypted: false, address },
                ),
                Err(error) => r == HostStep::<V>::Finish(Err(AppError::MoonlightApi(error))),
            }
        },
        (HostState::Info { route }, HostEvent::Info(reply)) => {
            &&& hosts_after == hosts_before
            &&& match reply {
                Ok(info) => if route.https_capable {
                    &&& after == before
                    &&& r matches HostStep::Continue(
                        next,
                        HostAction::AskInfo { encrypted, address },
                    )
                    &&& next == HostTask { call: task.call, state: HostState::EncryptedInfo { info } }
                    &&& encrypted
                    &&& address@ == crate::host::hostport(route.address@, info.https_port)
                } else {
                    &&& after == Host { cache_host_info: Some(info), ..before }
                    &&& enters(task.call, after, hosts_before, config, r)
                },
                Err(error) => {
                    &&& after == before
                    &&& r == HostStep::<V>::Finish(
                        Err(
                            if error.is_connect() {
                                offline_error(task.call)
                            } else {
                                AppError::MoonlightApi(error)
                            },
                        ),
                    )
                },
            }
        },
        (HostState::EncryptedInfo { info }, HostEvent::Info(reply)) => {
            &&& hosts_after == hosts_before
            &&& match reply {
                Ok(new_info) => after == (Host { cache_host_info: Some(new_info), ..before })
                    && enters(task.call, after, hosts_before, config, r),
                Err(error) => if crate::host::rejects_certificate(error) {
                    after == (Host { cache_host_info: Some(info), ..before }) && enters(
                        task.call,
                        after,
                        hosts_before,
                        config,
                        r,
                    )
                } else {
                    after == before && r == HostStep::<V>::Finish(
                        Err(AppError::MoonlightApi(error)),
                    )
                },
            }
        },
        (HostState::Client { route }, HostEvent::ClientBuilt(built)) => {
            &&& after == before
            &&& hosts_after == hosts_before
            &&& match built {
                Ok(_) => calls(task.call, before.cache_host_info, route, config, r),
                Err(error) => r == HostStep::<V>::Finish(Err(AppError::MoonlightApi(error))),
            }
        },
        (HostState::Reply { .. }, HostEvent::Apps(reply)) => {
            &&& after == before
            &&& hosts_after == hosts_before
            &&& match reply {
                Ok(list) => r matches HostStep::Finish(Ok(HostOutcome::Apps(apps))) && same_apps(
                    list@,
                    apps@,
                ),
                Err(error) => r == HostStep::<V>::Finish(Err(AppError::MoonlightApi(error))),
            }
        },
        (HostState::Reply { .. }, HostEvent::Cancelled(reply)) => {
            &&& after == before
            &&& hosts_after == hosts_before
            &&& r == HostStep::<V>::Finish(
                match reply {
                    Ok(success) => Ok(HostOutcome::Cancelled(success)),
                    Err(error) => Err(AppError::MoonlightApi(error)),
                },
            )
        },
        (HostState::Reply { address }, HostEvent::Paired(reply)) => {
            &&& after == before
            &&& hosts_after == hosts_before
            &&& match reply {
                Ok(pair_info) => r == HostStep::Continue(
                    HostTask::<V> { call: task.call, state: HostState::Refresh { pair_info } },
                    HostAction::AskInfo { encrypted: true, address },
                ),
                Err(error) => r == HostStep::<V>::Finish(Err(error)),
            }
        },
        (HostState::Refresh { pair_info }, HostEvent::Info(reply)) => {
            &&& after == before.refreshed(reply)
            &&& if hosts_before.contains_key(before.id.0) {
                &&& r == HostStep::<V>::Finish(Ok(HostOutcome::Paired))
                &&& hosts_after == hosts_before.insert(
                    before.id.0,
                    HostRecord { pair_info: Some(pair_info), ..hosts_before[before.id.0] },
                )
            } else {
                &&& r == HostStep::<V>::Finish(Err(AppError::HostNotFound))
                &&& hosts_after == hosts_before
            }
        },
        _ => true,
    }
}

impl<V: Copy> HostTask<V> {
    /// Takes what the call waits for.
    pub fn step(
        self,
        host: &mut Host<V>,
        storage: &mut JsonStorage,
        config: &Config,
        event: HostEvent<V>,
    ) -> (r: HostStep<V>)
        requires
            self.expects(event),
        ensures
            steps(
                self,
                *old(host),
                *final(host),
                old(storage).hosts(),
                final(storage).hosts(),
                *config,
                event,
                r,
            ),
            self.state is Reply ==> (event matches HostEvent::Cancelled(Ok(success)) ==> r
                == HostStep::<V>::Finish(Ok(HostOutcome::Cancelled(success)))),
            self.state is Reply ==> (event matches HostEvent::Apps(Ok(list)) ==> (
            r matches HostStep::Finish(Ok(HostOutcome::Apps(apps))) && apps@.len() == list@.len()
                && forall|i: int|
                0 <= i < apps@.len() ==> (#[trigger] apps@[i]).id.0 == list@[i].id && apps@[i].title
                    == list@[i].title && apps@[i].is_hdr_supported == list@[i].is_hdr_supported)),
            final(host).id == old(host).id,
            final(storage).write_pending == (old(storage).write_pending
                || r == HostStep::<V>::Finish(Ok(HostOutcome::Paired))),
            r matches HostStep::Continue(next, _) ==> next.call == self.call && next.steps_left()
                < self.steps_left(),
    {
        let call = self.call;
        match (self.state, event) {
            (HostState::InfoClient { route, address }, HostEvent::ClientBuilt(Ok(_))) =>
                HostStep::Continue(
                    HostTask { call, state: HostState::Info { route } },
                    HostAction::AskInfo { encrypted: false, address },
                ),
            (HostState::InfoClient { .. }, HostEvent::ClientBuilt(Err(error))) => HostStep::Finish(
                Err(AppError::MoonlightApi(error)),
            ),
            (HostState::Info { route }, HostEvent::Info(reply)) => match host.on_host_info(
                &route,
                reply,
            ) {
                Ok(InfoReply::Offline) => HostStep::Finish(
                    Err(
                        match call {
                            HostCall::Pair => AppError::HostNotFound,
                            _ => AppError::HostOffline,
                        },
                    ),
                ),
                Ok(InfoReply::Ready) => enter(call, host, storage, config),
                Ok(InfoReply::AskEncrypted { address, info }) => HostStep::Continue(
                    HostTask { call, state: HostState::EncryptedInfo { info } },
                    HostAction::AskInfo { encrypted: true, address },
                ),
                Err(error) => HostStep::Finish(Err(error)),
            },
            (HostState::EncryptedInfo { info }, HostEvent::Info(reply)) =>
                match host.on_encrypted_host_info(info, reply) {
                    Ok(_) => enter(call, host, storage, config),
                    Err(error) => HostStep::Finish(Err(error)),
                },
            (HostState::Client { route }, HostEvent::ClientBuilt(Ok(_))) => make_call(
                call,
                host,
                route,
                config,
            ),
            (HostState::Client { .. }, HostEvent::ClientBuilt(Err(error))) => HostStep::Finish(
                Err(AppError::MoonlightApi(error)),
            ),
            (HostState::Reply { .. }, HostEvent::Apps(Ok(list))) => HostStep::Finish(
                Ok(HostOutcome::Apps(apps_from_network(list))),
            ),
            (HostState::Reply { .. }, HostEvent::Apps(Err(error))) => HostStep::Finish(
                Err(AppError::MoonlightApi(error)),
            ),
            (HostState::Reply { .. }, HostEvent::Cancelled(Ok(success))) => HostStep::Finish(
                Ok(HostOutcome::Cancelled(success)),
            ),
            (HostState::Reply { .. }, HostEvent::Cancelled(Err(error))) => HostStep::Finish(
                Err(AppError::MoonlightApi(error)),
            ),
            (HostState::Reply { address }, HostEvent::Paired(Ok(pair_info))) => HostStep::Continue(
                HostTask { call, state: HostState::Refresh { pair_info } },
                HostAction::AskInfo { encrypted: true, address },
            ),
            (HostState::Reply { .. }, HostEvent::Paired(Err(error))) => HostStep::Finish(
                Err(error),
            ),
            (HostState::Refresh { pair_info }, HostEvent::Info(reply)) => match host.paired(
                storage,
                pair_info,
                reply,
            ) {
                Ok(_) => HostStep::Finish(Ok(HostOutcome::Paired)),
                Err(error) => HostStep::Finish(Err(error)),
            },
            _ => vstd::pervasive::unreached(),
        }
    }
}

/// A call ends: it takes at most six steps after its beginning.
pub proof fn law_call_ends<V>(
    call: HostCall,
    host: Host<V>,
    hosts: Map<u32, HostRecord>,
    config: Config,
    r: HostStep<V>,
)
    requires
        begins(call, host, hosts, config, r),
    ensures
        r matches HostStep::Continue(task, _) ==> task.call == call && task.steps_left() <= 6,
{
}

/// Only a pairing that was good changes what is stored, and only of its own host.
pub proof fn law_only_pairing_changes_the_store<V>(
    task: HostTask<V>,
    before: Host<V>,
    after: Host<V>,
    hosts_before: Map<u32, HostRecord>,
    hosts_after: Map<u32, HostRecord>,
    config: Config,
    event: HostEvent<V>,
    r: HostStep<V>,
    id: u32,
)
    requires
        task.expects(event),
        steps(task, before, after, hosts_before, hosts_after, config, event, r),
    ensures
        r != HostStep::<V>::Finish(Ok(HostOutcome::Paired)) ==> hosts_after == hosts_before,
        hosts_after != hosts_before ==> task.call == HostCall::Pair,
        hosts_after.contains_key(id) == hosts_before.contains_key(id),
        id != before.id.0 && hosts_before.contains_key(id) ==> hosts_after[id] == hosts_before[id],
{
}

/// Whatever happens in a call, the host it is about stays the same one.
pub proof fn law_call_keeps_its_host<V>(
    task: HostTask<V>,
    before: Host<V>,
    after: Host<V>,
    hosts_before: Map<u32, HostRecord>,
    hosts_after: Map<u32, HostRecord>,
    config: Config,
    event: HostEvent<V>,
    r: HostStep<V>,
)
    requires
        task.expects(event),
        steps(task, before, after, hosts_before, hosts_after, config, event, r),
    ensures
        after.id == before.id,
        r matches HostStep::Continue(next, _) ==> next.call == task.call,
{
}

/// A call gives what was wanted: a list of applications, the word whether one was
/// ended, or a pairing.
pub proof fn law_call_gives_what_was_wanted<V>(
    task: HostTask<V>,
    before: Host<V>,
    after: Host<V>,
    hosts_before: Map<u32, HostRecord>,
    hosts_after: Map<u32, HostRecord>,
    config: Config,
    event: HostEvent<V>,
    r: HostStep<V>,
)
    requires
        task.expects(event),
        steps(task, before, after, hosts_before, hosts_after, config, event, r),
    ensures
        r matches HostStep::Finish(Ok(outcome)) ==> match task.call {
            HostCall::ListApps => outcome is Apps,
            HostCall::CancelApp => outcome is Cancelled,
            HostCall::Pair => outcome is Paired,
        },
{
}

/// A host that was asked about itself is not asked again: the next call of it begins
/// with the client for the call itself, or is refused.
pub proof fn law_known_host_is_not_asked_again<V>(
    task: HostTask<V>,
    before: Host<V>,
    after: Host<V>,
    hosts_before: Map<u32, HostRecord>,
    hosts_after: Map<u32, HostRecord>,
    config: Config,
    event: HostEvent<V>,
    r: HostStep<V>,
    call: HostCall,
    first: HostStep<V>,
)
    requires
        task.expects(event),
        steps(task, before, after, hosts_before, hosts_after, config, event, r),
        task.state is Info || task.state is EncryptedInfo,
        r matches HostStep::Continue(next, _) && next.state is Client,
        begins(call, after, hosts_after, config, first),
    ensures
        after.cache_host_info is Some,
        first matches HostStep::Continue(next, _) ==> next.state is Client,
{
}

/// A host that is not paired is never asked for its applications or to end one: its
/// clients cannot make encrypted requests, and the call is refused.
pub proof fn law_unpaired_host_is_refused<V>(
    call: HostCall,
    host: Host<V>,
    hosts: Map<u32, HostRecord>,
    config: Config,
    entered: HostStep<V>,
    r: HostStep<V>,
)
    requires
        call != HostCall::Pair,
        enters(call, host, hosts, config, entered),
        entered matches HostStep::Continue(task, _) && (task.state matches HostState::Client {
            route,
        } && calls(call, host.cache_host_info, route, config, r)),
    ensures
        host.record(hosts) is Some,
        host.record(hosts)->0.pair_info is None ==> r == HostStep::<V>::Finish(
            Err(
                if call == HostCall::ListApps {
                    AppError::HostNotPaired
                } else {
                    AppError::Forbidden
                },
            ),
        ),
        host.record(hosts)->0.pair_info is Some ==> r is Continue,
{
}

/// A pairing that was good is followed by one more question, to the encrypted port
/// that the pairing went through.
pub proof fn law_pairing_is_followed_by_a_question<V>(
    info: HostInfo<V>,
    route: Route,
    config: Config,
    called: HostStep<V>,
    before: Host<V>,
    after: Host<V>,
    hosts_before: Map<u32, HostRecord>,
    hosts_after: Map<u32, HostRecord>,
    pair_info: StorageHostPairInfo,
    r: HostStep<V>,
)
    requires
        calls(HostCall::Pair, Some(info), route, config, called),
        steps(
            called->Continue_0,
            before,
            after,
            hosts_before,
            hosts_after,
            config,
            HostEvent::Paired(Ok(pair_info)),
            r,
        ),
    ensures
        after == before,
        hosts_after == hosts_before,
        r matches HostStep::Continue(next, HostAction::AskInfo { encrypted, address }) && encrypted
            && address@ == crate::host::hostport(route.address@, info.https_port) && next.state == (
        HostState::<V>::Refresh { pair_info }),
{
}

/// What a host says of itself after a pairing is what is known of it from then on; a
/// pairing is good without it, too.
pub proof fn law_pairing_refreshes_what_is_known<V>(
    task: HostTask<V>,
    before: Host<V>,
    after: Host<V>,
    hosts_before: Map<u32, HostRecord>,
    hosts_after: Map<u32, HostRecord>,
    config: Config,
    reply: Result<HostInfo<V>, ApiError>,
    r: HostStep<V>,
)
    requires
        task.state is Refresh,
        steps(
            task,
            before,
            after,
            hosts_before,
            hosts_after,
            config,
            HostEvent::Info(reply),
            r,
        ),
    ensures
        reply matches Ok(info) ==> after.cache_host_info == Some(info),
        reply is Err ==> after.cache_host_info == before.cache_host_info,
        hosts_before.contains_key(before.id.0) ==> r == HostStep::<V>::Finish(
            Ok(HostOutcome::Paired),
        ),
{
}

/// After a good pairing the host is reached with the certificates of that pairing.
pub proof fn law_paired_host_is_reached_with_its_certificates<V>(
    task: HostTask<V>,
    before: Host<V>,
    after: Host<V>,
    hosts_before: Map<u32, HostRecord>,
    hosts_after: Map<u32, HostRecord>,
    config: Config,
    pair_info: StorageHostPairInfo,
    reply: Result<HostInfo<V>, ApiError>,
    r: HostStep<V>,
    call: HostCall,
    entered: HostStep<V>,
)
    requires
        task.state == (HostState::<V>::Refresh { pair_info }),
        steps(
            task,
            before,
            after,
            hosts_before,
            hosts_after,
            config,
            HostEvent::Info(reply),
            r,
        ),
        r == HostStep::<V>::Finish(Ok(HostOutcome::Paired)),
        call != HostCall::Pair,
        begins(call, after, hosts_after, config, entered),
    ensures
        entered matches HostStep::Continue(next, HostAction::BuildClient(client)) && client.kind
            == ClientKind::Certificates(pair_info) && match next.state {
            HostState::InfoClient { route, .. } => route.https_capable,
            HostState::Client { route } => route.https_capable,
            _ => false,
        },
{
}

/// A host that has just been paired and says so is not paired again.
pub proof fn law_just_paired_host_is_not_paired_again<V>(
    task: HostTask<V>,
    before: Host<V>,
    after: Host<V>,
    hosts_before: Map<u32, HostRecord>,
    hosts_after: Map<u32, HostRecord>,
    config: Config,
    info: HostInfo<V>,
    r: HostStep<V>,
    again: HostStep<V>,
)
    requires
        task.state is Refresh,
        info.pair_status == PairStatus::Paired,
        steps(
            task,
            before,
            after,
            hosts_before,
            hosts_after,
            config,
            HostEvent::Info(Ok(info)),
            r,
        ),
        begins(HostCall::Pair, after, hosts_after, config, again),
    ensures
        again == HostStep::<V>::Finish(Err(AppError::HostPaired)),
{
    law_paired_host_is_not_paired_again(after, hosts_after, config, again);
}

/// A host that says it is paired is not paired again.
pub proof fn law_paired_host_is_not_paired_again<V>(
    host: Host<V>,
    hosts: Map<u32, HostRecord>,
    config: Config,
    r: HostStep<V>,
)
    requires
        host.cache_host_info matches Some(info) && info.pair_status == PairStatus::Paired,
        begins(HostCall::Pair, host, hosts, config, r),
    ensures
        r == HostStep::<V>::Finish(Err(AppError::HostPaired)),
{
}

/// A cancel that is answered ends with the word of the host, whichever it is: the answers
/// that the application was ended and that it was not end differently. Nothing else
/// changes.
pub proof fn law_cancel_gives_the_word_of_the_host<V>(
    task: HostTask<V>,
    before: Host<V>,
    after: Host<V>,
    hosts_before: Map<u32, HostRecord>,
    hosts_after: Map<u32, HostRecord>,
    config: Config,
    success: bool,
    r: HostStep<V>,
)
    requires
        task.state is Reply,
        steps(task, before, after, hosts_before, hosts_after, config, HostEvent::Cancelled(Ok(success)), r),
    ensures
        r matches HostStep::Finish(Ok(HostOutcome::Cancelled(told))) && told == success,
        after == before,
        hosts_after == hosts_before,
{
}

/// A list that is answered ends with the applications of the host, each as the host has
/// listed it and in its order. Nothing else changes.
pub proof fn law_list_gives_the_apps_of_the_host<V>(
    task: HostTask<V>,
    before: Host<V>,
    after: Host<V>,
    hosts_before: Map<u32, HostRecord>,
    hosts_after: Map<u32, HostRecord>,
    config: Config,
    list: Vec<NetworkApp>,
    r: HostStep<V>,
)
    requires
        task.state is Reply,
        steps(task, before, after, hosts_before, hosts_after, config, HostEvent::Apps(Ok(list)), r),
    ensures
        r matches HostStep::Finish(Ok(HostOutcome::Apps(apps))) && apps@.len() == list@.len()
            && forall|i: int|
            0 <= i < list@.len() ==> (#[trigger] apps@[i]).id.0 == list@[i].id && apps@[i].title
                == list@[i].title && apps@[i].is_hdr_supported == list@[i].is_hdr_supported,
        after == before,
        hosts_after == hosts_before,
{
}

/// Lists of applications are the same where each application keeps its number, its title
/// and what it can show, in the same order.
pub proof fn law_same_apps_in_the_same_order(list: Seq<NetworkApp>, apps: Seq<App>, i: int)
    requires
        same_apps(list, apps),
        0 <= i < list.len(),
    ensures
        apps.len() == list.len(),
        apps[i].id.0 == list[i].id,
        apps[i].title == list[i].title,
        apps[i].is_hdr_supported == list[i].is_hdr_supported,
{
}

/// An error in answer to a call ends it with that error, and changes nothing.
pub proof fn law_errors_in_answer_end_a_call<V>(
    task: HostTask<V>,
    before: Host<V>,
    after: Host<V>,
    hosts_before: Map<u32, HostRecord>,
    hosts_after: Map<u32, HostRecord>,
    config: Config,
    error: ApiError,
    pairing_error: AppError,
    event: HostEvent<V>,
    r: HostStep<V>,
)
    requires
        task.state is Reply,
        event == HostEvent::<V>::Apps(Err(error)) || event == HostEvent::<V>::Cancelled(Err(error))
            || event == HostEvent::<V>::Paired(Err(pairing_error)),
        steps(task, before, after, hosts_before, hosts_after, config, event, r),
    ensures
        event is Apps || event is Cancelled ==> r == HostStep::<V>::Finish(
            Err(AppError::MoonlightApi(error)),
        ),
        event is Paired ==> r == HostStep::<V>::Finish(Err(pairing_error)),
        after == before,
        hosts_after == hosts_before,
{
}

/// A client that cannot be built ends a call with that error, whatever it is, and
/// changes nothing.
pub proof fn law_missing_client_ends_a_call<V>(
    task: HostTask<V>,
    before: Host<V>,
    after: Host<V>,
    hosts_before: Map<u32, HostRecord>,
    hosts_after: Map<u32, HostRecord>,
    config: Config,
    error: ApiError,
    r: HostStep<V>,
)
    requires
        task.state is InfoClient || task.state is Client,
        steps(task, before, after, hosts_before, hosts_after, config, HostEvent::ClientBuilt(Err(error)), r),
    ensures
        r == HostStep::<V>::Finish(Err(AppError::MoonlightApi(error))),
        after == before,
        hosts_after == hosts_before,
{
}

/// With a client the host is asked about itself, unencrypted, at the address that was
/// set up with it.
pub proof fn law_first_question_is_unencrypted<V>(
    task: HostTask<V>,
    before: Host<V>,
    after: Host<V>,
    hosts_before: Map<u32, HostRecord>,
    hosts_after: Map<u32, HostRecord>,
    config: Config,
    route: Route,
    address: String,
    r: HostStep<V>,
)
    requires
        task.state == (HostState::<V>::InfoClient { route, address }),
        steps(task, before, after, hosts_before, hosts_after, config, HostEvent::ClientBuilt(Ok(())), r),
    ensures
        r matches HostStep::Continue(next, HostAction::AskInfo { encrypted, address: asked })
            && !encrypted && asked == address && next.call == task.call && next.state == (
        HostState::<V>::Info { route }),
        after == before,
        hosts_after == hosts_before,
{
}

/// What a host says on its unencrypted port counts at once where the client can do no
/// more. Where it can, the encrypted port that the host has told is asked first.
pub proof fn law_first_answer<V>(
    task: HostTask<V>,
    before: Host<V>,
    after: Host<V>,
    hosts_before: Map<u32, HostRecord>,
    hosts_after: Map<u32, HostRecord>,
    config: Config,
    route: Route,
    info: HostInfo<V>,
    r: HostStep<V>,
)
    requires
        task.state == (HostState::<V>::Info { route }),
        steps(task, before, after, hosts_before, hosts_after, config, HostEvent::Info(Ok(info)), r),
    ensures
        hosts_after == hosts_before,
        after.id == before.id,
        after.cache_storage == before.cache_storage,
        !route.https_capable ==> after.cache_host_info == Some(info),
        !route.https_capable ==> enters(task.call, after, hosts_before, config, r),
        route.https_capable ==> after == before,
        route.https_capable ==> (r matches HostStep::Continue(
            next,
            HostAction::AskInfo { encrypted, address },
        ) && encrypted && address@ == route.address@ + ":"@ + crate::text::decimal(
            info.https_port as nat,
        ) && next.call == task.call && next.state == (HostState::<V>::EncryptedInfo { info })),
{
}

/// A host that cannot be reached is offline, or not found for a pairing; any other error
/// is passed on. Nothing changes.
pub proof fn law_unreachable_host_is_offline<V>(
    task: HostTask<V>,
    before: Host<V>,
    after: Host<V>,
    hosts_before: Map<u32, HostRecord>,
    hosts_after: Map<u32, HostRecord>,
    config: Config,
    error: ApiError,
    r: HostStep<V>,
)
    requires
        task.state is Info,
        steps(task, before, after, hosts_before, hosts_after, config, HostEvent::Info(Err(error)), r),
    ensures
        after == before,
        hosts_after == hosts_before,
        (error matches ApiError::RequestClient(cause) && cause.connect) ==> (if task.call is Pair {
            r == HostStep::<V>::Finish(Err(AppError::HostNotFound))
        } else {
            r == HostStep::<V>::Finish(Err(AppError::HostOffline))
        }),
        !(error matches ApiError::RequestClient(cause) && cause.connect) ==> r
            == HostStep::<V>::Finish(Err(AppError::MoonlightApi(error))),
{
}

/// What a host says on its encrypted port counts before what it has said on the other
/// one. Where it takes no certificate any more the other one counts; any other error is
/// passed on.
pub proof fn law_second_answer<V>(
    task: HostTask<V>,
    before: Host<V>,
    after: Host<V>,
    hosts_before: Map<u32, HostRecord>,
    hosts_after: Map<u32, HostRecord>,
    config: Config,
    info: HostInfo<V>,
    reply: Result<HostInfo<V>, ApiError>,
    r: HostStep<V>,
)
    requires
        task.state == (HostState::<V>::EncryptedInfo { info }),
        steps(task, before, after, hosts_before, hosts_after, config, HostEvent::Info(reply), r),
    ensures
        hosts_after == hosts_before,
        after.id == before.id,
        after.cache_storage == before.cache_storage,
        reply matches Ok(new_info) ==> after.cache_host_info == Some(new_info) && enters(
            task.call,
            after,
            hosts_before,
            config,
            r,
        ),
        reply matches Err(error) ==> if (error matches ApiError::RequestClient(cause)
            && cause.encryption) || (error matches ApiError::InvalidXmlStatusCode {
            message: Some(message),
            ..
        } && exists|a: Seq<char>, b: Seq<char>| message@ == #[trigger] (a + "Certificate"@ + b)) {
            after.cache_host_info == Some(info) && enters(task.call, after, hosts_before, config, r)
        } else {
            after == before && r == HostStep::<V>::Finish(Err(AppError::MoonlightApi(error)))
        },
{
    if let Err(error) = reply {
        crate::host::law_rejected_certificates(error);
    }
}

/// A call of a known host is refused where it wants a pairing that the host has already;
/// else the client for the call is set up from what is known of the host, which must be
/// stored.
pub proof fn law_calls_of_a_known_host<V>(
    call: HostCall,
    host: Host<V>,
    info: HostInfo<V>,
    hosts: Map<u32, HostRecord>,
    config: Config,
    r: HostStep<V>,
)
    requires
        host.cache_host_info == Some(info),
        begins(call, host, hosts, config, r),
    ensures
        call is Pair && info.pair_status is Paired ==> r == HostStep::<V>::Finish(
            Err(AppError::HostPaired),
        ),
        !(call is Pair && info.pair_status is Paired) ==> match host.record(hosts) {
            None => r == HostStep::<V>::Finish(Err(AppError::HostNotFound)),
            Some(record) => r matches HostStep::Continue(task, HostAction::BuildClient(client))
                && task.call == call && (task.state matches HostState::Client { route }
                && crate::host::sets_up(client, route, record, config, call is Pair)),
        },
{
}

/// A call of a host of which nothing is known begins with a question to its stored
/// address, and ends where it is not stored.
pub proof fn law_calls_of_an_unknown_host<V>(
    call: HostCall,
    host: Host<V>,
    hosts: Map<u32, HostRecord>,
    config: Config,
    r: HostStep<V>,
)
    requires
        host.cache_host_info is None,
        begins(call, host, hosts, config, r),
    ensures
        match host.record(hosts) {
            None => r == HostStep::<V>::Finish(Err(AppError::HostNotFound)),
            Some(record) => r matches HostStep::Continue(task, HostAction::BuildClient(client))
                && task.call == call && (task.state matches HostState::InfoClient { route, address }
                && crate::host::sets_up(client, route, record, config, false) && address@
                == record.address + ":"@ + crate::text::decimal(record.http_port as nat)),
        },
{
}

/// Why a call is refused: a host that is offline is not called, and a host that says it
/// is paired is not paired.
pub proof fn law_refused_calls<V>(call: HostCall, info: Option<HostInfo<V>>)
    ensures
        info is None ==> refusal(call, info) == Some(
            if call is Pair {
                AppError::HostNotFound
            } else {
                AppError::HostOffline
            },
        ),
        info matches Some(known) ==> (refusal(call, info) is Some <==> call is Pair
            && known.pair_status is Paired),
        info matches Some(known) ==> (refusal(call, info) matches Some(error)
            ==> error is HostPaired),
{
}

/// With its client a call goes to the encrypted port that the host has told. Without
/// certificates no applications are listed or ended.
pub proof fn law_calls_go_to_the_encrypted_port<V>(
    call: HostCall,
    info: HostInfo<V>,
    route: Route,
    config: Config,
    r: HostStep<V>,
)
    requires
        calls(call, Some(info), route, config, r),
    ensures
        ({
            let encrypted = route.address@ + ":"@ + crate::text::decimal(info.https_port as nat);
            &&& call is ListApps && !route.https_capable ==> r == HostStep::<V>::Finish(
                Err(AppError::HostNotPaired),
            )
            &&& call is CancelApp && !route.https_capable ==> r == HostStep::<V>::Finish(
                Err(AppError::Forbidden),
            )
            &&& call is ListApps && route.https_capable ==> (r matches HostStep::Continue(
                task,
                HostAction::ListApps { address },
            ) && address@ == encrypted && task.call == call && task.state is Reply)
            &&& call is CancelApp && route.https_capable ==> (r matches HostStep::Continue(
                task,
                HostAction::CancelApp { address },
            ) && address@ == encrypted && task.call == call && task.state is Reply)
            &&& call is Pair ==> (r matches HostStep::Continue(task, HostAction::Pair(request))
                && request.https_address@ == encrypted && request.http_address@ == route.address@
                + ":"@ + crate::text::decimal(route.http_port as nat) && request.device_name@
                == config.moonlight.pair_device_name@ && request.app_version == info.app_version
                && task.call == call && task.state is Reply)
        }),
{
}

/// A pairing that was good is stored with its host, which keeps everything else that is
/// stored of it; a host that is not stored any more is not found.
pub proof fn law_pairings_are_stored<V>(
    task: HostTask<V>,
    before: Host<V>,
    after: Host<V>,
    hosts_before: Map<u32, HostRecord>,
    hosts_after: Map<u32, HostRecord>,
    config: Config,
    pair_info: StorageHostPairInfo,
    reply: Result<HostInfo<V>, ApiError>,
    r: HostStep<V>,
)
    requires
        task.state == (HostState::<V>::Refresh { pair_info }),
        steps(task, before, after, hosts_before, hosts_after, config, HostEvent::Info(reply), r),
    ensures
        hosts_before.contains_key(before.id.0) ==> {
            &&& r == HostStep::<V>::Finish(Ok(HostOutcome::Paired))
            &&& hosts_after[before.id.0].pair_info == Some(pair_info)
            &&& hosts_after[before.id.0].address == hosts_before[before.id.0].address
            &&& hosts_after[before.id.0].http_port == hosts_before[before.id.0].http_port
            &&& hosts_after[before.id.0].name == hosts_before[before.id.0].name
            &&& hosts_after[before.id.0].mac == hosts_before[before.id.0].mac
        },
        !hosts_before.contains_key(before.id.0) ==> r == HostStep::<V>::Finish(
            Err(AppError::HostNotFound),
        ) && hosts_after == hosts_before,
{
}

/// The event that a call waits for is the answer to its last action.
pub proof fn law_calls_wait_for_the_answer<V>(task: HostTask<V>, event: HostEvent<V>)
    requires
        task.expects(event),
    ensures
        task.state is InfoClient || task.state is Client <==> event is ClientBuilt,
        task.state is Info || task.state is EncryptedInfo || task.state is Refresh
            <==> event is Info,
        event is Apps ==> task.call is ListApps,
        event is Cancelled ==> task.call is CancelApp,
        event is Paired ==> task.call is Pair,
{
}

} // verus!
