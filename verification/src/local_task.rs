//! The steps by which the local stream is looked at or made ready. The network work
//! between the steps is done by the caller.
use crate::app::{host_to_add, App};
use crate::config::Config;
use crate::error::{ApiError, AppError};
use crate::host::{App as HostApp, ClientKind, Host, HostInfo};
use crate::host_task::{
    begin, begins, steps, HostAction, HostCall, HostEvent, HostOutcome, HostState, HostStep,
    HostTask,
};
use crate::json_storage::V2Host;
use crate::local::{
    add_failure, auto_pair_host, backend_failure, bootstrap_with, ensure_local_host,
    finds_local_host, is_first_local, is_local, is_ready_bootstrap, lemma_one_first_local,
    local_address, map_add_error, map_backend_error, no_app_failure, no_association_failure,
    Failure, LocalBootstrap, LocalEnsureError, LocalFailureCode, LocalHost, PairOutcome,
};
use crate::storage::{has_room, HostRecord, Storage, StorageHostAdd};
use vstd::prelude::*;

verus! {

/// What the local stream waits for.
pub enum LocalState<V> {
    /// The client that asks the local host before it is added; with the address.
    AddClient { address: String, http_port: u16 },
    /// The answer of the local host before it is added.
    AddInfo { http_port: u16 },
    /// The applications of the local host. `paired` says that a pairing was made on
    /// the way.
    Apps { host: Host<V>, task: HostTask<V>, paired: bool },
    /// A PIN for a pairing.
    Pin { host: Host<V> },
    /// The end of a pairing.
    Pairing { host: Host<V>, task: HostTask<V> },
}

/// The local stream on its way. `create` says that a missing host is added and an
/// unpaired one is paired.
pub struct LocalTask<V> {
    pub create: bool,
    pub state: LocalState<V>,
}

/// What the local stream needs done next.
pub enum LocalAction<V> {
    /// A request to the local host.
    Host(HostAction<V>),
    /// A PIN is to be made. Where that works it is handed to the local host, again
    /// and again, for as long as requests of a pairing follow.
    MakePin,
    /// A request to the local host that is part of a pairing. The pairing as a whole
    /// has a time limit.
    Pair(HostAction<V>),
}

/// What came of an action.
pub enum LocalEvent<V> {
    Host(HostEvent<V>),
    /// A PIN was made, or not; with the reason.
    PinMade(Result<(), String>),
    /// The time for the pairing is over.
    TimedOut,
}

/// What follows a step.
pub enum LocalStep<V> {
    Continue(LocalTask<V>, LocalAction<V>),
    Finish(Result<LocalBootstrap, LocalEnsureError>),
}

impl<V> LocalTask<V> {
    /// Requests are made for the purpose of the state.
    pub open spec fn wf(self) -> bool {
        match self.state {
            LocalState::Apps { task, .. } => task.call == HostCall::ListApps,
            LocalState::Pairing { task, .. } => task.call == HostCall::Pair,
            _ => true,
        }
    }

    /// `event` is what the local stream waits for.
    pub open spec fn expects(self, event: LocalEvent<V>) -> bool {
        match self.state {
            LocalState::AddClient { .. } => event matches LocalEvent::Host(
                HostEvent::ClientBuilt(_),
            ),
            LocalState::AddInfo { .. } => event matches LocalEvent::Host(HostEvent::Info(_)),
            LocalState::Apps { task, .. } => event matches LocalEvent::Host(e) && task.expects(e),
            LocalState::Pin { .. } => event is PinMade,
            LocalState::Pairing { task, .. } => event is TimedOut || (event matches LocalEvent::Host(
                e,
            ) && task.expects(e)),
        }
    }

    /// How many steps can follow at most.
    pub open spec fn steps_left(self) -> nat {
        match self.state {
            LocalState::AddClient { .. } => 21,
            LocalState::AddInfo { .. } => 20,
            LocalState::Apps { task, paired, .. } => task.steps_left() + if paired {
                0nat
            } else {
                13nat
            },
            LocalState::Pin { .. } => 13,
            LocalState::Pairing { task, .. } => task.steps_left() + 6,
        }
    }
}

/// The local stream ends with this failure.
pub open spec fn fails<V>(r: LocalStep<V>, failure: Failure) -> bool {
    r matches LocalStep::Finish(Err(error)) && error@ == failure
}

/// `r` follows the step `step` of a list of applications that left the local host as
/// `host`.
pub open spec fn after_list<V>(
    create: bool,
    paired: bool,
    host: Host<V>,
    step: HostStep<V>,
    r: LocalStep<V>,
) -> bool {
    match step {
        HostStep::Continue(task, action) => r == LocalStep::Continue(
            LocalTask { create, state: LocalState::Apps { host, task, paired } },
            LocalAction::Host(action),
        ),
        HostStep::Finish(Ok(HostOutcome::Apps(apps))) => if apps@.len() == 0 {
            fails(r, no_app_failure())
        } else {
            r matches LocalStep::Finish(Ok(bootstrap)) && is_ready_bootstrap(
                bootstrap,
                host.id.0,
                apps@,
            )
        },
        HostStep::Finish(Ok(_)) => false,
        HostStep::Finish(Err(error)) => if error == AppError::HostNotPaired && create && !paired {
            r == LocalStep::Continue(
                LocalTask { create, state: LocalState::Pin { host } },
                LocalAction::MakePin,
            )
        } else {
            fails(r, backend_failure(error))
        },
    }
}

/// `r` is the step that asks the local host for its applications.
pub open spec fn asks_for_apps<V>(
    create: bool,
    paired: bool,
    host: Host<V>,
    hosts: Map<u32, HostRecord>,
    config: Config,
    r: LocalStep<V>,
) -> bool {
    exists|step: HostStep<V>| #[trigger]
        begins(HostCall::ListApps, host, hosts, config, step) && after_list(
            create,
            paired,
            host,
            step,
            r,
        )
}

/// `r` follows the step `step` of a pairing that left the local host as `host`.
pub open spec fn after_pairing<V>(
    create: bool,
    host: Host<V>,
    hosts: Map<u32, HostRecord>,
    config: Config,
    step: HostStep<V>,
    r: LocalStep<V>,
) -> bool {
    match step {
        HostStep::Continue(task, action) => r == LocalStep::Continue(
            LocalTask { create, state: LocalState::Pairing { host, task } },
            LocalAction::Pair(action),
        ),
        HostStep::Finish(Ok(_)) => asks_for_apps(create, true, host, hosts, config, r),
        HostStep::Finish(Err(error)) => match PairOutcome::Finished(Err(error)).failure() {
            None => asks_for_apps(create, true, host, hosts, config, r),
            Some(failure) => fails(r, failure),
        },
    }
}

/// What is stored of the local host when it is added.
pub open spec fn local_record<V>(http_port: u16, info: HostInfo<V>) -> HostRecord {
    HostRecord {
        address: local_address(),
        http_port,
        pair_info: None,
        name: info.host_name@,
        mac: info.mac,
    }
}

/// `host` is what is stored under its identifier, and nothing was asked of it yet.
pub open spec fn is_stored<V>(host: Host<V>, hosts: Map<u32, HostRecord>) -> bool {
    &&& hosts.contains_key(host.id.0)
    &&& host.cache_storage is Some
    &&& host.cache_storage->0.id == host.id
    &&& host.cache_storage->0@ == hosts[host.id.0]
    &&& host.cache_host_info is None
}

/// `host` is added, as `record`.
pub open spec fn is_added<V>(
    host: Host<V>,
    record: HostRecord,
    before: Map<u32, HostRecord>,
    after: Map<u32, HostRecord>,
) -> bool {
    !before.contains_key(host.id.0) && after == before.insert(host.id.0, record) && is_stored(
        host,
        after,
    )
}

/// `r` follows the attempt to add the local host as `record`: it is added and asked
/// for its applications, or no identifier could be drawn.
pub open spec fn adds_local_host<V>(
    create: bool,
    record: HostRecord,
    before: Map<u32, HostRecord>,
    after: Map<u32, HostRecord>,
    config: Config,
    r: LocalStep<V>,
) -> bool {
    ||| exists|host: Host<V>| #[trigger]
        is_added(host, record, before, after) && asks_for_apps(
            create,
            false,
            host,
            after,
            config,
            r,
        )
    ||| {
        &&& after == before
        &&& exists|cause: AppError| cause is OpenSSL && #[trigger] fails(r, add_failure(cause))
    }
}

/// `r` is the first step of the local stream where `hosts` are stored and are walked
/// through in the order of `walk`. Of several local hosts the first one is asked.
pub open spec fn starts<V>(
    walk: Seq<(&u32, &V2Host)>,
    create: bool,
    hosts: Map<u32, HostRecord>,
    config: Config,
    r: LocalStep<V>,
) -> bool {
    let port = config.moonlight.default_http_port;
    if exists|id: u32| is_local(hosts, id, port) {
        exists|host: Host<V>| #[trigger]
            is_stored(host, hosts) && is_first_local(walk, hosts, host.id.0, port)
                && asks_for_apps(create, false, host, hosts, config, r)
    } else if create {
        &&& r matches LocalStep::Continue(
            task,
            LocalAction::Host(HostAction::BuildClient(client)),
        )
        &&& task.create
        &&& task.state matches LocalState::AddClient { address, http_port }
        &&& address@ == crate::host::hostport(local_address(), port)
        &&& http_port == port
        &&& client.kind == ClientKind::Defaults
        &&& client.unique_id@ == config.moonlight.pair_device_name@
        &&& crate::host::is_random_uuid(client.uuid)
    } else {
        fails(r, no_association_failure())
    }
}

/// What one step of the local stream does to the stored hosts, and what follows it.
pub open spec fn local_steps<V>(
    task: LocalTask<V>,
    before: Map<u32, HostRecord>,
    after: Map<u32, HostRecord>,
    config: Config,
    event: LocalEvent<V>,
    r: LocalStep<V>,
) -> bool {
    match (task.state, event) {
        (
            LocalState::AddClient { address, http_port },
            LocalEvent::Host(HostEvent::ClientBuilt(built)),
        ) => {
            &&& after == before
            &&& match built {
                Ok(_) => r == LocalStep::Continue(
                    LocalTask::<V> { create: task.create, state: LocalState::AddInfo { http_port } },
                    LocalAction::Host(HostAction::AskInfo { encrypted: false, address }),
                ),
                Err(error) => fails(r, add_failure(AppError::MoonlightApi(error))),
            }
        },
        (LocalState::AddInfo { http_port }, LocalEvent::Host(HostEvent::Info(reply))) =>
            match reply {
                Ok(info) => adds_local_host(
                    task.create,
                    local_record(http_port, info),
                    before,
                    after,
                    config,
                    r,
                ),
                Err(error) => {
                    &&& after == before
                    &&& fails(
                        r,
                        add_failure(
                            if error.is_connect() {
                                AppError::HostNotFound
                            } else {
                                AppError::MoonlightApi(error)
                            },
                        ),
                    )
                },
            },
        (LocalState::Apps { host, task: listing, paired }, LocalEvent::Host(event)) => exists|
            now: Host<V>,
            step: HostStep<V>,
        | #[trigger]
            steps(listing, host, now, before, after, config, event, step) && after_list(
                task.create,
                paired,
                now,
                step,
                r,
            ),
        (LocalState::Pin { host }, LocalEvent::PinMade(made)) => {
            &&& after == before
            &&& match made {
                Ok(_) => exists|step: HostStep<V>| #[trigger]
                    begins(HostCall::Pair, host, before, config, step) && after_pairing(
                        task.create,
                        host,
                        before,
                        config,
                        step,
                        r,
                    ),
                Err(reason) => fails(r, PairOutcome::PinFailed(reason).failure()->0),
            }
        },
        (LocalState::Pairing { host, task: pairing }, LocalEvent::Host(event)) => exists|
            now: Host<V>,
            step: HostStep<V>,
        | #[trigger]
            steps(pairing, host, now, before, after, config, event, step) && after_pairing(
                task.create,
                now,
                after,
                config,
                step,
                r,
            ),
        (LocalState::Pairing { .. }, LocalEvent::TimedOut) => {
            &&& after == before
            &&& fails(r, PairOutcome::TimedOut.failure()->0)
        },
        _ => true,
    }
}

/// Something was stored in a step: the hosts have changed, or a host was paired, be it
/// with what was stored of it before.
pub open spec fn stores<V>(
    task: LocalTask<V>,
    before: Map<u32, HostRecord>,
    after: Map<u32, HostRecord>,
    event: LocalEvent<V>,
) -> bool {
    ||| after != before
    ||| event is Host && (task.state matches LocalState::Pairing { host, task: pairing }
        && pairing.state is Refresh && before.contains_key(host.id.0))
}

/// Goes on after a step of a list of applications.
fn on_list<V>(create: bool, paired: bool, host: Host<V>, step: HostStep<V>) -> (r: LocalStep<V>)
    requires
        step matches HostStep::Finish(Ok(outcome)) ==> outcome is Apps,
        step matches HostStep::Continue(task, _) ==> task.call == HostCall::ListApps,
    ensures
        after_list(create, paired, host, step, r),
        r matches LocalStep::Continue(task, _) ==> task.wf(),
{
    match step {
        HostStep::Continue(task, action) => LocalStep::Continue(
            LocalTask { create, state: LocalState::Apps { host, task, paired } },
            LocalAction::Host(action),
        ),
        HostStep::Finish(Ok(HostOutcome::Apps(apps))) => LocalStep::Finish(
            bootstrap_with(host.id().0, apps.as_slice()),
        ),
        HostStep::Finish(Ok(_)) => vstd::pervasive::unreached(),
        HostStep::Finish(Err(AppError::HostNotPaired)) if create && !paired => LocalStep::Continue(
            LocalTask { create, state: LocalState::Pin { host } },
            LocalAction::MakePin,
        ),
        HostStep::Finish(Err(error)) => LocalStep::Finish(Err(map_backend_error(error))),
    }
}

/// Asks the local host for its applications.
fn ask_for_apps<V>(app: &App, create: bool, paired: bool, host: Host<V>) -> (r: LocalStep<V>)
    ensures
        asks_for_apps(create, paired, host, app.storage.hosts(), app.config, r),
        r matches LocalStep::Continue(task, _) ==> task.wf() && task.steps_left() <= (if paired {
            6nat
        } else {
            19nat
        }),
{
    let step = begin(HostCall::ListApps, &host, &app.storage, &app.config);
    on_list(create, paired, host, step)
}

/// Goes on after a step of a pairing.
fn on_pairing<V>(app: &App, create: bool, host: Host<V>, step: HostStep<V>) -> (r: LocalStep<V>)
    requires
        step matches HostStep::Continue(task, _) ==> task.call == HostCall::Pair,
    ensures
        after_pairing(create, host, app.storage.hosts(), app.config, step, r),
        r matches LocalStep::Continue(task, _) ==> {
            ||| task.wf() && task.steps_left() <= 6
            ||| task.wf() && (step matches HostStep::Continue(next, _) && task.steps_left()
                == next.steps_left() + 6)
        },
{
    let outcome = match step {
        HostStep::Continue(task, action) => {
            return LocalStep::Continue(
                LocalTask { create, state: LocalState::Pairing { host, task } },
                LocalAction::Pair(action),
            );
        },
        HostStep::Finish(Ok(_)) => Ok(()),
        HostStep::Finish(Err(error)) => Err(error),
    };
    match auto_pair_host(PairOutcome::Finished(outcome)) {
        Ok(_) => ask_for_apps(app, create, true, host),
        Err(error) => LocalStep::Finish(Err(error)),
    }
}

/// Adds the local host and asks it for its applications.
fn add_local_host<V>(app: &mut App, create: bool, host: StorageHostAdd) -> (r: LocalStep<V>)
    requires
        has_room(old(app).storage.hosts()),
    ensures
        adds_local_host(
            create,
            host@,
            old(app).storage.hosts(),
            final(app).storage.hosts(),
            final(app).config,
            r,
        ),
        final(app).config == old(app).config,
        final(app).storage.write_pending == (old(app).storage.write_pending
            || final(app).storage.hosts() != old(app).storage.hosts()),
        r matches LocalStep::Continue(task, _) ==> task.wf() && task.steps_left() < 20,
{
    match app.add_host(&host) {
        Ok(added) => {
            proof {
                assert(is_added(
                    added,
                    host@,
                    old(app).storage.hosts(),
                    app.storage.hosts(),
                ));
            }
            ask_for_apps(app, create, false, added)
        },
        Err(error) => {
            let failed = map_add_error(error);
            let r = LocalStep::Finish(Err(failed));
            proof {
                assert(fails(r, add_failure(error)));
            }
            r
        },
    }
}

/// Begins to look at the local stream, or to make it ready.
fn start<V>(app: &App, create: bool) -> (r: LocalStep<V>)
    ensures
        starts(
            vstd::std_specs::iter::IteratorSpec::remaining(
                &vstd::std_specs::hash::spec_hash_map_iter(&app.storage.hosts),
            ),
            create,
            app.storage.hosts(),
            app.config,
            r,
        ),
        r matches LocalStep::Continue(task, _) ==> task.wf(),
{
    match ensure_local_host(app, create) {
        Ok(LocalHost::Found(host)) => {
            proof {
                assert(is_stored(host, app.storage.hosts()));
            }
            ask_for_apps(app, create, false, host)
        },
        Ok(LocalHost::Create { address, http_port }) => {
            let request = app.add_host_request(address.as_str(), http_port);
            LocalStep::Continue(
                LocalTask {
                    create,
                    state: LocalState::AddClient { address: request.address, http_port },
                },
                LocalAction::Host(HostAction::BuildClient(request.client)),
            )
        },
        Err(error) => LocalStep::Finish(Err(error)),
    }
}

/// Begins to make the local stream ready. The local host is added where it is
/// missing.
pub fn ensure_local_bootstrap<V>(app: &App) -> (r: LocalStep<V>)
    ensures
        starts(
            vstd::std_specs::iter::IteratorSpec::remaining(
                &vstd::std_specs::hash::spec_hash_map_iter(&app.storage.hosts),
            ),
            true,
            app.storage.hosts(),
            app.config,
            r,
        ),
        r matches LocalStep::Continue(task, _) ==> task.wf(),
{
    start(app, true)
}

/// Begins to look at the local stream. Nothing is added or paired.
pub fn local_status_inner<V>(app: &App) -> (r: LocalStep<V>)
    ensures
        starts(
            vstd::std_specs::iter::IteratorSpec::remaining(
                &vstd::std_specs::hash::spec_hash_map_iter(&app.storage.hosts),
            ),
            false,
            app.storage.hosts(),
            app.config,
            r,
        ),
        r matches LocalStep::Continue(task, _) ==> task.wf(),
{
    start(app, false)
}

impl<V: Copy> LocalTask<V> {
    /// Takes what the local stream waits for.
    pub fn step(self, app: &mut App, event: LocalEvent<V>) -> (r: LocalStep<V>)
        requires
            self.wf(),
            self.expects(event),
            self.state is AddInfo ==> has_room(old(app).storage.hosts()),
        ensures
            local_steps(
                self,
                old(app).storage.hosts(),
                final(app).storage.hosts(),
                final(app).config,
                event,
                r,
            ),
            final(app).config == old(app).config,
            final(app).storage.write_pending == (old(app).storage.write_pending || stores(
                self,
                old(app).storage.hosts(),
                final(app).storage.hosts(),
                event,
            )),
            r matches LocalStep::Continue(next, _) ==> next.wf() && next.create == self.create
                && next.steps_left() < self.steps_left(),
    {
        let create = self.create;
        match (self.state, event) {
            (
                LocalState::AddClient { address, http_port },
                LocalEvent::Host(HostEvent::ClientBuilt(built)),
            ) => match built {
                Ok(_) => LocalStep::Continue(
                    LocalTask { create, state: LocalState::AddInfo { http_port } },
                    LocalAction::Host(HostAction::AskInfo { encrypted: false, address }),
                ),
                Err(error) => LocalStep::Finish(Err(map_add_error(AppError::MoonlightApi(error)))),
            },
            (LocalState::AddInfo { http_port }, LocalEvent::Host(HostEvent::Info(reply))) =>
                match host_to_add("127.0.0.1".to_owned(), http_port, reply) {
                    Ok(host) => add_local_host(app, create, host),
                    Err(error) => LocalStep::Finish(Err(map_add_error(error))),
                },
            (LocalState::Apps { mut host, task, paired }, LocalEvent::Host(event)) => {
                let step = task.step(&mut host, &mut app.storage, &app.config, event);
                on_list(create, paired, host, step)
            },
            (LocalState::Pin { host }, LocalEvent::PinMade(made)) => match made {
                Ok(_) => {
                    let step = begin(HostCall::Pair, &host, &app.storage, &app.config);
                    on_pairing(app, create, host, step)
                },
                Err(reason) => match auto_pair_host(PairOutcome::PinFailed(reason)) {
                    Ok(_) => vstd::pervasive::unreached(),
                    Err(error) => LocalStep::Finish(Err(error)),
                },
            },
            (LocalState::Pairing { mut host, task }, LocalEvent::Host(event)) => {
                let step = task.step(&mut host, &mut app.storage, &app.config, event);
                on_pairing(app, create, host, step)
            },
            (LocalState::Pairing { .. }, LocalEvent::TimedOut) => match auto_pair_host(
                PairOutcome::TimedOut,
            ) {
                Ok(_) => vstd::pervasive::unreached(),
                Err(error) => LocalStep::Finish(Err(error)),
            },
            _ => vstd::pervasive::unreached(),
        }
    }
}

/// The local stream comes to an end: it takes at most twenty-one more steps after the
/// first one.
pub proof fn law_local_stream_ends<V>(
    walk: Seq<(&u32, &V2Host)>,
    create: bool,
    hosts: Map<u32, HostRecord>,
    config: Config,
    r: LocalStep<V>,
)
    requires
        starts(walk, create, hosts, config, r),
    ensures
        r matches LocalStep::Continue(task, _) ==> task.create == create && task.steps_left()
            <= 21,
{
}

/// Looking at the local stream changes nothing that is stored, and pairs with nothing.
pub proof fn law_looking_changes_nothing<V>(
    task: LocalTask<V>,
    before: Map<u32, HostRecord>,
    after: Map<u32, HostRecord>,
    config: Config,
    event: LocalEvent<V>,
    r: LocalStep<V>,
)
    requires
        !task.create,
        task.state is Apps,
        task.wf(),
        task.expects(event),
        local_steps(task, before, after, config, event, r),
    ensures
        after == before,
        r matches LocalStep::Continue(next, action) ==> !next.create && next.state is Apps
            && action is Host,
{
}

/// Looking at the local stream begins with the list of applications, or fails.
pub proof fn law_looking_begins_with_apps<V>(
    walk: Seq<(&u32, &V2Host)>,
    hosts: Map<u32, HostRecord>,
    config: Config,
    r: LocalStep<V>,
)
    requires
        starts(walk, false, hosts, config, r),
    ensures
        r matches LocalStep::Continue(task, action) ==> !task.create && task.state is Apps
            && action is Host,
{
}

/// On the way to the local stream at most one pairing is made: once a pairing was
/// good, no PIN is made again.
pub proof fn law_at_most_one_pairing<V>(
    task: LocalTask<V>,
    before: Map<u32, HostRecord>,
    after: Map<u32, HostRecord>,
    config: Config,
    event: LocalEvent<V>,
    r: LocalStep<V>,
)
    requires
        task.wf(),
        task.expects(event),
        local_steps(task, before, after, config, event, r),
    ensures
        task.state is Pairing || (task.state matches LocalState::Apps { paired, .. } && paired)
            ==> (r matches LocalStep::Continue(next, action) ==> !(action is MakePin) && (
        next.state is Pairing || (next.state matches LocalState::Apps { paired, .. } && paired))),
{
}

/// What is stored under `id` is the only local host on this port.
pub open spec fn is_only_local(hosts: Map<u32, HostRecord>, id: u32, port: u16) -> bool {
    forall|other: u32| #[trigger] is_local(hosts, other, port) <==> other == id
}

/// A local host that was added where there was none is the one that is found from then
/// on, in whatever order the store is walked, and no other one is added.
pub proof fn law_added_local_host_is_found<V>(
    host: Host<V>,
    info: HostInfo<V>,
    before: Map<u32, HostRecord>,
    after: Map<u32, HostRecord>,
    port: u16,
    walk: Seq<(&u32, &V2Host)>,
    allow_create: bool,
    r: Result<LocalHost<V>, LocalEnsureError>,
)
    requires
        forall|id: u32| !is_local(before, id, port),
        is_added(host, local_record(port, info), before, after),
        finds_local_host(walk, after, port, allow_create, r),
    ensures
        is_only_local(after, host.id.0, port),
        r matches Ok(LocalHost::Found(found)) && found.id == host.id,
{
    assert(is_local(after, host.id.0, port));
    assert forall|other: u32| #[trigger] is_local(after, other, port) implies other == host.id.0 by {
        assert(!is_local(before, other, port));
    }
}

/// Where one local host is stored, that host is the one that is asked, and none is
/// added.
pub proof fn law_only_local_host_is_asked<V>(
    walk: Seq<(&u32, &V2Host)>,
    create: bool,
    hosts: Map<u32, HostRecord>,
    config: Config,
    id: u32,
    r: LocalStep<V>,
)
    requires
        is_only_local(hosts, id, config.moonlight.default_http_port),
        starts(walk, create, hosts, config, r),
    ensures
        exists|host: Host<V>| #[trigger]
            is_stored(host, hosts) && host.id.0 == id && asks_for_apps(
                create,
                false,
                host,
                hosts,
                config,
                r,
            ),
        !(r matches LocalStep::Continue(task, _) && task.state is AddClient),
{
    assert(is_local(hosts, id, config.moonlight.default_http_port));
}

/// Looking at the local stream and making it ready ask the same host, as long as the
/// store stays as it is: the one that is found.
pub proof fn law_looking_and_making_ready_ask_the_same_host<V>(
    walk: Seq<(&u32, &V2Host)>,
    hosts: Map<u32, HostRecord>,
    config: Config,
    found: Host<V>,
    looking: LocalStep<V>,
    making_ready: LocalStep<V>,
)
    requires
        finds_local_host(
            walk,
            hosts,
            config.moonlight.default_http_port,
            false,
            Ok(LocalHost::Found(found)),
        ),
        starts(walk, false, hosts, config, looking),
        starts(walk, true, hosts, config, making_ready),
    ensures
        exists|host: Host<V>| #[trigger]
            is_stored(host, hosts) && host.id == found.id && asks_for_apps(
                false,
                false,
                host,
                hosts,
                config,
                looking,
            ),
        exists|host: Host<V>| #[trigger]
            is_stored(host, hosts) && host.id == found.id && asks_for_apps(
                true,
                false,
                host,
                hosts,
                config,
                making_ready,
            ),
{
    let port = config.moonlight.default_http_port;
    assert(is_local(hosts, found.id.0, port));
    let asked = choose|host: Host<V>| #[trigger]
        is_stored(host, hosts) && is_first_local(walk, hosts, host.id.0, port) && asks_for_apps(
            false,
            false,
            host,
            hosts,
            config,
            looking,
        );
    lemma_one_first_local(walk, hosts, found.id.0, asked.id.0, port);
    let ready = choose|host: Host<V>| #[trigger]
        is_stored(host, hosts) && is_first_local(walk, hosts, host.id.0, port) && asks_for_apps(
            true,
            false,
            host,
            hosts,
            config,
            making_ready,
        );
    lemma_one_first_local(walk, hosts, found.id.0, ready.id.0, port);
}

/// No step takes a stored host away.
pub proof fn law_stored_hosts_stay<V>(
    task: LocalTask<V>,
    before: Map<u32, HostRecord>,
    after: Map<u32, HostRecord>,
    config: Config,
    event: LocalEvent<V>,
    r: LocalStep<V>,
    id: u32,
)
    requires
        task.wf(),
        task.expects(event),
        local_steps(task, before, after, config, event, r),
        before.contains_key(id),
    ensures
        after.contains_key(id),
        after[id].address == before[id].address,
        after[id].http_port == before[id].http_port,
{
}

/// The way to the local stream ends with a failure of these parts.
pub proof fn law_failed_way_holds_the_failure<V>(r: LocalStep<V>, failure: Failure)
    requires
        fails(r, failure),
    ensures
        r matches LocalStep::Finish(Err(error)) && error.code == failure.code && error.status_text@
            == failure.status_text && error.retryable == failure.retryable && (
        error.detail matches Some(detail) ==> failure.detail == Some(detail@)) && (
        error.detail is None <==> failure.detail is None),
{
}

/// A list of applications that is answered ends the way: ready where there is one, and
/// else with the failure that there is none.
pub proof fn law_listed_apps_end_the_way<V>(
    create: bool,
    paired: bool,
    host: Host<V>,
    apps: Vec<HostApp>,
    r: LocalStep<V>,
)
    requires
        after_list(create, paired, host, HostStep::Finish(Ok(HostOutcome::Apps(apps))), r),
    ensures
        apps@.len() == 0 ==> (r matches LocalStep::Finish(Err(error)) && error.code
            == LocalFailureCode::DesktopAppNotFound && error.retryable),
        apps@.len() > 0 ==> (r matches LocalStep::Finish(Ok(bootstrap)) && bootstrap.host_id
            == host.id.0 && is_ready_bootstrap(bootstrap, host.id.0, apps@)),
{
}

/// A host that is not paired is paired once, where that is wanted. Any other error ends
/// the way with what it comes to.
pub proof fn law_unpaired_host_is_paired_where_wanted<V>(
    create: bool,
    paired: bool,
    host: Host<V>,
    error: AppError,
    r: LocalStep<V>,
)
    requires
        after_list(create, paired, host, HostStep::Finish(Err(error)), r),
    ensures
        error is HostNotPaired && create && !paired ==> (r matches LocalStep::Continue(
            task,
            LocalAction::MakePin,
        ) && task.create && task.state == (LocalState::<V>::Pin { host })),
        !(error is HostNotPaired && create && !paired) ==> (r matches LocalStep::Finish(
            Err(failed),
        ) && failed@ == backend_failure(error)),
{
}

/// A call that goes on keeps the way going: its action is the next one, as part of a
/// list or of a pairing, and its host and state are kept.
pub proof fn law_calls_keep_the_way_going<V>(
    create: bool,
    paired: bool,
    host: Host<V>,
    hosts: Map<u32, HostRecord>,
    config: Config,
    task: HostTask<V>,
    action: HostAction<V>,
    listing: LocalStep<V>,
    pairing: LocalStep<V>,
)
    requires
        after_list(create, paired, host, HostStep::Continue(task, action), listing),
        after_pairing(create, host, hosts, config, HostStep::Continue(task, action), pairing),
    ensures
        listing matches LocalStep::Continue(next, LocalAction::Host(asked)) && asked == action
            && next.create == create && next.state == (LocalState::Apps { host, task, paired }),
        pairing matches LocalStep::Continue(next, LocalAction::Pair(asked)) && asked == action
            && next.create == create && next.state == (LocalState::Pairing { host, task }),
{
}

/// After a pairing that was good, or that the host has had already, the applications are
/// asked for once more; any other error ends the way as a failed pairing.
pub proof fn law_after_a_pairing<V>(
    create: bool,
    host: Host<V>,
    hosts: Map<u32, HostRecord>,
    config: Config,
    result: Result<HostOutcome, AppError>,
    r: LocalStep<V>,
)
    requires
        after_pairing(create, host, hosts, config, HostStep::Finish(result), r),
    ensures
        result is Ok || result->Err_0 is HostPaired ==> asks_for_apps(
            create,
            true,
            host,
            hosts,
            config,
            r,
        ),
        result matches Err(error) ==> (!(error is HostPaired) ==> (r matches LocalStep::Finish(
            Err(failed),
        ) && failed.code == LocalFailureCode::PairingFailed && failed.status_text@
            == "Automatic pairing failed."@ && failed.retryable && (
        failed.detail matches Some(detail) && detail@ == error.spec_message()))),
{
    if let Err(error) = result {
        crate::local::law_pairing_judgements(PairOutcome::Finished(Err(error)));
        if let LocalStep::Finish(Err(failed)) = r {
            crate::local::law_failure_holds_the_parts(failed);
        }
    }
}

/// A stored host of which nothing was asked yet is asked first, at the address that is
/// stored of it and with its certificates where it is paired.
pub proof fn law_stored_host_is_asked_at_its_address<V>(
    create: bool,
    paired: bool,
    host: Host<V>,
    hosts: Map<u32, HostRecord>,
    config: Config,
    r: LocalStep<V>,
)
    requires
        is_stored(host, hosts),
        asks_for_apps(create, paired, host, hosts, config, r),
    ensures
        r matches LocalStep::Continue(next, LocalAction::Host(HostAction::BuildClient(client)))
            && next.create == create && (match hosts[host.id.0].pair_info {
            Some(pair_info) => client.kind == ClientKind::Certificates(pair_info),
            None => client.kind is Defaults,
        }) && client.unique_id@ == config.moonlight.pair_device_name@ && (
        next.state matches LocalState::Apps { host: kept, task, paired: was_paired } && kept == host
            && was_paired == paired && task.call is ListApps && (
        task.state matches HostState::InfoClient { route, address } && route.https_capable == (
        hosts[host.id.0].pair_info is Some) && address@ == hosts[host.id.0].address + ":"@
            + crate::text::decimal(hosts[host.id.0].http_port as nat))),
{
    let step = choose|step: HostStep<V>| #[trigger]
        begins(HostCall::ListApps, host, hosts, config, step) && after_list(
            create,
            paired,
            host,
            step,
            r,
        );
    crate::host_task::law_calls_of_an_unknown_host(HostCall::ListApps, host, hosts, config, step);
}

/// The local host is stored with the loopback address and with the port, the name and the
/// hardware address that it has told, and as not paired.
pub proof fn law_local_host_is_added_as_it_is<V>(
    host: Host<V>,
    http_port: u16,
    info: HostInfo<V>,
    before: Map<u32, HostRecord>,
    after: Map<u32, HostRecord>,
    id: u32,
)
    requires
        is_added(host, local_record(http_port, info), before, after),
    ensures
        !before.contains_key(host.id.0),
        after.contains_key(id) <==> before.contains_key(id) || id == host.id.0,
        before.contains_key(id) ==> after[id] == before[id],
        after[host.id.0].address == "127.0.0.1"@,
        after[host.id.0].http_port == http_port,
        after[host.id.0].pair_info is None,
        after[host.id.0].name == info.host_name@,
        after[host.id.0].mac == info.mac,
        host.cache_storage matches Some(read) && read.id == host.id && read@ == after[host.id.0],
        host.cache_host_info is None,
{
}

/// Where there is no local host, making the stream ready begins with a question to the
/// loopback address, and looking at it fails.
pub proof fn law_missing_local_host<V>(
    walk: Seq<(&u32, &V2Host)>,
    create: bool,
    hosts: Map<u32, HostRecord>,
    config: Config,
    r: LocalStep<V>,
)
    requires
        starts(walk, create, hosts, config, r),
        forall|id: u32|
            hosts.contains_key(id) && hosts[id].http_port == config.moonlight.default_http_port
                ==> #[trigger] hosts[id].address != "127.0.0.1"@,
    ensures
        create ==> (r matches LocalStep::Continue(
            task,
            LocalAction::Host(HostAction::BuildClient(client)),
        ) && task.create && client.kind is Defaults && client.unique_id@
            == config.moonlight.pair_device_name@ && (task.state matches LocalState::AddClient {
            address,
            http_port,
        } && http_port == config.moonlight.default_http_port && address@ == "127.0.0.1"@ + ":"@
            + crate::text::decimal(config.moonlight.default_http_port as nat))),
        !create ==> (r matches LocalStep::Finish(Err(error)) && error.code
            == LocalFailureCode::AssociationFailed && error.status_text@
            == "No local Sunshine association exists yet."@),
{
    let port = config.moonlight.default_http_port;
    assert forall|id: u32| !is_local(hosts, id, port) by {
        crate::local::law_local_is_loopback_on_the_port(hosts, id, port);
        if is_local(hosts, id, port) {
            assert(hosts[id].address == "127.0.0.1"@);
        }
    }
}

/// Before it is added the local host is asked, unencrypted, at the address that was set
/// up; a client that cannot be built is a failed association.
pub proof fn law_local_host_is_asked_before_it_is_added<V>(
    task: LocalTask<V>,
    address: String,
    http_port: u16,
    before: Map<u32, HostRecord>,
    after: Map<u32, HostRecord>,
    config: Config,
    built: Result<(), ApiError>,
    r: LocalStep<V>,
)
    requires
        task.state == (LocalState::<V>::AddClient { address, http_port }),
        local_steps(
            task,
            before,
            after,
            config,
            LocalEvent::Host(HostEvent::ClientBuilt(built)),
            r,
        ),
    ensures
        after == before,
        built is Ok ==> (r matches LocalStep::Continue(
            next,
            LocalAction::Host(HostAction::AskInfo { encrypted, address: asked }),
        ) && !encrypted && asked == address && next.create == task.create && next.state == (
        LocalState::<V>::AddInfo { http_port })),
        built matches Err(error) ==> (r matches LocalStep::Finish(Err(failed)) && failed.code
            == LocalFailureCode::AssociationFailed && (failed.detail matches Some(detail)
            && detail@ == "moonlight api error: "@ + error.spec_text())),
{
    if let LocalStep::Finish(Err(failed)) = r {
        crate::local::law_failure_holds_the_parts(failed);
    }
}

/// A local host that answers is added as it is and asked for its applications, unless no
/// identifier could be drawn; one that does not answer is not added.
pub proof fn law_answering_local_host_is_added<V>(
    task: LocalTask<V>,
    http_port: u16,
    before: Map<u32, HostRecord>,
    after: Map<u32, HostRecord>,
    config: Config,
    reply: Result<HostInfo<V>, ApiError>,
    r: LocalStep<V>,
)
    requires
        task.state == (LocalState::<V>::AddInfo { http_port }),
        local_steps(
            task,
            before,
            after,
            config,
            LocalEvent::Host(HostEvent::Info(reply)),
            r,
        ),
    ensures
        reply matches Ok(info) ==> {
            ||| exists|host: Host<V>| #[trigger]
                is_added(host, local_record(http_port, info), before, after) && asks_for_apps(
                    task.create,
                    false,
                    host,
                    after,
                    config,
                    r,
                )
            ||| after == before && (r matches LocalStep::Finish(Err(error)) && error.code
                == LocalFailureCode::AssociationFailed)
        },
        reply matches Err(error) ==> after == before && (r matches LocalStep::Finish(Err(failed))
            && failed.code == (if error matches ApiError::RequestClient(cause) && cause.connect {
            LocalFailureCode::SunshineNotReady
        } else {
            LocalFailureCode::AssociationFailed
        })),
{
    if let LocalStep::Finish(Err(failed)) = r {
        crate::local::law_failure_holds_the_parts(failed);
    }
}

/// A list and a pairing go on as their calls do, on the host of the way.
pub proof fn law_way_goes_on_with_its_calls<V>(
    task: LocalTask<V>,
    before: Map<u32, HostRecord>,
    after: Map<u32, HostRecord>,
    config: Config,
    event: HostEvent<V>,
    r: LocalStep<V>,
)
    requires
        local_steps(task, before, after, config, LocalEvent::Host(event), r),
    ensures
        task.state matches LocalState::Apps { host, task: listing, paired } ==> exists|
            now: Host<V>,
            step: HostStep<V>,
        | #[trigger]
            steps(listing, host, now, before, after, config, event, step) && after_list(
                task.create,
                paired,
                now,
                step,
                r,
            ),
        task.state matches LocalState::Pairing { host, task: pairing } ==> exists|
            now: Host<V>,
            step: HostStep<V>,
        | #[trigger]
            steps(pairing, host, now, before, after, config, event, step) && after_pairing(
                task.create,
                now,
                after,
                config,
                step,
                r,
            ),
{
}

/// Without a PIN, or when its time is over, a pairing fails and nothing is stored; only
/// the first may not pass.
pub proof fn law_pairings_need_a_pin_and_time<V>(
    task: LocalTask<V>,
    before: Map<u32, HostRecord>,
    after: Map<u32, HostRecord>,
    config: Config,
    reason: String,
    event: LocalEvent<V>,
    r: LocalStep<V>,
)
    requires
        local_steps(task, before, after, config, event, r),
        (task.state is Pin && event == LocalEvent::<V>::PinMade(Err(reason))) || (
        task.state is Pairing && event is TimedOut),
    ensures
        after == before,
        r matches LocalStep::Finish(Err(error)) && error.code == LocalFailureCode::PairingFailed
            && error.retryable == (event is TimedOut) && (event is TimedOut ==> error.status_text@
            == "Automatic pairing timed out."@ && error.detail is None) && (event is PinMade
            ==> error.status_text@ == "Failed to start pairing."@ && (
        error.detail matches Some(detail) && detail@ == reason@)),
{
    if let LocalStep::Finish(Err(error)) = r {
        crate::local::law_failure_holds_the_parts(error);
    }
    crate::local::law_pairing_judgements(PairOutcome::PinFailed(reason));
    crate::local::law_pairing_judgements(PairOutcome::TimedOut);
}

/// With a PIN the host of the way is asked to pair.
pub proof fn law_pin_begins_a_pairing<V>(
    task: LocalTask<V>,
    host: Host<V>,
    before: Map<u32, HostRecord>,
    after: Map<u32, HostRecord>,
    config: Config,
    r: LocalStep<V>,
)
    requires
        task.state == (LocalState::<V>::Pin { host }),
        local_steps(task, before, after, config, LocalEvent::PinMade(Ok(())), r),
    ensures
        after == before,
        exists|step: HostStep<V>| #[trigger]
            begins(HostCall::Pair, host, before, config, step) && after_pairing(
                task.create,
                host,
                before,
                config,
                step,
                r,
            ),
{
}

/// Something is stored in a step exactly where the hosts have changed or where a stored
/// host was asked for the last time in a pairing.
pub proof fn law_what_counts_as_stored<V>(
    task: LocalTask<V>,
    before: Map<u32, HostRecord>,
    after: Map<u32, HostRecord>,
    event: LocalEvent<V>,
)
    ensures
        after != before ==> stores(task, before, after, event),
        stores(task, before, after, event) && after == before ==> event is Host
            && task.state is Pairing,
        event is Host ==> (task.state matches LocalState::Pairing { host, task: pairing } && (
        pairing.state is Refresh && before.contains_key(host.id.0)) ==> stores(
            task,
            before,
            after,
            event,
        )),
{
}

/// Asking for the applications is the beginning of a list on that host, and goes on as
/// one.
pub proof fn law_asking_for_apps_begins_a_list<V>(
    create: bool,
    paired: bool,
    host: Host<V>,
    hosts: Map<u32, HostRecord>,
    config: Config,
    r: LocalStep<V>,
)
    requires
        asks_for_apps(create, paired, host, hosts, config, r),
    ensures
        exists|step: HostStep<V>| #[trigger]
            begins(HostCall::ListApps, host, hosts, config, step) && after_list(
                create,
                paired,
                host,
                step,
                r,
            ),
{
}

/// A host that is known is not asked about itself again on the way: its list begins with
/// the client for it.
pub proof fn law_known_host_is_listed_at_once<V>(
    create: bool,
    paired: bool,
    host: Host<V>,
    hosts: Map<u32, HostRecord>,
    config: Config,
    record: HostRecord,
    r: LocalStep<V>,
)
    requires
        asks_for_apps(create, paired, host, hosts, config, r),
        host.cache_host_info is Some,
        host.record(hosts) == Some(record),
    ensures
        r matches LocalStep::Continue(next, LocalAction::Host(HostAction::BuildClient(client)))
            && next.create == create && (match record.pair_info {
            Some(pair_info) => client.kind == ClientKind::Certificates(pair_info),
            None => client.kind is Defaults,
        }) && (next.state matches LocalState::Apps { host: kept, task, paired: was_paired } && kept
            == host && was_paired == paired && task.call is ListApps && (
        task.state matches HostState::Client { route } && route.address@ == record.address
            && route.http_port == record.http_port && route.https_capable == (
        record.pair_info is Some))),
{
}

/// A stored host is one that is there, as it was read and with nothing asked of it yet.
pub proof fn law_stored_hosts_are_there<V>(host: Host<V>, hosts: Map<u32, HostRecord>)
    ensures
        is_stored(host, hosts) <==> hosts.contains_key(host.id.0) && (
        host.cache_storage matches Some(read) && read.id == host.id && read@ == hosts[host.id.0])
            && host.cache_host_info is None,
{
}

/// The event that the way waits for is the answer to its last action.
pub proof fn law_way_waits_for_the_answer<V>(task: LocalTask<V>, event: LocalEvent<V>)
    requires
        task.expects(event),
    ensures
        event is PinMade <==> task.state is Pin,
        event is TimedOut ==> task.state is Pairing,
        task.state is AddClient ==> (event matches LocalEvent::Host(HostEvent::ClientBuilt(_))),
        task.state is AddInfo ==> (event matches LocalEvent::Host(HostEvent::Info(_))),
        task.state matches LocalState::Apps { task: listing, .. } ==> (
        event matches LocalEvent::Host(answer) && listing.expects(answer)),
{
}

} // verus!
