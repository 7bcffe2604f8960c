//! The stream of the computer that the server runs on: finding or adding the local
//! host, pairing with it and choosing the application to be streamed.
use crate::app::App;
use crate::error::AppError;
use crate::host::{App as HostApp, Host};
use crate::json_storage::{JsonStorage, V2Host};
use crate::storage::{HostRecord, Storage};
use crate::text::{chars_of, lower_of, occurs_in, same_text};
use vstd::prelude::*;

verus! {

/// Why the local stream is not available.
#[derive(Debug, Clone, Copy, PartialEq, Eq, Structural)]
pub enum LocalFailureCode {
    SunshineNotReady,
    AssociationFailed,
    PairingFailed,
    DesktopAppNotFound,
    StreamBackendUnhealthy,
}

/// Why the local stream is not available, in full.
#[derive(Debug, Clone)]
pub struct LocalEnsureError {
    pub code: LocalFailureCode,
    pub status_text: String,
    pub detail: Option<String>,
    pub retryable: bool,
}

/// What a `LocalEnsureError` holds.
pub struct Failure {
    pub code: LocalFailureCode,
    pub status_text: Seq<char>,
    pub detail: Option<Seq<char>>,
    pub retryable: bool,
}

impl View for LocalEnsureError {
    type V = Failure;

    open spec fn view(&self) -> Failure {
        Failure {
            code: self.code,
            status_text: self.status_text@,
            detail: match self.detail {
                Some(detail) => Some(detail@),
                None => None,
            },
            retryable: self.retryable,
        }
    }
}

impl LocalEnsureError {
    /// A failure with its parts.
    pub fn new(
        code: LocalFailureCode,
        status_text: &str,
        detail: Option<String>,
        retryable: bool,
    ) -> (r: Self)
        ensures
            r.code == code,
            r.status_text@ == status_text@,
            r.detail == detail,
            r.retryable == retryable,
    {
        LocalEnsureError { code, status_text: status_text.to_owned(), detail, retryable }
    }
}

/// The local stream, ready to be started.
#[derive(Debug, Clone)]
pub struct LocalBootstrap {
    pub host_id: u32,
    pub app_id: u32,
    pub status_text: String,
    pub can_take_over: bool,
    pub observe_mode_default: bool,
}

/// The state of the local stream.
#[derive(Debug, Clone)]
pub struct LocalStatus {
    pub ready: bool,
    pub host_id: Option<u32>,
    pub app_id: Option<u32>,
    pub status_text: String,
    pub can_take_over: bool,
    pub observe_mode_default: bool,
    pub failure: Option<LocalFailureCode>,
}

/// The failure that has an error of the server for its cause.
pub open spec fn caused_by(
    code: LocalFailureCode,
    status_text: Seq<char>,
    error: AppError,
) -> Failure {
    Failure { code, status_text, detail: Some(error.spec_message()), retryable: true }
}

/// The failure that comes of an error in the exchange with the local host.
pub open spec fn backend_failure(error: AppError) -> Failure {
    match error {
        AppError::HostNotFound | AppError::HostOffline => caused_by(
            LocalFailureCode::SunshineNotReady,
            "Sunshine is not ready yet."@,
            error,
        ),
        AppError::HostNotPaired => caused_by(
            LocalFailureCode::PairingFailed,
            "Sunshine host is not paired yet."@,
            error,
        ),
        AppError::HostPaired => caused_by(
            LocalFailureCode::PairingFailed,
            "Sunshine host pairing is in an invalid state."@,
            error,
        ),
        AppError::MoonlightApi(_) | AppError::Forbidden => caused_by(
            LocalFailureCode::StreamBackendUnhealthy,
            "Stream backend is unhealthy."@,
            error,
        ),
        _ => caused_by(
            LocalFailureCode::AssociationFailed,
            "Local stream association failed."@,
            error,
        ),
    }
}

/// The failure that comes of an error while the local host is added.
pub open spec fn add_failure(error: AppError) -> Failure {
    match error {
        AppError::HostNotFound | AppError::HostOffline => caused_by(
            LocalFailureCode::SunshineNotReady,
            "Sunshine is not ready yet."@,
            error,
        ),
        _ => caused_by(
            LocalFailureCode::AssociationFailed,
            "Failed to create local Sunshine association."@,
            error,
        ),
    }
}

/// The failure that comes of an error while the hosts are listed.
pub open spec fn list_failure(error: AppError) -> Failure {
    caused_by(
        LocalFailureCode::AssociationFailed,
        "Failed to inspect local stream associations."@,
        error,
    )
}

/// The host offers nothing to be streamed.
pub open spec fn no_app_failure() -> Failure {
    Failure {
        code: LocalFailureCode::DesktopAppNotFound,
        status_text: "No launchable desktop app is available yet."@,
        detail: None,
        retryable: true,
    }
}

/// The local host was never added.
pub open spec fn no_association_failure() -> Failure {
    Failure {
        code: LocalFailureCode::AssociationFailed,
        status_text: "No local Sunshine association exists yet."@,
        detail: None,
        retryable: true,
    }
}

/// Maps an error in the exchange with the local host.
pub fn map_backend_error(error: AppError) -> (r: LocalEnsureError)
    ensures
        r@ == backend_failure(error),
{
    let detail = Some(error.message());
    match error {
        AppError::HostNotFound | AppError::HostOffline => LocalEnsureError::new(
            LocalFailureCode::SunshineNotReady,
            "Sunshine is not ready yet.",
            detail,
            true,
        ),
        AppError::HostNotPaired => LocalEnsureError::new(
            LocalFailureCode::PairingFailed,
            "Sunshine host is not paired yet.",
            detail,
            true,
        ),
        AppError::HostPaired => LocalEnsureError::new(
            LocalFailureCode::PairingFailed,
            "Sunshine host pairing is in an invalid state.",
            detail,
            true,
        ),
        AppError::MoonlightApi(_) | AppError::Forbidden => LocalEnsureError::new(
            LocalFailureCode::StreamBackendUnhealthy,
            "Stream backend is unhealthy.",
            detail,
            true,
        ),
        _ => LocalEnsureError::new(
            LocalFailureCode::AssociationFailed,
            "Local stream association failed.",
            detail,
            true,
        ),
    }
}

/// Maps an error while the local host is added.
pub fn map_add_error(error: AppError) -> (r: LocalEnsureError)
    ensures
        r@ == add_failure(error),
{
    let detail = Some(error.message());
    match error {
        AppError::HostNotFound | AppError::HostOffline => LocalEnsureError::new(
            LocalFailureCode::SunshineNotReady,
            "Sunshine is not ready yet.",
            detail,
            true,
        ),
        _ => LocalEnsureError::new(
            LocalFailureCode::AssociationFailed,
            "Failed to create local Sunshine association.",
            detail,
            true,
        ),
    }
}

/// Maps an error while the hosts are listed.
pub fn map_list_error(error: AppError) -> (r: LocalEnsureError)
    ensures
        r@ == list_failure(error),
{
    LocalEnsureError::new(
        LocalFailureCode::AssociationFailed,
        "Failed to inspect local stream associations.",
        Some(error.message()),
        true,
    )
}

/// The title of the application names a desktop, in whatever case.
pub open spec fn is_desktop(app: HostApp) -> bool {
    crate::text::occurs(crate::text::lower(app.title@), "desktop"@)
}

/// Position `i` holds the application to be streamed: the first desktop, or the
/// first application where there is no desktop.
pub open spec fn is_pick(apps: Seq<HostApp>, i: int) -> bool {
    &&& 0 <= i < apps.len()
    &&& is_desktop(apps[i]) ==> forall|j: int| 0 <= j < i ==> !is_desktop(#[trigger] apps[j])
    &&& !is_desktop(apps[i]) ==> i == 0 && forall|j: int|
        0 <= j < apps.len() ==> !is_desktop(#[trigger] apps[j])
}

/// Chooses the application to be streamed.
pub fn pick_desktop_app(apps: &[HostApp]) -> (r: Option<&HostApp>)
    ensures
        match r {
            Some(app) => exists|i: int| #[trigger] is_pick(apps@, i) && *app == apps@[i],
            None => apps@.len() == 0,
        },
{
    let needle = chars_of("desktop");
    for i in 0..apps.len()
        invariant
            needle@ == "desktop"@,
            forall|j: int| 0 <= j < i ==> !is_desktop(#[trigger] apps@[j]),
    {
        let title = lower_of(apps[i].title.as_str());
        if occurs_in(&title, &needle) {
            proof {
                assert(is_pick(apps@, i as int));
            }
            return Some(&apps[i]);
        }
    }
    if apps.len() == 0 {
        None
    } else {
        proof {
            assert(is_pick(apps@, 0));
        }
        Some(&apps[0])
    }
}

/// The address of the local host.
pub open spec fn local_address() -> Seq<char> {
    "127.0.0.1"@
}

/// What is stored under `id` is the local host on this port.
pub open spec fn is_local(hosts: Map<u32, HostRecord>, id: u32, port: u16) -> bool {
    hosts.contains_key(id) && hosts[id].address == local_address() && hosts[id].http_port == port
}

/// Finds the first host of `hosts` that is stored with the local address and this
/// port. A host that is not stored is passed over.
pub fn find_local_host<V>(hosts: &Vec<Host<V>>, storage: &JsonStorage, port: u16) -> (r: Option<
    usize,
>)
    ensures
        match r {
            Some(i) => i < hosts@.len() && is_local(storage.hosts(), hosts@[i as int].id.0, port)
                && forall|j: int|
                0 <= j < i ==> !is_local(storage.hosts(), (#[trigger] hosts@[j]).id.0, port),
            None => forall|j: int|
                0 <= j < hosts@.len() ==> !is_local(
                    storage.hosts(),
                    (#[trigger] hosts@[j]).id.0,
                    port,
                ),
        },
{
    for i in 0..hosts.len()
        invariant
            forall|j: int|
                0 <= j < i ==> !is_local(storage.hosts(), (#[trigger] hosts@[j]).id.0, port),
    {
        match hosts[i].address_port(storage) {
            Ok((address, http_port)) => {
                if same_text(address.as_str(), "127.0.0.1") && http_port == port {
                    return Some(i);
                }
            },
            Err(_) => {},
        }
    }
    None
}

/// How the local host is come by.
pub enum LocalHost<V> {
    /// It is stored.
    Found(Host<V>),
    /// It has to be added.
    Create { address: String, http_port: u16 },
}

/// `id` is that of the first local host in a walk through the written hosts.
pub open spec fn is_first_local(
    walk: Seq<(&u32, &V2Host)>,
    hosts: Map<u32, HostRecord>,
    id: u32,
    port: u16,
) -> bool {
    exists|i: int|
        0 <= i < walk.len() && *(#[trigger] walk[i]).0 == id && is_local(hosts, id, port)
            && forall|j: int| 0 <= j < i ==> !is_local(hosts, *(#[trigger] walk[j]).0, port)
}

/// `r` is how the local host is come by where `hosts` are stored and are walked through
/// in the order of `walk`.
pub open spec fn finds_local_host<V>(
    walk: Seq<(&u32, &V2Host)>,
    hosts: Map<u32, HostRecord>,
    port: u16,
    allow_create: bool,
    r: Result<LocalHost<V>, LocalEnsureError>,
) -> bool {
    match r {
        Ok(LocalHost::Found(host)) => {
            &&& is_local(hosts, host.id.0, port)
            &&& is_first_local(walk, hosts, host.id.0, port)
            &&& host.cache_storage is Some
            &&& host.cache_storage->0.id == host.id
            &&& host.cache_storage->0@ == hosts[host.id.0]
            &&& host.cache_host_info is None
        },
        Ok(LocalHost::Create { address, http_port }) => {
            &&& forall|id: u32| !is_local(hosts, id, port)
            &&& allow_create
            &&& address@ == local_address()
            &&& http_port == port
        },
        Err(error) => {
            &&& forall|id: u32| !is_local(hosts, id, port)
            &&& !allow_create
            &&& error@ == no_association_failure()
        },
    }
}

/// Finds the local host, or says how to add it where that is allowed. Of several
/// local hosts it is the first in the order in which the store is walked.
pub fn ensure_local_host<V>(app: &App, allow_create: bool) -> (r: Result<
    LocalHost<V>,
    LocalEnsureError,
>)
    ensures
        finds_local_host(
            vstd::std_specs::iter::IteratorSpec::remaining(
                &vstd::std_specs::hash::spec_hash_map_iter(&app.storage.hosts),
            ),
            app.storage.hosts(),
            app.config.moonlight.default_http_port,
            allow_create,
            r,
        ),
{
    let default_http_port = app.config().moonlight.default_http_port;
    let mut hosts: Vec<Host<V>> = match app.list_hosts() {
        Ok(hosts) => hosts,
        Err(error) => {
            return Err(map_list_error(error));
        },
    };
    match find_local_host(&hosts, &app.storage, default_http_port) {
        Some(i) => {
            proof {
                let walk = vstd::std_specs::iter::IteratorSpec::remaining(
                    &vstd::std_specs::hash::spec_hash_map_iter(&app.storage.hosts),
                );
                let ids = hosts@.map_values(|host: Host<V>| host.id);
                assert forall|j: int| 0 <= j < walk.len() implies *(#[trigger] walk[j]).0
                    == hosts@[j].id.0 by {
                    assert(ids[j] == hosts@[j].id);
                }
                assert(*walk[i as int].0 == hosts@[i as int].id.0);
                assert(is_first_local(
                    walk,
                    app.storage.hosts(),
                    hosts@[i as int].id.0,
                    default_http_port,
                ));
            }
            let host = hosts.swap_remove(i);
            return Ok(LocalHost::Found(host));
        },
        None => {},
    }
    proof {
        assert forall|id: u32| !is_local(app.storage.hosts(), id, default_http_port) by {
            if app.storage.hosts().contains_key(id) {
                let i = choose|i: int| 0 <= i < hosts@.len() && (#[trigger] hosts@[i]).id.0 == id;
                assert(!is_local(app.storage.hosts(), hosts@[i].id.0, default_http_port));
            }
        }
    }
    if !allow_create {
        return Err(
            LocalEnsureError::new(
                LocalFailureCode::AssociationFailed,
                "No local Sunshine association exists yet.",
                None,
                true,
            ),
        );
    }
    Ok(LocalHost::Create { address: "127.0.0.1".to_owned(), http_port: default_http_port })
}

/// The state of the local stream is that it is not available.
pub open spec fn is_failed_status(status: LocalStatus, failure: Failure) -> bool {
    &&& !status.ready
    &&& status.host_id is None
    &&& status.app_id is None
    &&& status.status_text@ == failure.status_text
    &&& status.can_take_over
    &&& status.observe_mode_default
    &&& status.failure == Some(failure.code)
}

/// The state of the local stream is that it can be started.
pub open spec fn is_ready_status(status: LocalStatus, bootstrap: LocalBootstrap) -> bool {
    &&& status.ready
    &&& status.host_id == Some(bootstrap.host_id)
    &&& status.app_id == Some(bootstrap.app_id)
    &&& status.status_text == bootstrap.status_text
    &&& status.can_take_over == bootstrap.can_take_over
    &&& status.observe_mode_default == bootstrap.observe_mode_default
    &&& status.failure is None
}

/// The state of the local stream that is reported: a failure is a state too.
pub fn get_local_status(outcome: Result<LocalBootstrap, LocalEnsureError>) -> (r: LocalStatus)
    ensures
        match outcome {
            Ok(bootstrap) => is_ready_status(r, bootstrap),
            Err(error) => is_failed_status(r, error@),
        },
{
    match outcome {
        Ok(bootstrap) => LocalStatus {
            ready: true,
            host_id: Some(bootstrap.host_id),
            app_id: Some(bootstrap.app_id),
            status_text: bootstrap.status_text,
            can_take_over: bootstrap.can_take_over,
            observe_mode_default: bootstrap.observe_mode_default,
            failure: None,
        },
        Err(error) => LocalStatus {
            ready: false,
            host_id: None,
            app_id: None,
            status_text: error.status_text,
            can_take_over: true,
            observe_mode_default: true,
            failure: Some(error.code),
        },
    }
}

/// The local stream is ready to be started from `host_id`, which offers `apps`.
pub open spec fn is_ready_bootstrap(
    bootstrap: LocalBootstrap,
    host_id: u32,
    apps: Seq<HostApp>,
) -> bool {
    &&& bootstrap.host_id == host_id
    &&& exists|i: int| #[trigger] is_pick(apps, i) && bootstrap.app_id == apps[i].id.0
    &&& bootstrap.status_text@ == "Computer stream is ready."@
    &&& bootstrap.can_take_over
    &&& bootstrap.observe_mode_default
}

/// Makes the local stream ready with one of the applications of its host.
pub fn bootstrap_with(host_id: u32, apps: &[HostApp]) -> (r: Result<LocalBootstrap, LocalEnsureError>)
    ensures
        if apps@.len() == 0 {
            r is Err && r->Err_0@ == no_app_failure()
        } else {
            r is Ok && is_ready_bootstrap(r->Ok_0, host_id, apps@)
        },
{
    match pick_desktop_app(apps) {
        Some(app) => Ok(
            LocalBootstrap {
                host_id,
                app_id: app.id.0,
                status_text: "Computer stream is ready.".to_owned(),
                can_take_over: true,
                observe_mode_default: true,
            },
        ),
        None => Err(
            LocalEnsureError::new(
                LocalFailureCode::DesktopAppNotFound,
                "No launchable desktop app is available yet.",
                None,
                true,
            ),
        ),
    }
}

/// How an automatic pairing ended.
pub enum PairOutcome {
    /// No PIN could be made; with the reason.
    PinFailed(String),
    /// The host was asked to pair, and answered.
    Finished(Result<(), AppError>),
    /// The host did not answer in time.
    TimedOut,
}

impl PairOutcome {
    /// Why the host is not paired; `None` where it is.
    pub open spec fn failure(self) -> Option<Failure> {
        match self {
            PairOutcome::PinFailed(reason) => Some(
                Failure {
                    code: LocalFailureCode::PairingFailed,
                    status_text: "Failed to start pairing."@,
                    detail: Some(reason@),
                    retryable: false,
                },
            ),
            PairOutcome::Finished(Ok(_)) => None,
            PairOutcome::Finished(Err(AppError::HostPaired)) => None,
            PairOutcome::Finished(Err(error)) => Some(
                caused_by(LocalFailureCode::PairingFailed, "Automatic pairing failed."@, error),
            ),
            PairOutcome::TimedOut => Some(
                Failure {
                    code: LocalFailureCode::PairingFailed,
                    status_text: "Automatic pairing timed out."@,
                    detail: None,
                    retryable: true,
                },
            ),
        }
    }
}

/// Judges an automatic pairing. A host that is paired already is as good as one that
/// was just paired.
pub fn auto_pair_host(outcome: PairOutcome) -> (r: Result<(), LocalEnsureError>)
    ensures
        match r {
            Ok(_) => outcome.failure() is None,
            Err(error) => outcome.failure() == Some(error@),
        },
{
    match outcome {
        PairOutcome::PinFailed(reason) => Err(
            LocalEnsureError::new(
                LocalFailureCode::PairingFailed,
                "Failed to start pairing.",
                Some(reason),
                false,
            ),
        ),
        PairOutcome::Finished(Ok(_)) => Ok(()),
        PairOutcome::Finished(Err(AppError::HostPaired)) => Ok(()),
        PairOutcome::Finished(Err(error)) => Err(
            LocalEnsureError::new(
                LocalFailureCode::PairingFailed,
                "Automatic pairing failed.",
                Some(error.message()),
                true,
            ),
        ),
        PairOutcome::TimedOut => Err(
            LocalEnsureError::new(
                LocalFailureCode::PairingFailed,
                "Automatic pairing timed out.",
                None,
                true,
            ),
        ),
    }
}

/// Of a list of applications at most one is streamed, and one is wherever the list is
/// not empty.
pub proof fn law_one_app_is_picked(apps: Seq<HostApp>, i: int, j: int)
    ensures
        is_pick(apps, i) && is_pick(apps, j) ==> i == j,
        apps.len() > 0 ==> exists|k: int| #[trigger] is_pick(apps, k),
{
    if apps.len() > 0 {
        if exists|k: int| 0 <= k < apps.len() && is_desktop(#[trigger] apps[k]) {
            let k = choose|k: int| 0 <= k < apps.len() && is_desktop(#[trigger] apps[k]);
            lemma_first_desktop(apps, k);
        } else {
            assert(is_pick(apps, 0));
        }
    }
}

/// Among the applications up to a desktop there is a first desktop.
proof fn lemma_first_desktop(apps: Seq<HostApp>, k: int)
    requires
        0 <= k < apps.len(),
        is_desktop(apps[k]),
    ensures
        exists|i: int| #[trigger] is_pick(apps, i),
    decreases k,
{
    if exists|j: int| 0 <= j < k && is_desktop(#[trigger] apps[j]) {
        let j = choose|j: int| 0 <= j < k && is_desktop(#[trigger] apps[j]);
        lemma_first_desktop(apps, j);
    } else {
        assert(is_pick(apps, k));
    }
}

/// A desktop is streamed wherever there is one.
pub proof fn law_desktop_comes_first(apps: Seq<HostApp>, picked: int, i: int)
    requires
        is_pick(apps, picked),
        0 <= i < apps.len(),
        is_desktop(apps[i]),
    ensures
        is_desktop(apps[picked]),
        picked <= i,
{
}

/// Every failure of the local stream may pass, but for the one that no PIN could be
/// made.
pub proof fn law_failures_may_pass(error: AppError, outcome: PairOutcome)
    ensures
        backend_failure(error).retryable,
        add_failure(error).retryable,
        list_failure(error).retryable,
        no_app_failure().retryable,
        no_association_failure().retryable,
        outcome.failure() matches Some(failure) ==> (failure.retryable <==> !(
        outcome is PinFailed)),
{
}

/// The same host with the same applications is the same stream, however often it is
/// looked at or made ready.
pub proof fn law_same_apps_give_the_same_stream(
    a: LocalBootstrap,
    b: LocalBootstrap,
    status: LocalStatus,
    host_id: u32,
    apps: Seq<HostApp>,
)
    requires
        is_ready_bootstrap(a, host_id, apps),
        is_ready_bootstrap(b, host_id, apps),
        is_ready_status(status, a),
    ensures
        a.app_id == b.app_id,
        status.host_id == Some(b.host_id),
        status.app_id == Some(b.app_id),
{
    let i = choose|i: int| #[trigger] is_pick(apps, i) && a.app_id == apps[i].id.0;
    let j = choose|j: int| #[trigger] is_pick(apps, j) && b.app_id == apps[j].id.0;
    law_one_app_is_picked(apps, i, j);
}

/// Finding the local host again gives the same host, whether or not one may be added:
/// where nothing else has changed the store, repeated attempts never add a second one.
pub proof fn law_local_host_is_found_again<V>(
    walk: Seq<(&u32, &V2Host)>,
    hosts: Map<u32, HostRecord>,
    port: u16,
    allowed_first: bool,
    allowed_again: bool,
    found: Host<V>,
    r: Result<LocalHost<V>, LocalEnsureError>,
)
    requires
        finds_local_host(walk, hosts, port, allowed_first, Ok(LocalHost::Found(found))),
        finds_local_host(walk, hosts, port, allowed_again, r),
    ensures
        r matches Ok(LocalHost::Found(again)) && again.id == found.id && again.cache_storage->0@
            == found.cache_storage->0@,
{
    assert(is_local(hosts, found.id.0, port));
    if let Ok(LocalHost::Found(again)) = r {
        lemma_one_first_local(walk, hosts, found.id.0, again.id.0, port);
    }
}

/// There is one first local host in a walk.
pub proof fn lemma_one_first_local(
    walk: Seq<(&u32, &V2Host)>,
    hosts: Map<u32, HostRecord>,
    a: u32,
    b: u32,
    port: u16,
)
    requires
        is_first_local(walk, hosts, a, port),
        is_first_local(walk, hosts, b, port),
    ensures
        a == b,
{
    let i = choose|i: int|
        0 <= i < walk.len() && *(#[trigger] walk[i]).0 == a && is_local(hosts, a, port)
            && forall|j: int| 0 <= j < i ==> !is_local(hosts, *(#[trigger] walk[j]).0, port);
    let k = choose|i: int|
        0 <= i < walk.len() && *(#[trigger] walk[i]).0 == b && is_local(hosts, b, port)
            && forall|j: int| 0 <= j < i ==> !is_local(hosts, *(#[trigger] walk[j]).0, port);
    assert(i == k);
}

/// A title names a desktop exactly where the seven letters of the word stand in it one
/// after the other, each in either case.
pub proof fn law_desktop_is_spelled_in_the_title(app: HostApp)
    ensures
        is_desktop(app) <==> exists|a: Seq<char>, w: Seq<char>, b: Seq<char>|
            app.title@ == #[trigger] (a + w + b) && w.len() == 7 && forall|m: int|
                0 <= m < 7 ==> #[trigger] w[m] == "desktop"@[m] || w[m] == "DESKTOP"@[m],
{
    let title = app.title@;
    let word = "desktop"@;
    reveal_strlit("desktop");
    reveal_strlit("DESKTOP");
    crate::text::law_occurring_text_splits_the_other(crate::text::lower(title), word);
    if is_desktop(app) {
        let (x, y) = choose|x: Seq<char>, y: Seq<char>|
            crate::text::lower(title) == #[trigger] (x + word + y);
        let i = x.len() as int;
        let (a, w, b) = (title.take(i), title.subrange(i, i + 7), title.skip(i + 7));
        assert(title =~= a + w + b);
        assert forall|m: int| 0 <= m < 7 implies #[trigger] w[m] == "desktop"@[m] || w[m]
            == "DESKTOP"@[m] by {
            crate::text::law_folding_changes_capitals_only(title, i + m);
            assert((x + word + y)[i + m] == word[m]);
        }
    }
    if exists|a: Seq<char>, w: Seq<char>, b: Seq<char>|
        title == #[trigger] (a + w + b) && w.len() == 7 && forall|m: int|
            0 <= m < 7 ==> #[trigger] w[m] == "desktop"@[m] || w[m] == "DESKTOP"@[m] {
        let (a, w, b) = choose|a: Seq<char>, w: Seq<char>, b: Seq<char>|
            title == #[trigger] (a + w + b) && w.len() == 7 && forall|m: int|
                0 <= m < 7 ==> #[trigger] w[m] == "desktop"@[m] || w[m] == "DESKTOP"@[m];
        let (x, y) = (crate::text::lower(a), crate::text::lower(b));
        assert(crate::text::lower(w) =~= word);
        assert(crate::text::lower(title) =~= x + word + y);
    }
}

/// Which application is streamed is a matter of the titles alone: lists with the same
/// titles in the same order have it at the same place.
pub proof fn law_titles_decide_what_is_streamed(
    a: Seq<HostApp>,
    b: Seq<HostApp>,
    i: int,
    j: int,
)
    requires
        a.len() == b.len(),
        forall|k: int| 0 <= k < a.len() ==> (#[trigger] a[k]).title@ == b[k].title@,
        is_pick(a, i),
        is_pick(b, j),
    ensures
        i == j,
{
    assert forall|k: int| 0 <= k < a.len() implies is_desktop(#[trigger] a[k]) == is_desktop(
        b[k],
    ) by {}
    assert(is_desktop(a[i]) == is_desktop(b[i]));
    assert(is_desktop(a[j]) == is_desktop(b[j]));
}

/// Where a title spells the word for a desktop, in whatever case, the title of what is
/// streamed does so too, and stands no later in the list.
pub proof fn law_spelled_desktop_is_streamed(
    apps: Seq<HostApp>,
    picked: int,
    k: int,
    a: Seq<char>,
    w: Seq<char>,
    b: Seq<char>,
)
    requires
        is_pick(apps, picked),
        0 <= k < apps.len(),
        apps[k].title@ == a + w + b,
        w.len() == 7,
        forall|m: int| 0 <= m < 7 ==> #[trigger] w[m] == "desktop"@[m] || w[m] == "DESKTOP"@[m],
    ensures
        0 <= picked <= k,
        exists|x: Seq<char>, v: Seq<char>, y: Seq<char>|
            apps[picked].title@ == #[trigger] (x + v + y) && v.len() == 7 && forall|m: int|
                0 <= m < 7 ==> #[trigger] v[m] == "desktop"@[m] || v[m] == "DESKTOP"@[m],
{
    law_desktop_is_spelled_in_the_title(apps[k]);
    law_desktop_is_spelled_in_the_title(apps[picked]);
}

/// Where no title spells that word the first application is streamed.
pub proof fn law_first_app_is_streamed_without_a_desktop(apps: Seq<HostApp>, picked: int)
    requires
        is_pick(apps, picked),
        forall|k: int, a: Seq<char>, w: Seq<char>, b: Seq<char>|
            0 <= k < apps.len() && w.len() == 7 && (forall|m: int|
                0 <= m < 7 ==> #[trigger] w[m] == "desktop"@[m] || w[m] == "DESKTOP"@[m])
                ==> #[trigger] apps[k].title@ != #[trigger] (a + w + b),
    ensures
        picked == 0,
        apps.len() > 0,
{
    law_desktop_is_spelled_in_the_title(apps[picked]);
}

/// What an error in the exchange with the local host comes to is a matter of its kind;
/// its own text is the detail, and it may pass.
pub proof fn law_backend_failures(error: AppError)
    ensures
        ({
            let failure = backend_failure(error);
            &&& failure.detail == Some(error.spec_message())
            &&& failure.retryable
            &&& error is HostNotFound || error is HostOffline <==> failure.code
                == LocalFailureCode::SunshineNotReady
            &&& error is HostNotPaired || error is HostPaired <==> failure.code
                == LocalFailureCode::PairingFailed
            &&& error is MoonlightApi || error is Forbidden <==> failure.code
                == LocalFailureCode::StreamBackendUnhealthy
            &&& failure.code != LocalFailureCode::DesktopAppNotFound
            &&& failure.code == LocalFailureCode::SunshineNotReady ==> failure.status_text
                == "Sunshine is not ready yet."@
            &&& error is HostNotPaired ==> failure.status_text
                == "Sunshine host is not paired yet."@
            &&& error is HostPaired ==> failure.status_text
                == "Sunshine host pairing is in an invalid state."@
            &&& failure.code == LocalFailureCode::StreamBackendUnhealthy ==> failure.status_text
                == "Stream backend is unhealthy."@
            &&& failure.code == LocalFailureCode::AssociationFailed ==> failure.status_text
                == "Local stream association failed."@
        }),
{
}

/// A local host that cannot be added is not ready where it could not be reached; any
/// other error is a failed association.
pub proof fn law_add_and_list_failures(error: AppError)
    ensures
        ({
            let failure = add_failure(error);
            &&& failure.detail == Some(error.spec_message())
            &&& failure.retryable
            &&& if error is HostNotFound || error is HostOffline {
                failure.code == LocalFailureCode::SunshineNotReady && failure.status_text
                    == "Sunshine is not ready yet."@
            } else {
                failure.code == LocalFailureCode::AssociationFailed && failure.status_text
                    == "Failed to create local Sunshine association."@
            }
        }),
        ({
            let failure = list_failure(error);
            &&& failure.detail == Some(error.spec_message())
            &&& failure.retryable
            &&& failure.code == LocalFailureCode::AssociationFailed
            &&& failure.status_text == "Failed to inspect local stream associations."@
        }),
{
}

/// The failures that have no error for their cause.
pub proof fn law_failures_without_a_cause()
    ensures
        no_app_failure().code == LocalFailureCode::DesktopAppNotFound,
        no_app_failure().status_text == "No launchable desktop app is available yet."@,
        no_app_failure().detail is None && no_app_failure().retryable,
        no_association_failure().code == LocalFailureCode::AssociationFailed,
        no_association_failure().status_text == "No local Sunshine association exists yet."@,
        no_association_failure().detail is None && no_association_failure().retryable,
{
}

/// A pairing is good where the host has paired or was paired before, and in no other
/// way. Each way to fail has its own text.
pub proof fn law_pairing_judgements(outcome: PairOutcome)
    ensures
        outcome.failure() is None <==> match outcome {
            PairOutcome::PinFailed(_) => false,
            PairOutcome::Finished(Ok(_)) => true,
            PairOutcome::Finished(Err(error)) => error is HostPaired,
            PairOutcome::TimedOut => false,
        },
        outcome.failure() matches Some(failure) ==> {
            &&& failure.code == LocalFailureCode::PairingFailed
            &&& outcome matches PairOutcome::PinFailed(reason) ==> failure.status_text
                == "Failed to start pairing."@ && failure.detail == Some(reason@)
                && !failure.retryable
            &&& outcome matches PairOutcome::Finished(Err(error)) ==> failure.status_text
                == "Automatic pairing failed."@ && failure.detail == Some(error.spec_message())
                && failure.retryable
            &&& outcome is TimedOut ==> failure.status_text == "Automatic pairing timed out."@
                && failure.detail is None && failure.retryable
        },
{
}

/// A failure holds the parts of its error.
pub proof fn law_failure_holds_the_parts(error: LocalEnsureError)
    ensures
        error@.code == error.code,
        error@.status_text == error.status_text@,
        error@.retryable == error.retryable,
        error@.detail is Some <==> error.detail is Some,
        error.detail matches Some(detail) ==> error@.detail == Some(detail@),
{
}

/// A stored host is the local one exactly where it is stored with the loopback address
/// and with this port.
pub proof fn law_local_is_loopback_on_the_port(
    hosts: Map<u32, HostRecord>,
    id: u32,
    port: u16,
)
    ensures
        is_local(hosts, id, port) <==> hosts.contains_key(id) && hosts[id].address
            == "127.0.0.1"@ && hosts[id].http_port == port,
{
}

/// Whoever looks for the local host finds a stored one with the loopback address and
/// this port, as it is stored and with nothing asked of it yet. Where there is none
/// the result is to add it, where that is allowed, or that there is none.
pub proof fn law_search_for_the_local_host<V>(
    walk: Seq<(&u32, &V2Host)>,
    hosts: Map<u32, HostRecord>,
    port: u16,
    allow_create: bool,
    r: Result<LocalHost<V>, LocalEnsureError>,
    id: u32,
)
    requires
        finds_local_host(walk, hosts, port, allow_create, r),
    ensures
        r matches Ok(LocalHost::Found(host)) ==> {
            &&& hosts.contains_key(host.id.0)
            &&& hosts[host.id.0].address == "127.0.0.1"@
            &&& hosts[host.id.0].http_port == port
            &&& host.cache_storage is Some
            &&& host.cache_storage->0.id == host.id
            &&& host.cache_storage->0@ == hosts[host.id.0]
            &&& host.cache_host_info is None
        },
        hosts.contains_key(id) && hosts[id].address == "127.0.0.1"@ && hosts[id].http_port == port
            ==> (r matches Ok(LocalHost::Found(_))),
        r matches Ok(LocalHost::Create { address, http_port }) ==> allow_create && address@
            == "127.0.0.1"@ && http_port == port,
        r matches Err(error) ==> !allow_create && error.code == LocalFailureCode::AssociationFailed
            && error.status_text@ == "No local Sunshine association exists yet."@
            && error.detail is None && error.retryable,
{
    law_local_is_loopback_on_the_port(hosts, id, port);
    assert(is_local(hosts, id, port) || !is_local(hosts, id, port));
    if let Err(error) = r {
        law_failure_holds_the_parts(error);
    }
}

/// Of several local hosts none stands before the one that is found.
pub proof fn law_no_local_host_stands_before_the_found_one<V>(
    walk: Seq<(&u32, &V2Host)>,
    hosts: Map<u32, HostRecord>,
    port: u16,
    allow_create: bool,
    found: Host<V>,
    i: int,
)
    requires
        finds_local_host(walk, hosts, port, allow_create, Ok(LocalHost::Found(found))),
        0 <= i < walk.len(),
        hosts.contains_key(*walk[i].0),
        hosts[*walk[i].0].address == "127.0.0.1"@,
        hosts[*walk[i].0].http_port == port,
    ensures
        exists|k: int| 0 <= k <= i && *(#[trigger] walk[k]).0 == found.id.0,
{
    assert(is_local(hosts, *walk[i].0, port));
}

/// A stream that is not available is reported with the text and the code of the
/// failure, and with neither a host nor an application.
pub proof fn law_failed_status_names_the_failure(status: LocalStatus, failure: Failure)
    requires
        is_failed_status(status, failure),
    ensures
        !status.ready,
        status.host_id is None,
        status.app_id is None,
        status.status_text@ == failure.status_text,
        status.failure == Some(failure.code),
        status.can_take_over && status.observe_mode_default,
{
}

/// A stream that is ready is reported with its host and with one of the applications
/// that the host offers.
pub proof fn law_ready_status_names_the_stream(
    status: LocalStatus,
    bootstrap: LocalBootstrap,
    host_id: u32,
    apps: Seq<HostApp>,
)
    requires
        is_ready_bootstrap(bootstrap, host_id, apps),
        is_ready_status(status, bootstrap),
    ensures
        bootstrap.host_id == host_id,
        exists|i: int| 0 <= i < apps.len() && (#[trigger] apps[i]).id.0 == bootstrap.app_id,
        bootstrap.status_text@ == "Computer stream is ready."@,
        bootstrap.can_take_over && bootstrap.observe_mode_default,
        status.ready,
        status.host_id == Some(host_id),
        status.app_id == Some(bootstrap.app_id),
        status.status_text@ == "Computer stream is ready."@,
        status.can_take_over && status.observe_mode_default,
        status.failure is None,
{
    let i = choose|i: int| #[trigger] is_pick(apps, i) && bootstrap.app_id == apps[i].id.0;
    assert(apps[i].id.0 == bootstrap.app_id);
}

/// Where a title spells the word for a desktop, the stream is that of an application
/// whose title does so, too.
pub proof fn law_stream_is_a_desktop(
    bootstrap: LocalBootstrap,
    host_id: u32,
    apps: Seq<HostApp>,
    k: int,
    a: Seq<char>,
    w: Seq<char>,
    b: Seq<char>,
)
    requires
        is_ready_bootstrap(bootstrap, host_id, apps),
        0 <= k < apps.len(),
        apps[k].title@ == a + w + b,
        w.len() == 7,
        forall|m: int| 0 <= m < 7 ==> #[trigger] w[m] == "desktop"@[m] || w[m] == "DESKTOP"@[m],
    ensures
        exists|i: int, x: Seq<char>, v: Seq<char>, y: Seq<char>|
            0 <= i <= k && bootstrap.app_id == (#[trigger] apps[i]).id.0 && apps[i].title@
                == #[trigger] (x + v + y) && v.len() == 7 && forall|m: int|
                0 <= m < 7 ==> #[trigger] v[m] == "desktop"@[m] || v[m] == "DESKTOP"@[m],
{
    let i = choose|i: int| #[trigger] is_pick(apps, i) && bootstrap.app_id == apps[i].id.0;
    law_spelled_desktop_is_streamed(apps, i, k, a, w, b);
    let (x, v, y) = choose|x: Seq<char>, v: Seq<char>, y: Seq<char>|
        apps[i].title@ == #[trigger] (x + v + y) && v.len() == 7 && forall|m: int|
            0 <= m < 7 ==> #[trigger] v[m] == "desktop"@[m] || v[m] == "DESKTOP"@[m];
    assert(bootstrap.app_id == apps[i].id.0 && apps[i].title@ == (x + v + y));
}

} // verus!
