use moonlight_web::app::App;
use moonlight_web::config::{Config, MoonlightConfig, StorageConfig};
use moonlight_web::error::{ApiError, AppError, RequestError};
use moonlight_web::host::{App as HostApp, AppId, HostId, HostInfo, NetworkApp, PairStatus};
use moonlight_web::host_task::{HostAction, HostEvent};
use moonlight_web::json_storage::StoredFile;
use moonlight_web::local::{
    auto_pair_host, ensure_local_host, map_add_error, map_backend_error, map_list_error,
    pick_desktop_app, LocalBootstrap, LocalEnsureError, LocalFailureCode, LocalHost, PairOutcome,
};
use moonlight_web::local_task::{
    ensure_local_bootstrap, local_status_inner, LocalAction, LocalEvent, LocalState, LocalStep,
    LocalTask,
};
use moonlight_web::storage::{
    Storage, StorageHostAdd, StorageHostCache, StorageHostPairInfo,
};

fn app() -> App {
    let config = Config {
        data_storage: StorageConfig::Json {
            path: "data.json".to_string(),
            session_expiration_check_interval_ms: 1000,
        },
        moonlight: MoonlightConfig {
            default_http_port: 47989,
            pair_device_name: "roth".to_string(),
        },
    };
    App::new(config, StoredFile::Missing).unwrap()
}

fn pair_info() -> StorageHostPairInfo {
    StorageHostPairInfo {
        client_private_key: pem::Pem::new("PRIVATE KEY", vec![1]),
        client_certificate: pem::Pem::new("CERTIFICATE", vec![2]),
        server_certificate: pem::Pem::new("CERTIFICATE", vec![3]),
    }
}

fn add(app: &mut App, id: u32, address: &str, port: u16, paired: bool) {
    let host = StorageHostAdd {
        address: address.to_string(),
        http_port: port,
        pair_info: if paired { Some(pair_info()) } else { None },
        cache: StorageHostCache { name: "Desk".to_string(), mac: None },
    };
    app.storage.insert_host(id, &host).unwrap();
    app.storage.take_write_request();
}

fn host_app(id: u32, title: &str) -> HostApp {
    HostApp { id: AppId(id), title: title.to_string(), is_hdr_supported: false }
}

fn network_app(id: u32, title: &str) -> NetworkApp {
    NetworkApp { id, title: title.to_string(), is_hdr_supported: false }
}

fn info(status: PairStatus) -> HostInfo<u32> {
    HostInfo {
        host_name: "Desk".to_string(),
        mac: None,
        https_port: 47984,
        pair_status: status,
        app_version: 7,
    }
}

fn offline() -> ApiError {
    ApiError::RequestClient(RequestError {
        connect: true,
        encryption: false,
        text: "refused".to_string(),
    })
}

fn go_on(step: LocalStep<u32>) -> (LocalTask<u32>, LocalAction<u32>) {
    match step {
        LocalStep::Continue(task, action) => (task, action),
        LocalStep::Finish(_) => panic!("the way is over"),
    }
}

fn end(step: LocalStep<u32>) -> Result<LocalBootstrap, LocalEnsureError> {
    match step {
        LocalStep::Finish(result) => result,
        LocalStep::Continue(..) => panic!("the way is not over"),
    }
}

fn is_build(action: &LocalAction<u32>) -> bool {
    matches!(action, LocalAction::Host(HostAction::BuildClient(_)))
}

fn built() -> LocalEvent<u32> {
    LocalEvent::Host(HostEvent::ClientBuilt(Ok(())))
}

fn says(status: PairStatus) -> LocalEvent<u32> {
    LocalEvent::Host(HostEvent::Info(Ok(info(status))))
}

fn lists(apps: Vec<NetworkApp>) -> LocalEvent<u32> {
    LocalEvent::Host(HostEvent::Apps(Ok(apps)))
}

/// Runs the list of applications of an unpaired host up to its refusal.
fn until_refused(app: &mut App, step: LocalStep<u32>) -> LocalStep<u32> {
    let (task, _) = go_on(step);
    let (task, _) = go_on(task.step(app, built()));
    let (task, _) = go_on(task.step(app, says(PairStatus::NotPaired)));
    task.step(app, built())
}

#[test]
fn first_desktop_is_picked() {
    let apps =
        vec![host_app(1, "Steam"), host_app(2, "My DESKTOP"), host_app(3, "Desktop")];
    assert_eq!(pick_desktop_app(&apps).unwrap().id.0, 2);
    let apps = vec![host_app(5, "Steam"), host_app(6, "Game")];
    assert_eq!(pick_desktop_app(&apps).unwrap().id.0, 5);
    assert!(pick_desktop_app(&[]).is_none());
    let apps = vec![host_app(5, "Desk top"), host_app(6, "superdesktopia")];
    assert_eq!(pick_desktop_app(&apps).unwrap().id.0, 6);
}

#[test]
fn backend_errors_are_mapped() {
    let cases = vec![
        (AppError::HostNotFound, LocalFailureCode::SunshineNotReady, "Sunshine is not ready yet."),
        (AppError::HostOffline, LocalFailureCode::SunshineNotReady, "Sunshine is not ready yet."),
        (
            AppError::HostNotPaired,
            LocalFailureCode::PairingFailed,
            "Sunshine host is not paired yet.",
        ),
        (
            AppError::HostPaired,
            LocalFailureCode::PairingFailed,
            "Sunshine host pairing is in an invalid state.",
        ),
        (
            AppError::MoonlightApi(offline()),
            LocalFailureCode::StreamBackendUnhealthy,
            "Stream backend is unhealthy.",
        ),
        (
            AppError::Forbidden,
            LocalFailureCode::StreamBackendUnhealthy,
            "Stream backend is unhealthy.",
        ),
        (
            AppError::AppDestroyed,
            LocalFailureCode::AssociationFailed,
            "Local stream association failed.",
        ),
        (
            AppError::Io("x".to_string()),
            LocalFailureCode::AssociationFailed,
            "Local stream association failed.",
        ),
    ];
    for (error, code, text) in cases {
        let message = error.message();
        let mapped = map_backend_error(error);
        assert_eq!(mapped.code, code);
        assert_eq!(mapped.status_text, text);
        assert_eq!(mapped.detail, Some(message));
        assert!(mapped.retryable);
    }
}

#[test]
fn add_and_list_errors_are_mapped() {
    let mapped = map_add_error(AppError::HostNotFound);
    assert_eq!(mapped.code, LocalFailureCode::SunshineNotReady);
    assert_eq!(mapped.status_text, "Sunshine is not ready yet.");
    let mapped = map_add_error(AppError::OpenSSL("x".to_string()));
    assert_eq!(mapped.code, LocalFailureCode::AssociationFailed);
    assert_eq!(mapped.status_text, "Failed to create local Sunshine association.");
    assert_eq!(mapped.detail, Some("openssl error occured: x".to_string()));
    let mapped = map_list_error(AppError::Io("y".to_string()));
    assert_eq!(mapped.code, LocalFailureCode::AssociationFailed);
    assert_eq!(mapped.status_text, "Failed to inspect local stream associations.");
    assert_eq!(mapped.detail, Some("io error: y".to_string()));
    assert!(mapped.retryable);
}

#[test]
fn pairings_are_judged() {
    assert!(auto_pair_host(PairOutcome::Finished(Ok(()))).is_ok());
    assert!(auto_pair_host(PairOutcome::Finished(Err(AppError::HostPaired))).is_ok());
    let failed = |outcome: PairOutcome| auto_pair_host(outcome).err().unwrap();
    let error = failed(PairOutcome::Finished(Err(AppError::HostOffline)));
    assert_eq!(error.status_text, "Automatic pairing failed.");
    assert!(error.retryable);
    let error = failed(PairOutcome::TimedOut);
    assert_eq!(error.status_text, "Automatic pairing timed out.");
    assert_eq!(error.detail, None);
    assert!(error.retryable);
    let error = failed(PairOutcome::PinFailed("no entropy".to_string()));
    assert_eq!(error.code, LocalFailureCode::PairingFailed);
    assert_eq!(error.status_text, "Failed to start pairing.");
    assert_eq!(error.detail, Some("no entropy".to_string()));
    assert!(!error.retryable);
}

#[test]
fn local_host_is_the_one_on_the_default_port() {
    let mut app = app();
    add(&mut app, 1, "127.0.0.1", 47999, true);
    add(&mut app, 2, "127.0.0.2", 47989, true);
    match ensure_local_host::<u32>(&app, true) {
        Ok(LocalHost::Create { address, http_port }) => {
            assert_eq!(address, "127.0.0.1");
            assert_eq!(http_port, 47989);
        }
        _ => panic!("there is no local host"),
    }
    match ensure_local_host::<u32>(&app, false) {
        Err(error) => {
            assert_eq!(error.code, LocalFailureCode::AssociationFailed);
            assert_eq!(error.status_text, "No local Sunshine association exists yet.");
            assert_eq!(error.detail, None);
            assert!(error.retryable);
        }
        Ok(_) => panic!("there is no local host"),
    }
    add(&mut app, 3, "127.0.0.1", 47989, true);
    for allow_create in [false, true, false] {
        match ensure_local_host::<u32>(&app, allow_create) {
            Ok(LocalHost::Found(host)) => assert_eq!(host.id, HostId(3)),
            _ => panic!("there is a local host"),
        }
    }
}

#[test]
fn one_of_several_local_hosts_is_found_again() {
    let mut app = app();
    for id in 10..30 {
        add(&mut app, id, "127.0.0.1", 47989, true);
    }
    let find = |allow_create: bool| match ensure_local_host::<u32>(&app, allow_create) {
        Ok(LocalHost::Found(host)) => host.id,
        _ => panic!("there is a local host"),
    };
    let first = find(true);
    for allow_create in [true, false, true] {
        assert_eq!(find(allow_create), first);
    }
    for step in [local_status_inner(&app), ensure_local_bootstrap(&app)] {
        match go_on(step).0.state {
            LocalState::Apps { host, .. } => assert_eq!(host.id, first),
            _ => panic!("the host is asked for its applications"),
        }
    }
}

#[test]
fn status_without_a_host_fails() {
    let app = app();
    let error = end(local_status_inner(&app)).err().unwrap();
    assert_eq!(error.status_text, "No local Sunshine association exists yet.");
}

#[test]
fn status_of_a_paired_host() {
    let mut app = app();
    add(&mut app, 3, "127.0.0.1", 47989, true);
    let (task, action) = go_on(local_status_inner(&app));
    assert!(is_build(&action));
    let (task, _) = go_on(task.step(&mut app, built()));
    let (task, _) = go_on(task.step(&mut app, says(PairStatus::Paired)));
    let (task, action) = go_on(task.step(&mut app, says(PairStatus::Paired)));
    assert!(is_build(&action));
    let (task, action) = go_on(task.step(&mut app, built()));
    assert!(matches!(action, LocalAction::Host(HostAction::ListApps { .. })));
    let apps = vec![network_app(4, "Steam"), network_app(5, "Desktop")];
    let bootstrap = end(task.step(&mut app, lists(apps))).unwrap();
    assert_eq!(bootstrap.host_id, 3);
    assert_eq!(bootstrap.app_id, 5);
    assert_eq!(bootstrap.status_text, "Computer stream is ready.");
    assert!(bootstrap.can_take_over && bootstrap.observe_mode_default);
    assert!(!app.storage.write_pending);
}

#[test]
fn host_without_applications_is_not_ready() {
    let mut app = app();
    add(&mut app, 3, "127.0.0.1", 47989, true);
    let (task, _) = go_on(local_status_inner(&app));
    let (task, _) = go_on(task.step(&mut app, built()));
    let (task, _) = go_on(task.step(&mut app, says(PairStatus::Paired)));
    let (task, _) = go_on(task.step(&mut app, says(PairStatus::Paired)));
    let (task, _) = go_on(task.step(&mut app, built()));
    let error = end(task.step(&mut app, lists(vec![]))).err().unwrap();
    assert_eq!(error.code, LocalFailureCode::DesktopAppNotFound);
    assert_eq!(error.status_text, "No launchable desktop app is available yet.");
    assert_eq!(error.detail, None);
    assert!(error.retryable);
}

#[test]
fn status_does_not_pair() {
    let mut app = app();
    add(&mut app, 3, "127.0.0.1", 47989, false);
    let step = local_status_inner(&app);
    let error = end(until_refused(&mut app, step)).err().unwrap();
    assert_eq!(error.code, LocalFailureCode::PairingFailed);
    assert_eq!(error.status_text, "Sunshine host is not paired yet.");
}

#[test]
fn missing_host_is_added_and_paired() {
    let mut app = app();
    let (task, action) = go_on(ensure_local_bootstrap(&app));
    assert!(is_build(&action));
    let (task, action) = go_on(task.step(&mut app, built()));
    match action {
        LocalAction::Host(HostAction::AskInfo { encrypted, address }) => {
            assert!(!encrypted);
            assert_eq!(address, "127.0.0.1:47989");
        }
        _ => panic!("the host is asked"),
    }
    let added = task.step(&mut app, says(PairStatus::NotPaired));
    assert!(app.storage.take_write_request());
    let list = app.storage.list_hosts().unwrap();
    assert_eq!(list.len(), 1);
    assert_eq!(list[0].1.as_ref().unwrap().address, "127.0.0.1");
    let host_id = list[0].0;

    let (task, action) = go_on(until_refused(&mut app, added));
    assert!(matches!(action, LocalAction::MakePin));
    let (task, action) = go_on(task.step(&mut app, LocalEvent::PinMade(Ok(()))));
    assert!(matches!(action, LocalAction::Pair(HostAction::BuildClient(_))));
    let (task, action) = go_on(task.step(&mut app, built()));
    assert!(matches!(action, LocalAction::Pair(HostAction::Pair(_))));
    let paired = LocalEvent::Host(HostEvent::Paired(Ok(pair_info())));
    let (task, action) = go_on(task.step(&mut app, paired));
    match action {
        LocalAction::Pair(HostAction::AskInfo { encrypted, address }) => {
            assert!(encrypted);
            assert_eq!(address, "127.0.0.1:47984");
        }
        _ => panic!("the host is asked once more"),
    }
    assert!(!app.storage.write_pending);
    let (task, action) = go_on(task.step(&mut app, says(PairStatus::Paired)));
    assert!(is_build(&action));
    assert!(app.storage.take_write_request());
    assert!(app.storage.get_host(host_id).unwrap().pair_info.is_some());
    let (task, action) = go_on(task.step(&mut app, built()));
    assert!(matches!(action, LocalAction::Host(HostAction::ListApps { .. })));
    let bootstrap = end(task.step(&mut app, lists(vec![network_app(2, "desktop")]))).unwrap();
    assert_eq!(bootstrap.host_id, host_id.0);
    assert_eq!(bootstrap.app_id, 2);

    let (_, action) = go_on(ensure_local_bootstrap(&app));
    assert!(is_build(&action));
    assert_eq!(app.storage.list_hosts().unwrap().len(), 1);
}

#[test]
fn host_that_does_not_answer_is_not_added() {
    let mut app = app();
    let (task, _) = go_on(ensure_local_bootstrap(&app));
    let (task, _) = go_on(task.step(&mut app, built()));
    let silent = LocalEvent::Host(HostEvent::Info(Err(offline())));
    let error = end(task.step(&mut app, silent)).err().unwrap();
    assert_eq!(error.code, LocalFailureCode::SunshineNotReady);
    assert_eq!(error.detail, Some("the host was not found".to_string()));

    let (task, _) = go_on(ensure_local_bootstrap(&app));
    let unbuilt = LocalEvent::Host(HostEvent::ClientBuilt(Err(offline())));
    let error = end(task.step(&mut app, unbuilt)).err().unwrap();
    assert_eq!(error.code, LocalFailureCode::AssociationFailed);
    assert_eq!(error.status_text, "Failed to create local Sunshine association.");
    assert_eq!(error.detail, Some("moonlight api error: refused".to_string()));
    assert!(app.storage.list_hosts().unwrap().is_empty());
}

#[test]
fn pin_or_time_may_be_missing() {
    let mut app = app();
    add(&mut app, 3, "127.0.0.1", 47989, false);
    let step = ensure_local_bootstrap(&app);
    let (task, _) = go_on(until_refused(&mut app, step));
    let failed = LocalEvent::PinMade(Err("no entropy".to_string()));
    let error = end(task.step(&mut app, failed)).err().unwrap();
    assert_eq!(error.status_text, "Failed to start pairing.");
    assert!(!error.retryable);

    let step = ensure_local_bootstrap(&app);
    let (task, _) = go_on(until_refused(&mut app, step));
    let (task, _) = go_on(task.step(&mut app, LocalEvent::PinMade(Ok(()))));
    let error = end(task.step(&mut app, LocalEvent::TimedOut)).err().unwrap();
    assert_eq!(error.status_text, "Automatic pairing timed out.");
    assert!(!app.storage.write_pending);

    let step = ensure_local_bootstrap(&app);
    let (task, _) = go_on(until_refused(&mut app, step));
    let (task, _) = go_on(task.step(&mut app, LocalEvent::PinMade(Ok(()))));
    let (task, _) = go_on(task.step(&mut app, built()));
    let paired = LocalEvent::Host(HostEvent::Paired(Ok(pair_info())));
    let (task, _) = go_on(task.step(&mut app, paired));
    let error = end(task.step(&mut app, LocalEvent::TimedOut)).err().unwrap();
    assert_eq!(error.status_text, "Automatic pairing timed out.");
    assert!(!app.storage.write_pending);
}

#[test]
fn failed_pairing_ends_the_way() {
    let mut app = app();
    add(&mut app, 3, "127.0.0.1", 47989, false);
    let step = ensure_local_bootstrap(&app);
    let (task, _) = go_on(until_refused(&mut app, step));
    let (task, _) = go_on(task.step(&mut app, LocalEvent::PinMade(Ok(()))));
    let (task, _) = go_on(task.step(&mut app, built()));
    let refused =
        LocalEvent::Host(HostEvent::Paired(Err(AppError::Pairing("wrong".to_string()))));
    let error = end(task.step(&mut app, refused)).err().unwrap();
    assert_eq!(error.code, LocalFailureCode::PairingFailed);
    assert_eq!(error.status_text, "Automatic pairing failed.");
    assert_eq!(error.detail, Some("pairing error: wrong".to_string()));
}

#[test]
fn at_most_one_pairing_is_made() {
    let mut app = app();
    add(&mut app, 3, "127.0.0.1", 47989, false);
    let step = ensure_local_bootstrap(&app);
    let (task, _) = go_on(until_refused(&mut app, step));
    let (task, _) = go_on(task.step(&mut app, LocalEvent::PinMade(Ok(()))));
    let (task, _) = go_on(task.step(&mut app, built()));
    let paired_elsewhere = LocalEvent::Host(HostEvent::Paired(Err(AppError::HostPaired)));
    let (task, action) = go_on(task.step(&mut app, paired_elsewhere));
    assert!(is_build(&action));
    let error = end(task.step(&mut app, built())).err().unwrap();
    assert_eq!(error.status_text, "Sunshine host is not paired yet.");
}
