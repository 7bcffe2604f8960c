use moonlight_web::app::{access, host_to_add, App};
use moonlight_web::config::{Config, MoonlightConfig, StorageConfig};
use moonlight_web::error::{ApiError, AppError, RequestError};
use moonlight_web::host::{
    build_hostport, certificate_rejected, is_offline, App as HostApp, ClientKind, Host, HostId,
    HostInfo, NetworkApp, PairStatus,
};
use moonlight_web::host_task::{
    begin, HostAction, HostCall, HostEvent, HostOutcome, HostStep, HostTask,
};
use moonlight_web::json_storage::StoredFile;
use moonlight_web::storage::{
    MacAddress, Storage, StorageHostAdd, StorageHostCache, StorageHostModify, StorageHostPairInfo,
};

fn config() -> Config {
    Config {
        data_storage: StorageConfig::Json {
            path: "server/data.json".to_string(),
            session_expiration_check_interval_ms: 1000,
        },
        moonlight: MoonlightConfig {
            default_http_port: 47989,
            pair_device_name: "roth".to_string(),
        },
    }
}

fn app() -> App {
    App::new(config(), StoredFile::Missing).unwrap()
}

fn pair_info(seed: u8) -> StorageHostPairInfo {
    StorageHostPairInfo {
        client_private_key: pem::Pem::new("PRIVATE KEY", vec![seed, 1]),
        client_certificate: pem::Pem::new("CERTIFICATE", vec![seed, 2]),
        server_certificate: pem::Pem::new("CERTIFICATE", vec![seed, 3]),
    }
}

fn info(name: &str, https_port: u16, pair_status: PairStatus) -> HostInfo<u32> {
    HostInfo {
        host_name: name.to_string(),
        mac: Some(MacAddress { bytes: [6, 5, 4, 3, 2, 1] }),
        https_port,
        pair_status,
        app_version: 71,
    }
}

fn request_error(connect: bool, encryption: bool) -> ApiError {
    ApiError::RequestClient(RequestError { connect, encryption, text: "request".to_string() })
}

fn status_error(message: Option<&str>) -> ApiError {
    ApiError::InvalidXmlStatusCode {
        message: message.map(|text| text.to_string()),
        text: "status".to_string(),
    }
}

fn add(app: &mut App, id: u32, paired: bool) -> Host<u32> {
    let host = StorageHostAdd {
        address: "10.0.0.2".to_string(),
        http_port: 47989,
        pair_info: if paired { Some(pair_info(7)) } else { None },
        cache: StorageHostCache { name: "Desk".to_string(), mac: None },
    };
    app.storage.insert_host(id, &host).unwrap();
    app.storage.take_write_request();
    app.host(HostId(id)).unwrap()
}

fn go_on(step: HostStep<u32>) -> (HostTask<u32>, HostAction<u32>) {
    match step {
        HostStep::Continue(task, action) => (task, action),
        HostStep::Finish(_) => panic!("the call is over"),
    }
}

fn end(step: HostStep<u32>) -> Result<HostOutcome, AppError> {
    match step {
        HostStep::Finish(result) => result,
        HostStep::Continue(..) => panic!("the call is not over"),
    }
}

fn address_of(action: &HostAction<u32>) -> (bool, String) {
    match action {
        HostAction::AskInfo { encrypted, address } => (*encrypted, address.clone()),
        _ => panic!("no question"),
    }
}

fn is_random(id: u128) -> bool {
    let id = uuid::Uuid::from_u128(id);
    id.get_version_num() == 4 && id.get_variant() == uuid::Variant::RFC4122
}

/// Runs a call up to the client for the call itself.
fn known(
    app: &mut App,
    host: &mut Host<u32>,
    call: HostCall,
    status: PairStatus,
) -> (HostTask<u32>, HostAction<u32>) {
    let (task, _) = go_on(begin(call, host, &app.storage, &app.config));
    let (task, _) = go_on(task.step(
        host,
        &mut app.storage,
        &app.config,
        HostEvent::ClientBuilt(Ok(())),
    ));
    let first = task.step(
        host,
        &mut app.storage,
        &app.config,
        HostEvent::Info(Ok(info("Desk", 47984, status))),
    );
    let (task, action) = go_on(first);
    if let HostAction::BuildClient(_) = action {
        return (task, action);
    }
    go_on(task.step(
        host,
        &mut app.storage,
        &app.config,
        HostEvent::Info(Ok(info("Desk again", 47984, status))),
    ))
}

#[test]
fn addresses_are_joined_with_their_port() {
    assert_eq!(build_hostport("127.0.0.1", 47989), "127.0.0.1:47989");
    assert_eq!(build_hostport("", 0), ":0");
    assert_eq!(config().data_storage.path(), "server/data.json");
}

#[test]
fn replies_are_sorted() {
    assert!(matches!(is_offline(Ok(3)), Ok(Some(3))));
    let offline: Result<Option<u8>, AppError> = is_offline(Err(request_error(true, false)));
    assert!(matches!(offline, Ok(None)));
    let failed: Result<Option<u8>, AppError> = is_offline(Err(request_error(false, true)));
    assert!(matches!(failed, Err(AppError::MoonlightApi(_))));
}

#[test]
fn rejected_certificates_are_recognised() {
    assert!(certificate_rejected(&status_error(Some("The Certificate is unknown"))));
    assert!(!certificate_rejected(&status_error(Some("certificate"))));
    assert!(!certificate_rejected(&status_error(None)));
    assert!(certificate_rejected(&request_error(false, true)));
    assert!(!certificate_rejected(&request_error(true, false)));
    assert!(!certificate_rejected(&ApiError::Other("Certificate".to_string())));
}

#[test]
fn applications_keep_their_fields() {
    let app = HostApp::from(NetworkApp {
        id: 4,
        title: "Game".to_string(),
        is_hdr_supported: true,
    });
    assert_eq!(app.id.0, 4);
    assert_eq!(app.title, "Game");
    assert!(app.is_hdr_supported);
}

#[test]
fn server_that_is_gone_is_an_error() {
    assert!(matches!(access(Some(1)), Ok(1)));
    let gone: Option<u8> = None;
    assert!(matches!(access(gone), Err(AppError::AppDestroyed)));
}

#[test]
fn server_starts_on_its_file() {
    assert_eq!(app().config().moonlight.pair_device_name, "roth");
    assert!(App::new(config(), StoredFile::Unreadable("x".to_string())).is_err());
}

#[test]
fn host_is_asked_before_it_is_added() {
    let app = app();
    let first = app.add_host_request("10.0.0.2", 47989);
    let second = app.add_host_request("10.0.0.2", 47989);
    assert_eq!(first.address, "10.0.0.2:47989");
    assert_eq!(first.client.unique_id, "roth");
    assert!(matches!(first.client.kind, ClientKind::Defaults));
    assert!(is_random(first.client.uuid));
    assert!(is_random(second.client.uuid));
    assert_ne!(first.client.uuid, second.client.uuid);
}

#[test]
fn answer_makes_a_host() {
    let reply = Ok(info("Desk", 47984, PairStatus::NotPaired));
    let host = host_to_add("10.0.0.2".to_string(), 47989, reply).unwrap();
    assert_eq!(host.address, "10.0.0.2");
    assert_eq!(host.http_port, 47989);
    assert!(host.pair_info.is_none());
    assert_eq!(host.cache.name, "Desk");
    assert_eq!(host.cache.mac, Some(MacAddress { bytes: [6, 5, 4, 3, 2, 1] }));
    let failed = |error: ApiError| {
        let reply: Result<HostInfo<u32>, ApiError> = Err(error);
        host_to_add("a".to_string(), 1, reply).err().unwrap()
    };
    assert!(matches!(failed(request_error(true, false)), AppError::HostNotFound));
    assert!(matches!(failed(request_error(false, false)), AppError::MoonlightApi(_)));
}

#[test]
fn added_host_is_listed_and_found() {
    let mut app = app();
    let reply = Ok(info("Desk", 47984, PairStatus::NotPaired));
    let to_add = host_to_add("10.0.0.2".to_string(), 47989, reply).unwrap();
    let added: Host<u32> = app.add_host(&to_add).unwrap();
    assert!(app.storage.write_pending);
    let found: Host<u32> = app.host(added.id()).unwrap();
    assert_eq!(found.id(), added.id());
    assert_eq!(found.cache_storage.unwrap().address, "10.0.0.2");
    assert!(found.cache_host_info.is_none());
    let listed: Vec<Host<u32>> = app.list_hosts().unwrap();
    assert_eq!(listed.len(), 1);
    assert_eq!(listed[0].id, added.id);
    let missing: Result<Host<u32>, AppError> = app.host(HostId(added.id.0.wrapping_add(1)));
    assert!(matches!(missing, Err(AppError::HostNotFound)));
}

#[test]
fn stored_values_of_a_host() {
    let mut app = app();
    let unpaired = add(&mut app, 1, false);
    let paired = add(&mut app, 2, true);
    assert_eq!(unpaired.address_port(&app.storage).unwrap(), ("10.0.0.2".to_string(), 47989));
    assert!(matches!(unpaired.pair_info(&app.storage), Err(AppError::HostNotPaired)));
    assert_eq!(
        paired.pair_info(&app.storage).unwrap().server_certificate,
        pair_info(7).server_certificate
    );
    app.storage.remove_host(HostId(2)).unwrap();
    assert!(matches!(paired.pair_info(&app.storage), Err(AppError::HostNotFound)));
    assert!(matches!(paired.address_port(&app.storage), Err(AppError::HostNotFound)));
    assert_eq!(paired.storage_host(&app.storage).unwrap().address, "10.0.0.2");
}

#[test]
fn modified_host_forgets_what_was_read() {
    let mut app = app();
    let mut host = add(&mut app, 1, false);
    let modify = StorageHostModify {
        address: Some("10.0.0.3".to_string()),
        ..StorageHostModify::default()
    };
    host.modify(&mut app.storage, modify).unwrap();
    assert!(host.cache_storage.is_none());
    assert_eq!(host.storage_host(&app.storage).unwrap().address, "10.0.0.3");
    app.storage.remove_host(HostId(1)).unwrap();
    let modified = host.modify(&mut app.storage, StorageHostModify::default());
    assert!(matches!(modified, Err(AppError::HostNotFound)));
    assert!(matches!(host.storage_host(&app.storage), Err(AppError::HostNotFound)));
}

#[test]
fn clients_follow_the_pairing() {
    let mut app = app();
    let unpaired = add(&mut app, 1, false);
    let paired = add(&mut app, 2, true);
    let (client, route) = unpaired.use_client(&app.storage, &app.config, false).unwrap();
    assert!(matches!(client.kind, ClientKind::Defaults));
    assert!(!route.https_capable);
    assert_eq!(client.unique_id, "roth");
    assert!(is_random(client.uuid));
    let (client, route) = paired.use_client(&app.storage, &app.config, false).unwrap();
    match client.kind {
        ClientKind::Certificates(used) => {
            assert_eq!(used.client_certificate, pair_info(7).client_certificate);
            assert_eq!(used.client_private_key, pair_info(7).client_private_key);
        }
        _ => panic!("the host is paired"),
    }
    assert!(route.https_capable);
    assert_eq!(route.address, "10.0.0.2");
    assert_eq!(route.http_port, 47989);
    let (client, route) = paired.use_client(&app.storage, &app.config, true).unwrap();
    assert!(matches!(client.kind, ClientKind::LongTimeout));
    assert!(!route.https_capable);
}

#[test]
fn paired_host_lists_its_applications() {
    let mut app = app();
    let mut host = add(&mut app, 1, true);
    let (task, action) = go_on(begin(HostCall::ListApps, &host, &app.storage, &app.config));
    assert!(matches!(action, HostAction::BuildClient(_)));
    let built = HostEvent::ClientBuilt(Ok(()));
    let (task, action) =
        go_on(task.step(&mut host, &mut app.storage, &app.config, built));
    assert_eq!(address_of(&action), (false, "10.0.0.2:47989".to_string()));
    let reply = HostEvent::Info(Ok(info("Desk", 47984, PairStatus::NotPaired)));
    let (task, action) =
        go_on(task.step(&mut host, &mut app.storage, &app.config, reply));
    assert_eq!(address_of(&action), (true, "10.0.0.2:47984".to_string()));
    assert!(host.cache_host_info.is_none());
    let reply = HostEvent::Info(Ok(info("Secret", 47985, PairStatus::Paired)));
    let (task, action) =
        go_on(task.step(&mut host, &mut app.storage, &app.config, reply));
    assert!(matches!(action, HostAction::BuildClient(_)));
    assert_eq!(host.cache_host_info.as_ref().unwrap().host_name, "Secret");
    let built = HostEvent::ClientBuilt(Ok(()));
    let (task, action) =
        go_on(task.step(&mut host, &mut app.storage, &app.config, built));
    match action {
        HostAction::ListApps { address } => assert_eq!(address, "10.0.0.2:47985"),
        _ => panic!("the applications are asked for"),
    }
    let list = vec![
        NetworkApp { id: 1, title: "Desktop".to_string(), is_hdr_supported: false },
        NetworkApp { id: 2, title: "Game".to_string(), is_hdr_supported: true },
    ];
    let step =
        task.step(&mut host, &mut app.storage, &app.config, HostEvent::Apps(Ok(list)));
    match end(step).unwrap() {
        HostOutcome::Apps(apps) => {
            assert_eq!(apps.len(), 2);
            assert_eq!(apps[0].id.0, 1);
            assert_eq!(apps[1].title, "Game");
            assert!(apps[1].is_hdr_supported);
        }
        _ => panic!("a list was wanted"),
    }
    assert!(!app.storage.write_pending);
}

#[test]
fn known_host_is_not_asked_again() {
    let mut app = app();
    let mut host = add(&mut app, 1, true);
    known(&mut app, &mut host, HostCall::ListApps, PairStatus::Paired);
    let (task, action) = go_on(begin(HostCall::CancelApp, &host, &app.storage, &app.config));
    assert!(matches!(action, HostAction::BuildClient(_)));
    let built = HostEvent::ClientBuilt(Ok(()));
    let (task, action) =
        go_on(task.step(&mut host, &mut app.storage, &app.config, built));
    assert!(matches!(action, HostAction::CancelApp { .. }));
    let step =
        task.step(&mut host, &mut app.storage, &app.config, HostEvent::Cancelled(Ok(true)));
    assert!(matches!(end(step), Ok(HostOutcome::Cancelled(true))));
}

#[test]
fn offline_host_is_an_error() {
    for (call, missing) in
        [(HostCall::ListApps, false), (HostCall::CancelApp, false), (HostCall::Pair, true)]
    {
        let mut app = app();
        let mut host = add(&mut app, 1, true);
        let (task, _) = go_on(begin(call, &host, &app.storage, &app.config));
        let built = HostEvent::ClientBuilt(Ok(()));
        let (task, _) =
            go_on(task.step(&mut host, &mut app.storage, &app.config, built));
        let reply = HostEvent::Info(Err(request_error(true, false)));
        let error =
            end(task.step(&mut host, &mut app.storage, &app.config, reply)).err().unwrap();
        if missing {
            assert!(matches!(error, AppError::HostNotFound));
        } else {
            assert!(matches!(error, AppError::HostOffline));
        }
    }
}

#[test]
fn rejected_certificate_leaves_the_first_answer() {
    let mut app = app();
    let mut host = add(&mut app, 1, true);
    let (task, _) = go_on(begin(HostCall::ListApps, &host, &app.storage, &app.config));
    let built = HostEvent::ClientBuilt(Ok(()));
    let (task, _) = go_on(task.step(&mut host, &mut app.storage, &app.config, built));
    let reply = HostEvent::Info(Ok(info("First", 47984, PairStatus::NotPaired)));
    let (task, _) = go_on(task.step(&mut host, &mut app.storage, &app.config, reply));
    let reply = HostEvent::Info(Err(status_error(Some("Certificate removed"))));
    go_on(task.step(&mut host, &mut app.storage, &app.config, reply));
    assert_eq!(host.cache_host_info.unwrap().host_name, "First");
}

#[test]
fn other_failures_end_a_call() {
    let mut app = app();
    let mut host = add(&mut app, 1, true);
    let (task, _) = go_on(begin(HostCall::ListApps, &host, &app.storage, &app.config));
    let built = HostEvent::ClientBuilt(Err(request_error(true, false)));
    let step = task.step(&mut host, &mut app.storage, &app.config, built);
    assert!(matches!(end(step), Err(AppError::MoonlightApi(_))));

    let (task, _) = known(&mut app, &mut host, HostCall::ListApps, PairStatus::Paired);
    let built = HostEvent::ClientBuilt(Ok(()));
    let (task, _) = go_on(task.step(&mut host, &mut app.storage, &app.config, built));
    let reply = HostEvent::Apps(Err(request_error(true, false)));
    let step = task.step(&mut host, &mut app.storage, &app.config, reply);
    assert!(matches!(end(step), Err(AppError::MoonlightApi(_))));
}

#[test]
fn unpaired_host_is_refused() {
    let mut app = app();
    let mut host = add(&mut app, 1, false);
    let (task, _) = known(&mut app, &mut host, HostCall::ListApps, PairStatus::NotPaired);
    let built = HostEvent::ClientBuilt(Ok(()));
    let step = task.step(&mut host, &mut app.storage, &app.config, built);
    assert!(matches!(end(step), Err(AppError::HostNotPaired)));
    let (task, _) = go_on(begin(HostCall::CancelApp, &host, &app.storage, &app.config));
    let built = HostEvent::ClientBuilt(Ok(()));
    let step = task.step(&mut host, &mut app.storage, &app.config, built);
    assert!(matches!(end(step), Err(AppError::Forbidden)));
}

#[test]
fn pairing_is_stored_and_used() {
    let mut app = app();
    let mut host = add(&mut app, 1, false);
    add(&mut app, 2, false);
    let (task, action) = known(&mut app, &mut host, HostCall::Pair, PairStatus::NotPaired);
    match action {
        HostAction::BuildClient(client) => assert!(matches!(client.kind, ClientKind::LongTimeout)),
        _ => panic!("a client is built"),
    }
    let built = HostEvent::ClientBuilt(Ok(()));
    let (task, action) =
        go_on(task.step(&mut host, &mut app.storage, &app.config, built));
    match action {
        HostAction::Pair(request) => {
            assert_eq!(request.http_address, "10.0.0.2:47989");
            assert_eq!(request.https_address, "10.0.0.2:47984");
            assert_eq!(request.device_name, "roth");
            assert_eq!(request.app_version, 71);
        }
        _ => panic!("a pairing is asked for"),
    }
    let reply = HostEvent::Paired(Ok(pair_info(3)));
    let (task, action) =
        go_on(task.step(&mut host, &mut app.storage, &app.config, reply));
    assert_eq!(address_of(&action), (true, "10.0.0.2:47984".to_string()));
    assert!(!app.storage.write_pending);
    let reply = HostEvent::Info(Ok(info("Paired now", 47984, PairStatus::Paired)));
    let step = task.step(&mut host, &mut app.storage, &app.config, reply);
    assert!(matches!(end(step), Ok(HostOutcome::Paired)));
    assert!(app.storage.write_pending);
    assert_eq!(host.cache_host_info.as_ref().unwrap().host_name, "Paired now");
    let again = begin(HostCall::Pair, &host, &app.storage, &app.config);
    assert!(matches!(end(again), Err(AppError::HostPaired)));
    assert_eq!(
        host.pair_info(&app.storage).unwrap().client_private_key,
        pair_info(3).client_private_key
    );
    let other: Host<u32> = app.host(HostId(2)).unwrap();
    assert!(matches!(other.pair_info(&app.storage), Err(AppError::HostNotPaired)));
    let (_, action) = go_on(begin(HostCall::ListApps, &host, &app.storage, &app.config));
    match action {
        HostAction::BuildClient(client) => match client.kind {
            ClientKind::Certificates(used) => {
                assert_eq!(used.server_certificate, pair_info(3).server_certificate)
            }
            _ => panic!("the host is paired"),
        },
        _ => panic!("a client is built"),
    }
}

#[test]
fn failed_pairing_stores_nothing() {
    let mut app = app();
    let mut host = add(&mut app, 1, false);
    let (task, _) = known(&mut app, &mut host, HostCall::Pair, PairStatus::NotPaired);
    let built = HostEvent::ClientBuilt(Ok(()));
    let (task, _) = go_on(task.step(&mut host, &mut app.storage, &app.config, built));
    let reply = HostEvent::Paired(Err(AppError::Pairing("wrong pin".to_string())));
    let step = task.step(&mut host, &mut app.storage, &app.config, reply);
    assert!(matches!(end(step), Err(AppError::Pairing(_))));
    assert!(!app.storage.write_pending);
    assert!(matches!(host.pair_info(&app.storage), Err(AppError::HostNotPaired)));
}

#[test]
fn paired_host_is_not_paired_again() {
    let mut app = app();
    let mut host = add(&mut app, 1, true);
    known(&mut app, &mut host, HostCall::ListApps, PairStatus::Paired);
    let step = begin(HostCall::Pair, &host, &app.storage, &app.config);
    assert!(matches!(end(step), Err(AppError::HostPaired)));
}

#[test]
fn host_that_was_never_stored_is_not_found() {
    let app = app();
    let host: Host<u32> = Host { id: HostId(9), cache_storage: None, cache_host_info: None };
    let step = begin(HostCall::ListApps, &host, &app.storage, &app.config);
    assert!(matches!(end(step), Err(AppError::HostNotFound)));
}

#[test]
fn pairing_is_good_without_a_last_answer() {
    let mut app = app();
    let mut host = add(&mut app, 1, false);
    let (task, _) = known(&mut app, &mut host, HostCall::Pair, PairStatus::NotPaired);
    let built = HostEvent::ClientBuilt(Ok(()));
    let (task, _) = go_on(task.step(&mut host, &mut app.storage, &app.config, built));
    let paired = HostEvent::Paired(Ok(pair_info(3)));
    let (task, _) = go_on(task.step(&mut host, &mut app.storage, &app.config, paired));
    let reply = HostEvent::Info(Err(request_error(true, false)));
    let step = task.step(&mut host, &mut app.storage, &app.config, reply);
    assert!(matches!(end(step), Ok(HostOutcome::Paired)));
    assert!(app.storage.write_pending);
    assert_eq!(host.cache_host_info.as_ref().unwrap().host_name, "Desk");
    assert_eq!(
        host.pair_info(&app.storage).unwrap().server_certificate,
        pair_info(3).server_certificate
    );
}

#[test]
fn host_that_was_removed_is_not_paired() {
    let mut app = app();
    let mut host = add(&mut app, 1, false);
    let (task, _) = known(&mut app, &mut host, HostCall::Pair, PairStatus::NotPaired);
    let built = HostEvent::ClientBuilt(Ok(()));
    let (task, _) = go_on(task.step(&mut host, &mut app.storage, &app.config, built));
    let paired = HostEvent::Paired(Ok(pair_info(3)));
    let (task, _) = go_on(task.step(&mut host, &mut app.storage, &app.config, paired));
    app.storage.remove_host(HostId(1)).unwrap();
    let reply = HostEvent::Info(Ok(info("Late", 47984, PairStatus::Paired)));
    let step = task.step(&mut host, &mut app.storage, &app.config, reply);
    assert!(matches!(end(step), Err(AppError::HostNotFound)));
    assert_eq!(host.cache_host_info.as_ref().unwrap().host_name, "Late");
}
