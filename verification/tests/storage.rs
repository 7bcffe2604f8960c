use moonlight_web::error::AppError;
use moonlight_web::host::HostId;
use moonlight_web::json_storage::{id_from_bytes, JsonStorage, StoredFile};
use moonlight_web::storage::{
    MacAddress, Storage, StorageHost, StorageHostAdd, StorageHostCache, StorageHostModify,
    StorageHostPairInfo,
};

fn pair_info(seed: u8) -> StorageHostPairInfo {
    StorageHostPairInfo {
        client_private_key: pem::Pem::new("PRIVATE KEY", vec![seed, 1]),
        client_certificate: pem::Pem::new("CERTIFICATE", vec![seed, 2]),
        server_certificate: pem::Pem::new("CERTIFICATE", vec![seed, 3]),
    }
}

fn host_to_add(address: &str, port: u16) -> StorageHostAdd {
    StorageHostAdd {
        address: address.to_string(),
        http_port: port,
        pair_info: Some(pair_info(9)),
        cache: StorageHostCache {
            name: "Desk".to_string(),
            mac: Some(MacAddress { bytes: [1, 2, 3, 4, 5, 6] }),
        },
    }
}

fn empty_store() -> JsonStorage {
    JsonStorage::load(StoredFile::Missing).unwrap()
}

fn same_pair_info(a: &Option<StorageHostPairInfo>, b: &Option<StorageHostPairInfo>) -> bool {
    match (a, b) {
        (Some(a), Some(b)) => {
            a.client_private_key == b.client_private_key
                && a.client_certificate == b.client_certificate
                && a.server_certificate == b.server_certificate
        }
        (None, None) => true,
        _ => false,
    }
}

fn same_host(a: &StorageHost, b: &StorageHost) -> bool {
    a.id == b.id
        && a.address == b.address
        && a.http_port == b.http_port
        && same_pair_info(&a.pair_info, &b.pair_info)
        && a.cache.name == b.cache.name
        && a.cache.mac == b.cache.mac
}

#[test]
fn missing_file_is_an_empty_store() {
    let storage = empty_store();
    assert!(storage.list_hosts().unwrap().is_empty());
    assert!(!storage.write_pending);
    assert!(matches!(storage.get_host(HostId(1)), Err(AppError::HostNotFound)));
}

#[test]
fn files_that_cannot_be_loaded_say_why() {
    let text = |file: StoredFile| JsonStorage::load(file).err().unwrap();
    assert_eq!(
        text(StoredFile::Unreadable("permission denied".to_string())),
        "Failed to read data: permission denied",
    );
    assert_eq!(
        text(StoredFile::Malformed {
            error: "eof".to_string(),
            version_error: None,
        }),
        "Failed to deserialize data as json: eof, Version specific error: none",
    );
    assert_eq!(
        text(StoredFile::Malformed {
            error: "eof".to_string(),
            version_error: Some("no hosts".to_string()),
        }),
        "Failed to deserialize data as json: eof, Version specific error: no hosts",
    );
    assert_eq!(text(StoredFile::NotMigrated("too old".to_string())), "too old");
}

#[test]
fn added_host_reads_back() {
    let mut storage = empty_store();
    let host = host_to_add("192.168.1.7", 47989);
    let stored = storage.insert_host(0xABCD, &host).unwrap();
    assert_eq!(stored.id, HostId(0xABCD));
    assert!(storage.write_pending);
    let read = storage.get_host(HostId(0xABCD)).unwrap();
    assert!(same_host(&read, &stored));
    assert_eq!(read.address, "192.168.1.7");
    assert_eq!(read.http_port, 47989);
    assert_eq!(read.cache.name, "Desk");
    assert_eq!(read.cache.mac, Some(MacAddress { bytes: [1, 2, 3, 4, 5, 6] }));
    assert!(same_pair_info(&read.pair_info, &Some(pair_info(9))));
}

#[test]
fn taken_identifier_is_refused() {
    let mut storage = empty_store();
    storage.insert_host(5, &host_to_add("a", 1)).unwrap();
    assert!(storage.insert_host(5, &host_to_add("b", 2)).is_none());
    assert_eq!(storage.get_host(HostId(5)).unwrap().address, "a");
}

#[test]
fn hosts_are_added_under_drawn_identifiers() {
    let mut storage = empty_store();
    let mut ids = Vec::new();
    for port in 0..20u16 {
        let stored = storage.add_host(&host_to_add("h", port)).unwrap();
        assert!(!ids.contains(&stored.id.0));
        ids.push(stored.id.0);
        assert_eq!(storage.get_host(stored.id).unwrap().http_port, port);
    }
    assert!(ids.iter().any(|id| *id != 0));
    assert!(storage.has_free_id());
    assert_eq!(storage.list_hosts().unwrap().len(), 20);
}

#[test]
fn identifiers_are_read_most_significant_byte_first() {
    assert_eq!(id_from_bytes(&[0, 0, 0, 0]), 0);
    assert_eq!(id_from_bytes(&[1, 2, 3, 4]), 0x01020304);
    assert_eq!(id_from_bytes(&[255, 255, 255, 255]), u32::MAX);
}

#[test]
fn adding_and_removing_keep_other_hosts() {
    let mut storage = empty_store();
    let first = storage.insert_host(1, &host_to_add("a", 1)).unwrap();
    storage.insert_host(2, &host_to_add("b", 2)).unwrap();
    assert!(same_host(&storage.get_host(HostId(1)).unwrap(), &first));
    storage.remove_host(HostId(2)).unwrap();
    assert!(same_host(&storage.get_host(HostId(1)).unwrap(), &first));
    assert_eq!(storage.list_hosts().unwrap().len(), 1);
}

#[test]
fn modified_host_reads_back() {
    let mut storage = empty_store();
    storage.insert_host(1, &host_to_add("a", 1)).unwrap();
    storage.insert_host(2, &host_to_add("b", 2)).unwrap();
    storage.take_write_request();
    let modify = StorageHostModify {
        address: Some("c".to_string()),
        http_port: None,
        pair_info: Some(None),
        cache_name: Some("New".to_string()),
        cache_mac: Some(None),
    };
    storage.modify_host(HostId(1), modify).unwrap();
    assert!(storage.write_pending);
    let read = storage.get_host(HostId(1)).unwrap();
    assert_eq!(read.address, "c");
    assert_eq!(read.http_port, 1);
    assert!(read.pair_info.is_none());
    assert_eq!(read.cache.name, "New");
    assert_eq!(read.cache.mac, None);
    assert_eq!(storage.get_host(HostId(2)).unwrap().address, "b");
    let again = StorageHostModify {
        http_port: Some(7),
        pair_info: Some(Some(pair_info(4))),
        ..StorageHostModify::default()
    };
    storage.modify_host(HostId(1), again).unwrap();
    let read = storage.get_host(HostId(1)).unwrap();
    assert_eq!(read.http_port, 7);
    assert_eq!(read.address, "c");
    assert!(same_pair_info(&read.pair_info, &Some(pair_info(4))));
}

#[test]
fn empty_modify_changes_nothing() {
    let mut storage = empty_store();
    let stored = storage.insert_host(1, &host_to_add("a", 1)).unwrap();
    storage.modify_host(HostId(1), StorageHostModify::default()).unwrap();
    assert!(same_host(&storage.get_host(HostId(1)).unwrap(), &stored));
}

#[test]
fn modifying_twice_is_modifying_once() {
    let mut storage = empty_store();
    storage.insert_host(1, &host_to_add("a", 1)).unwrap();
    let modify = || StorageHostModify {
        address: Some("b".to_string()),
        ..StorageHostModify::default()
    };
    storage.modify_host(HostId(1), modify()).unwrap();
    let once = storage.get_host(HostId(1)).unwrap();
    storage.modify_host(HostId(1), modify()).unwrap();
    assert!(same_host(&storage.get_host(HostId(1)).unwrap(), &once));
}

#[test]
fn unknown_host_is_not_modified() {
    let mut storage = empty_store();
    let result = storage.modify_host(HostId(3), StorageHostModify::default());
    assert!(matches!(result, Err(AppError::HostNotFound)));
    assert!(!storage.write_pending);
}

#[test]
fn removed_host_is_gone() {
    let mut storage = empty_store();
    storage.insert_host(1, &host_to_add("a", 1)).unwrap();
    storage.remove_host(HostId(1)).unwrap();
    assert!(matches!(storage.get_host(HostId(1)), Err(AppError::HostNotFound)));
    assert!(matches!(storage.remove_host(HostId(1)), Err(AppError::HostNotFound)));
    assert!(matches!(
        storage.modify_host(HostId(1), StorageHostModify::default()),
        Err(AppError::HostNotFound)
    ));
    assert!(storage.list_hosts().unwrap().is_empty());
}

#[test]
fn list_names_every_host_once() {
    let mut storage = empty_store();
    for id in [4u32, 9, 2] {
        storage.insert_host(id, &host_to_add("h", id as u16)).unwrap();
    }
    let list = storage.list_hosts().unwrap();
    let mut ids: Vec<u32> = list.iter().map(|entry| entry.0 .0).collect();
    ids.sort();
    assert_eq!(ids, vec![2, 4, 9]);
    for (id, host) in &list {
        assert!(same_host(host.as_ref().unwrap(), &storage.get_host(*id).unwrap()));
    }
}

#[test]
fn written_hosts_load_back() {
    let mut storage = empty_store();
    let a = storage.insert_host(1, &host_to_add("a", 1)).unwrap();
    let b = storage.insert_host(u32::MAX, &host_to_add("b", 2)).unwrap();
    let loaded = JsonStorage::load(StoredFile::Data(storage.store())).unwrap();
    assert!(!loaded.write_pending);
    assert_eq!(loaded.list_hosts().unwrap().len(), 2);
    assert!(same_host(&loaded.get_host(a.id).unwrap(), &a));
    assert!(same_host(&loaded.get_host(b.id).unwrap(), &b));
}

#[test]
fn write_requests_count_as_one() {
    let mut storage = empty_store();
    assert!(!storage.take_write_request());
    storage.force_write();
    storage.force_write();
    assert!(storage.take_write_request());
    assert!(!storage.take_write_request());
    storage.insert_host(1, &host_to_add("a", 1)).unwrap();
    assert!(storage.take_write_request());
    storage.remove_host(HostId(1)).unwrap();
    assert!(storage.take_write_request());
}

#[test]
fn drawn_identifiers_are_used_unless_taken() {
    let mut storage = empty_store();
    storage.insert_host(0x01020304, &host_to_add("a", 1)).unwrap();
    assert!(matches!(storage.on_drawn(Ok([1, 2, 3, 4])), Ok(None)));
    assert!(matches!(storage.on_drawn(Ok([1, 2, 3, 5])), Ok(Some(0x01020305))));
    match storage.on_drawn(Err("no entropy".to_string())) {
        Err(AppError::OpenSSL(text)) => assert_eq!(text, "no entropy"),
        _ => panic!("nothing was drawn"),
    }
}
