use atman::binding::{CommandError, ConnectAndSyncCommand, SyncGetCommand, SyncListInsertCommand, SyncUpdateCommand};
use atman::uniffi_api::{parse_keys, reported_transfer_count, sync_interval_secs, AtmanError};

#[test]
fn commands_become_messages() {
    let m = SyncUpdateCommand { doc_space: b"aviation".to_vec(), doc_id: b"flights".to_vec(), data: b"{}".to_vec() }
        .into_message()
        .ok()
        .unwrap();
    assert_eq!(m.doc_space.as_str(), "aviation");
    assert_eq!(m.doc_id.as_str(), "flights");
    assert_eq!(m.data, b"{}".to_vec());

    let m = SyncListInsertCommand {
        doc_space: b"aviation".to_vec(),
        collection_doc_id: b"flights".to_vec(),
        doc_id: b"flight".to_vec(),
        property: vec![b'f', 0xff],
        data: vec![],
        index: 1,
    }
    .into_message()
    .ok()
    .unwrap();
    assert_eq!(m.collection_doc_id.as_str(), "flights");
    assert_eq!(m.property, "f\u{FFFD}");
    assert_eq!(m.index, 1);

    let m = SyncGetCommand { doc_space: b"s".to_vec(), doc_id: b"i".to_vec() }.to_message().ok().unwrap();
    assert_eq!(m.doc_id.as_str(), "i");

    let (n, s, i) = ConnectAndSyncCommand { node_id: b"abc".to_vec(), doc_space: b"s".to_vec(), doc_id: b"i".to_vec() }
        .decode()
        .ok()
        .unwrap();
    assert_eq!((n.as_str(), s.as_str(), i.as_str()), ("abc", "s", "i"));
}

#[test]
fn invalid_names_are_refused_in_order() {
    let bad = vec![0xffu8];
    assert_eq!(
        SyncGetCommand { doc_space: bad.clone(), doc_id: bad.clone() }.to_message().err(),
        Some(CommandError::InvalidDocSpace)
    );
    assert_eq!(
        SyncGetCommand { doc_space: b"s".to_vec(), doc_id: bad.clone() }.to_message().err(),
        Some(CommandError::InvalidDocId)
    );
    let e = SyncListInsertCommand {
        doc_space: b"s".to_vec(),
        collection_doc_id: bad.clone(),
        doc_id: bad.clone(),
        property: vec![],
        data: vec![],
        index: 0,
    }
    .into_message()
    .err();
    assert_eq!(e, Some(CommandError::InvalidCollectionDocId));
}

#[test]
fn keys_are_checked_identity_first() {
    let good = "00".repeat(32);
    assert!(matches!(parse_keys(&"zz".to_string(), &"zz".to_string()), Err(AtmanError::InvalidIdentity)));
    assert!(matches!(parse_keys(&good, &"00".to_string()), Err(AtmanError::InvalidNetworkKey)));
    match parse_keys(&good, &good) {
        Ok((i, n)) => assert_eq!((i, n), ([0u8; 32], [0u8; 32])),
        Err(_) => panic!("valid keys"),
    }
}

#[test]
fn zero_means_no_periodic_sync() {
    assert_eq!(sync_interval_secs(0), None);
    assert_eq!(sync_interval_secs(30), Some(30));
    assert_eq!(reported_transfer_count(None), 0);
    assert_eq!(reported_transfer_count(Some(3)), 3);
}
