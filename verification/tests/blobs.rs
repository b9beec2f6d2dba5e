use atman::blobs::{choose_name, NameChoice, 
    export_file_name, fallback_name, join_path_lines, parse_path_lines, ticket_format,
    transfer_completed, unique_name_candidate, BlobFormat, BlobHash, Error, RequestUpdate,
    TransferCounts,
};
use atman::models::Node;
use atman::models::NodeId;

#[test]
fn one_file_gets_a_raw_ticket_and_more_a_collection() {
    assert!(matches!(ticket_format(0), Err(Error::Empty)));
    assert!(matches!(ticket_format(1), Ok(BlobFormat::Raw)));
    assert!(matches!(ticket_format(3), Ok(BlobFormat::HashSeq)));
}

#[test]
fn raw_ticket_file_is_saved_under_its_first_name() {
    assert_eq!(export_file_name(&vec!["greeting.txt".to_string()]), "greeting.txt");
    assert_eq!(export_file_name(&vec![]), "unnamed");
}

#[test]
fn taken_names_get_a_number() {
    assert_eq!(unique_name_candidate("greeting.txt", 0), "greeting.txt");
    assert_eq!(unique_name_candidate("greeting.txt", 1), "greeting (1).txt");
    assert_eq!(unique_name_candidate("a.tar.gz", 12), "a.tar (12).gz");
    assert_eq!(unique_name_candidate("noext", 3), "noext (3).");
    assert_eq!(unique_name_candidate("x", 9999), "x (9999).");
    assert_eq!(fallback_name("greeting.txt", 4242), "greeting-4242.txt");
}

#[test]
fn only_requests_that_end_completed_count() {
    assert!(transfer_completed(&vec![RequestUpdate::Started, RequestUpdate::Progress, RequestUpdate::Completed]));
    assert!(!transfer_completed(&vec![RequestUpdate::Started, RequestUpdate::Aborted]));
    assert!(!transfer_completed(&vec![RequestUpdate::Completed, RequestUpdate::Progress]));
    assert!(!transfer_completed(&vec![]));
}

#[test]
fn transfer_counts_count_distinct_receivers() {
    let mut counts = TransferCounts::new();
    let h = BlobHash { bytes: [3; 32] };
    let alice = NodeId { bytes: [1; 32] };
    let bob = NodeId { bytes: [2; 32] };
    assert_eq!(counts.transfer_count(&h), None);
    counts.record_request(BlobHash { bytes: [3; 32] }, NodeId { bytes: [1; 32] }, &vec![RequestUpdate::Started, RequestUpdate::Completed]);
    assert_eq!(counts.transfer_count(&h), Some(1));
    // An aborted request counts nothing.
    counts.record_request(BlobHash { bytes: [3; 32] }, bob, &vec![RequestUpdate::Aborted]);
    assert_eq!(counts.transfer_count(&h), Some(1));
    // The same receiver pulling again is counted once.
    counts.record_completed(BlobHash { bytes: [3; 32] }, alice);
    assert_eq!(counts.transfer_count(&h), Some(1));
    counts.record_completed(BlobHash { bytes: [3; 32] }, NodeId { bytes: [2; 32] });
    assert_eq!(counts.transfer_count(&h), Some(2));
    assert_eq!(counts.transfer_count(&BlobHash { bytes: [4; 32] }), None);
}

#[test]
fn path_lists_are_one_path_per_line() {
    assert_eq!(parse_path_lines("/a/b\n\n/c\n").unwrap(), vec!["/a/b".to_string(), "/c".to_string()]);
    assert_eq!(parse_path_lines("/only"), Some(vec!["/only".to_string()]));
    assert_eq!(parse_path_lines("\n\n"), None);
    assert_eq!(parse_path_lines(""), None);
    assert_eq!(join_path_lines(&vec!["/a".to_string(), "/b".to_string()]), "/a\n/b");
    assert_eq!(join_path_lines(&vec![]), "");
}

#[test]
fn node_entries_have_an_empty_signature() {
    let n = Node { id: NodeId { bytes: [0; 32] } };
    let d = n.to_doc_node("abc".to_string());
    assert_eq!(d.id, "abc");
    assert_eq!(d.signature, "");
}

#[test]
fn names_are_chosen_one_attempt_at_a_time() {
    use_choice(choose_name("a.txt", 0, false, 7), Some("a.txt"), None);
    use_choice(choose_name("a.txt", 0, true, 7), None, Some(1));
    use_choice(choose_name("a.txt", 3, false, 7), Some("a (3).txt"), None);
    use_choice(choose_name("a.txt", 9998, true, 7), None, Some(9999));
    use_choice(choose_name("a.txt", 9999, true, 7), Some("a-7.txt"), None);
}

fn use_choice(c: NameChoice, take: Option<&str>, next: Option<u64>) {
    match c {
        NameChoice::Take(n) => assert_eq!(Some(n.as_str()), take),
        NameChoice::TryNext(a) => assert_eq!(Some(a), next),
    }
}
