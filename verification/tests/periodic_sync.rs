use atman::doc::protocol::node::Node;
use atman::doc::protocol::nodes::Nodes;
use atman::doc::{DocId, DocKey, DocSpace, Document};
use atman::error::Error;
use atman::models::NodeId;
use atman::periodic_sync::{count_successful, listed_node_ids, plan_sync_requests, select_remote_nodes};
use atman::sync;

fn id(k: u8) -> NodeId {
    NodeId { bytes: [k; 32] }
}

#[test]
fn missing_nodes_document_fails_the_round() {
    let err = sync::Error::DocumentNotFound { doc_space: DocSpace::new("protocol"), doc_id: DocId::new("nodes") };
    match listed_node_ids(Err(err)) {
        Err(Error::Sync(sync::Error::DocumentNotFound { doc_space, doc_id })) => {
            assert_eq!(doc_space.as_str(), "protocol");
            assert_eq!(doc_id.as_str(), "nodes");
        }
        _ => panic!("expected DocumentNotFound error"),
    }
}

#[test]
fn listed_ids_keep_their_order() {
    let doc = Document::Nodes(Nodes {
        nodes: vec![
            Node { id: "a".to_string(), signature: String::new() },
            Node { id: "b".to_string(), signature: String::new() },
        ],
    });
    assert_eq!(listed_node_ids(Ok(doc)).ok().unwrap(), vec!["a".to_string(), "b".to_string()]);
    assert!(matches!(listed_node_ids(Ok(Document::Node(Node { id: String::new(), signature: String::new() }))), Err(Error::UnexpectedDocumentType)));
}

#[test]
fn remote_nodes_skip_the_local_one_and_ids_that_do_not_parse() {
    let parsed = vec![Some(id(1)), None, Some(id(0)), Some(id(2)), Some(id(1))];
    let nodes = select_remote_nodes(&parsed, &id(0));
    let keys: Vec<[u8; 32]> = nodes.iter().map(|n| n.bytes).collect();
    assert_eq!(keys, vec![[1u8; 32], [2u8; 32]]);
}

#[test]
fn a_round_asks_every_node_for_every_document() {
    let docs = vec![
        DocKey { space: DocSpace::new("protocol"), id: DocId::new("nodes") },
        DocKey { space: DocSpace::new("aviation"), id: DocId::new("flights") },
    ];
    let nodes = vec![id(1), id(2)];
    let reqs = plan_sync_requests(&docs, &nodes);
    assert_eq!(reqs.len(), 4);
    assert_eq!(reqs[0].node_id.bytes, [1u8; 32]);
    assert_eq!(reqs[0].doc_id.as_str(), "nodes");
    assert_eq!(reqs[1].node_id.bytes, [2u8; 32]);
    assert_eq!(reqs[1].doc_id.as_str(), "nodes");
    assert_eq!(reqs[2].node_id.bytes, [1u8; 32]);
    assert_eq!(reqs[2].doc_space.as_str(), "aviation");
    assert_eq!(reqs[3].doc_id.as_str(), "flights");
}

#[test]
fn a_round_without_remote_nodes_asks_nothing() {
    let docs = vec![DocKey { space: DocSpace::new("protocol"), id: DocId::new("nodes") }];
    assert_eq!(plan_sync_requests(&docs, &vec![]).len(), 0);
    assert_eq!(select_remote_nodes(&vec![Some(id(0))], &id(0)).len(), 0);
}

#[test]
fn only_successful_requests_count() {
    assert_eq!(count_successful(&vec![true, false, true]), 2);
    assert_eq!(count_successful(&vec![]), 0);
}

fn nodes_doc(ids: &[&str]) -> Document {
    Document::Nodes(Nodes {
        nodes: ids.iter().map(|i| Node { id: i.to_string(), signature: String::new() }).collect(),
    })
}

fn parse_id(text: &str) -> Option<NodeId> {
    text.parse::<u8>().ok().map(id)
}

/// One round of the periodic sync, given what reading the nodes document gave
/// and the documents kept: the requests and the number that succeeded, where
/// every request succeeds.
fn round(loaded: Result<Document, sync::Error>, kept: &[(&str, &str)], local: u8) -> Result<(Vec<atman::periodic_sync::SyncRequest>, usize), Error> {
    let ids = listed_node_ids(loaded)?;
    let parsed: Vec<Option<NodeId>> = ids.iter().map(|t| parse_id(t)).collect();
    let nodes = select_remote_nodes(&parsed, &id(local));
    let mut store: sync::SyncmanStore<()> = sync::SyncmanStore::new();
    for (s, i) in kept {
        store.insert(&DocSpace::new(s), &DocId::new(i), ());
    }
    let docs = store.list_documents();
    let reqs = plan_sync_requests(&docs, &nodes);
    let results: Vec<bool> = reqs.iter().map(|_| true).collect();
    let n = count_successful(&results);
    Ok((reqs, n))
}

#[test]
fn sync_tick_when_no_nodes_doc() {
    // A fresh node: no state is kept, and the registry is the default one.
    let store: sync::SyncmanStore<()> = sync::SyncmanStore::new();
    let resolver = atman::doc::DocumentResolver::new();
    let space = DocSpace::new(atman::doc::protocol::DOC_SPACE);
    let doc_id = DocId::new(atman::doc::protocol::nodes::DOC_ID);
    let loaded = match store.prepare_get(&resolver, &space, &doc_id) {
        Ok(_) => panic!("a fresh node has no nodes document"),
        Err(e) => Err(e),
    };
    let Err(Error::Sync(sync::Error::DocumentNotFound { doc_space, doc_id })) = round(loaded, &[], 0) else {
        panic!("expected DocumentNotFound error");
    };
    assert_eq!(doc_space.as_str(), atman::doc::protocol::DOC_SPACE);
    assert_eq!(doc_id.as_str(), atman::doc::protocol::nodes::DOC_ID);
}

#[test]
fn sync_tick_when_empty_nodes_doc() {
    let (reqs, successful_syncs) = round(Ok(nodes_doc(&[])), &[("protocol", "nodes")], 0).ok().unwrap();
    assert_eq!(successful_syncs, 0);
    assert!(reqs.is_empty());
}

#[test]
fn sync_tick_single_doc() {
    let (reqs, successful_syncs) = round(Ok(nodes_doc(&["1", "2", "0"])), &[("protocol", "nodes")], 0).ok().unwrap();
    assert_eq!(successful_syncs, 2);
    let mut remote: Vec<[u8; 32]> = vec![[1u8; 32], [2u8; 32]];
    for r in &reqs {
        let pos = remote.iter().position(|k| *k == r.node_id.bytes).expect("a remote node");
        remote.remove(pos);
        assert_eq!(r.doc_space.as_str(), atman::doc::protocol::DOC_SPACE);
        assert_eq!(r.doc_id.as_str(), atman::doc::protocol::nodes::DOC_ID);
    }
    assert!(remote.is_empty());
}

#[test]
fn a_round_plan_syncs_every_document_with_every_remote_node() {
    let parsed = vec![Some(id(2)), Some(id(0)), None, Some(id(2)), Some(id(3))];
    let docs = vec![DocKey { space: DocSpace::new("protocol"), id: DocId::new("nodes") }];
    let (nodes, reqs) = atman::periodic_sync::plan_round(&parsed, &id(0), &docs);
    assert_eq!(nodes.len(), 2);
    assert_eq!(reqs.len(), 2);
    let (none, empty) = atman::periodic_sync::plan_round(&vec![Some(id(0))], &id(0), &docs);
    assert!(none.is_empty() && empty.is_empty());
}
