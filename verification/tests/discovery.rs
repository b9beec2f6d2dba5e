use atman::discovery::register_local_node;
use atman::doc::aviation::flights::Flights;
use atman::doc::protocol::node::Node;
use atman::doc::protocol::nodes::Nodes;
use atman::doc::{DocId, DocSpace, Document};
use atman::error::Error;
use atman::sync;

fn not_found() -> sync::Error {
    sync::Error::DocumentNotFound { doc_space: DocSpace::new("protocol"), doc_id: DocId::new("nodes") }
}

#[test]
fn local_node_is_added_to_a_missing_nodes_document() {
    let nodes = match register_local_node(Err(not_found()), "local".to_string()) {
        Ok(Some(n)) => n,
        _ => panic!("a missing document counts as empty"),
    };
    assert_eq!(nodes.nodes().len(), 1);
    assert_eq!(nodes.nodes()[0].id, "local");
    assert_eq!(nodes.nodes()[0].signature, "");
    // Registering again changes nothing.
    assert!(matches!(register_local_node(Ok(Document::Nodes(nodes)), "local".to_string()), Ok(None)));
}

#[test]
fn local_node_is_added_at_the_end() {
    let doc = Document::Nodes(Nodes { nodes: vec![Node { id: "other".to_string(), signature: "sig".to_string() }] });
    let nodes = match register_local_node(Ok(doc), "local".to_string()) {
        Ok(Some(n)) => n,
        _ => panic!("local node is not listed yet"),
    };
    assert_eq!(nodes.nodes().len(), 2);
    assert_eq!(nodes.nodes()[0].id, "other");
    assert_eq!(nodes.nodes()[1].id, "local");
}

#[test]
fn other_documents_and_errors_are_refused() {
    let doc = Document::Flights(Flights { flights: vec![] });
    assert!(matches!(register_local_node(Ok(doc), "l".to_string()), Err(Error::UnexpectedDocumentType)));
    let err = sync::Error::Io { message: "m".to_string(), cause: "c".to_string() };
    assert!(matches!(register_local_node(Err(err), "l".to_string()), Err(Error::Sync(sync::Error::Io { .. }))));
}

#[test]
fn test_save_local_node_id() {
    let local_node_id = "local-node".to_string();
    // Add the local node id to the missing nodes document.
    let nodes = match register_local_node(Err(not_found()), local_node_id.clone()) {
        Ok(Some(n)) => n,
        _ => panic!("the local node must be added"),
    };
    assert!(nodes.nodes().iter().any(|node| node.id == local_node_id));
    assert_eq!(nodes.nodes().len(), 1);

    // Try again. The nodes document should remain unchanged.
    assert!(matches!(register_local_node(Ok(Document::Nodes(nodes)), local_node_id.clone()), Ok(None)));
}
