use atman::doc::aviation::{self, flights};
use atman::doc::protocol::{self, nodes};
use atman::doc::{DocId, DocSpace, DocumentKind, DocumentResolver};
use atman::network::{Config, RelayMode};
use atman::sync::{doc_id_of_syncman_file, syncman_file_name};

#[test]
fn relay_mode_follows_custom_url() {
    let custom = Config { key: None, custom_relay_url: Some("https://relay.example".to_string()) };
    match custom.relay_mode() {
        RelayMode::Custom(u) => assert_eq!(u, "https://relay.example"),
        RelayMode::Default => panic!("expected the custom relay"),
    }
    let default = Config { key: Some([7; 32]), custom_relay_url: None };
    assert!(matches!(default.relay_mode(), RelayMode::Default));
}

#[test]
fn syncman_file_names() {
    assert_eq!(syncman_file_name(&DocId::new("flights")), "flights.dat");
    assert_eq!(doc_id_of_syncman_file("flights.dat").map(|d| d.as_str().to_string()), Some("flights".to_string()));
    assert_eq!(doc_id_of_syncman_file("a.b.dat").map(|d| d.as_str().to_string()), Some("a.b".to_string()));
    assert!(doc_id_of_syncman_file(".dat").is_none());
    assert!(doc_id_of_syncman_file("a.txt").is_none());
    assert!(doc_id_of_syncman_file("noext").is_none());
    assert!(doc_id_of_syncman_file("a.dat.bak").is_none());
    let id = DocId::new("node");
    let name = syncman_file_name(&id);
    assert_eq!(doc_id_of_syncman_file(&name).map(|d| d.as_str().to_string()), Some("node".to_string()));
}

#[test]
fn default_resolver_knows_the_documents() {
    let resolver = DocumentResolver::default();
    let a = DocSpace::new(aviation::DOC_SPACE);
    let p = DocSpace::new(protocol::DOC_SPACE);
    assert_eq!(resolver.kind_of(&a, &DocId::new(flights::DOC_ID)), Some(DocumentKind::Flights));
    assert_eq!(resolver.kind_of(&p, &DocId::new(nodes::DOC_ID)), Some(DocumentKind::Nodes));
    assert_eq!(resolver.kind_of(&p, &DocId::new("unknown")), None);
    assert!(resolver.initial_document(&a, &DocId::new(flights::DOC_ID)).is_some());
}
