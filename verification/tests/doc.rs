use atman::doc::aviation::{self, flights};
use atman::doc::protocol::{self, nodes};
use atman::doc::{DocId, DocSpace, Document, DocumentKind, DocumentResolver, Error};

#[test]
fn unsupported() {
    let resolver = DocumentResolver::new();
    assert!(matches!(
        resolver.deserialize(&DocSpace::new(aviation::DOC_SPACE), &DocId::new("dummy")),
        Err(Error::UnsupportedDoc { .. })
    ));
}

#[test]
fn deserialize_flights() {
    let resolver = DocumentResolver::new();
    let kind = resolver
        .deserialize(&DocSpace::new(aviation::DOC_SPACE), &DocId::new(flights::DOC_ID))
        .ok()
        .unwrap();
    assert_eq!(kind, DocumentKind::Flights);
}

#[test]
fn deserialize_flight() {
    let resolver = DocumentResolver::new();
    let kind = resolver
        .deserialize(&DocSpace::new(aviation::DOC_SPACE), &DocId::new(aviation::flight::DOC_ID))
        .ok()
        .unwrap();
    assert_eq!(kind, DocumentKind::Flight);
}

#[test]
fn registry_knows_the_starting_documents() {
    let resolver = DocumentResolver::new();
    let p = DocSpace::new(protocol::DOC_SPACE);
    assert_eq!(resolver.kind_of(&p, &DocId::new(nodes::DOC_ID)), Some(DocumentKind::Nodes));
    assert_eq!(resolver.kind_of(&p, &DocId::new(protocol::node::DOC_ID)), Some(DocumentKind::Node));
    assert_eq!(resolver.kind_of(&p, &DocId::new(flights::DOC_ID)), None);
    // A fresh node has no nodes document until one is saved.
    assert_eq!(resolver.initial_document(&p, &DocId::new(nodes::DOC_ID)), None);
    let a = DocSpace::new(aviation::DOC_SPACE);
    assert_eq!(
        resolver.initial_document(&a, &DocId::new(flights::DOC_ID)),
        Some(&flights::INITIAL_DOC[..])
    );
    assert_eq!(resolver.initial_document(&a, &DocId::new(aviation::flight::DOC_ID)), None);
    assert!(matches!(resolver.hydrate(&a, &DocId::new("x")), Err(Error::UnsupportedDoc { .. })));
}

#[test]
fn registering_again_replaces_the_registration() {
    let mut resolver = DocumentResolver::new();
    let a = DocSpace::new(aviation::DOC_SPACE);
    resolver.register(DocSpace::new(aviation::DOC_SPACE), DocId::new("flight"), DocumentKind::Node, Some(vec![1, 2]));
    assert_eq!(resolver.kind_of(&a, &DocId::new("flight")), Some(DocumentKind::Node));
    assert_eq!(resolver.initial_document(&a, &DocId::new("flight")), Some(&[1u8, 2][..]));
    resolver.register(DocSpace::new("other"), DocId::new("new"), DocumentKind::Flight, None);
    assert_eq!(resolver.kind_of(&DocSpace::new("other"), &DocId::new("new")), Some(DocumentKind::Flight));
}

#[test]
fn names_compare_by_text() {
    let s = DocSpace::new("aviation");
    assert!(s.eq_str("aviation"));
    assert!(!s.eq_str("aviatio"));
    assert!(s.same(&DocSpace::from(String::from("aviation"))));
    assert_eq!(s.as_bytes(), b"aviation");
    assert!(DocId::try_from_bytes(&[0xff]).is_none());
    assert_eq!(DocId::try_from_bytes("é".as_bytes()).unwrap().as_str(), "é");
}

#[test]
fn document_kind_follows_its_variant() {
    let d = Document::Nodes(nodes::Nodes { nodes: vec![] });
    assert_eq!(d.kind(), DocumentKind::Nodes);
    let n = nodes::Nodes::new();
    assert!(n.nodes().is_empty());
}
