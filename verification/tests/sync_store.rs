use atman::doc::protocol::node::Node;
use atman::doc::protocol::{self as proto, nodes};
use atman::doc::Document;
use atman::doc::aviation::{self, flight, flights};
use atman::doc::{DocId, DocSpace, DocumentKind, DocumentResolver};
use atman::sync::{Error, Preparation, SyncmanStore};

#[test]
fn known_documents_start_from_their_empty_form() {
    let resolver = DocumentResolver::new();
    let store: SyncmanStore<u32> = SyncmanStore::new();
    let a = DocSpace::new(aviation::DOC_SPACE);
    match store.prepare_initial_syncman(&resolver, &a, &DocId::new(flights::DOC_ID)) {
        Ok(Preparation::Load(d)) => assert_eq!(d, &flights::INITIAL_DOC[..]),
        _ => panic!("flights starts from its empty form"),
    }
    assert!(matches!(
        store.prepare_initial_syncman(&resolver, &a, &DocId::new(flight::DOC_ID)),
        Err(Error::InitialDocumentNotRegistered { .. })
    ));
}

#[test]
fn kept_documents_need_no_preparation() {
    let resolver = DocumentResolver::new();
    let mut store: SyncmanStore<u32> = SyncmanStore::new();
    let a = DocSpace::new(aviation::DOC_SPACE);
    let f = DocId::new(flights::DOC_ID);
    store.insert(&a, &f, 7);
    assert!(store.contains(&a, &f));
    assert!(matches!(store.prepare_initial_syncman(&resolver, &a, &f), Ok(Preparation::Present)));
    assert_eq!(*store.find(&a, &f).ok().unwrap(), 7);
    *store.find_mut(&a, &f).ok().unwrap() = 8;
    assert_eq!(*store.find(&a, &f).ok().unwrap(), 8);
    match store.hydrate_target(&resolver, &a, &f) {
        Ok((v, k)) => {
            assert_eq!(*v, 8);
            assert_eq!(k, DocumentKind::Flights);
        }
        Err(_) => panic!("kept and supported"),
    }
}

#[test]
fn missing_documents_are_not_found() {
    let resolver = DocumentResolver::new();
    let mut store: SyncmanStore<u32> = SyncmanStore::new();
    let a = DocSpace::new(aviation::DOC_SPACE);
    assert!(matches!(store.find(&a, &DocId::new(flight::DOC_ID)), Err(Error::DocumentNotFound { .. })));
    assert!(matches!(store.find_mut(&a, &DocId::new("x")), Err(Error::DocumentNotFound { .. })));
    assert!(matches!(
        store.hydrate_target(&resolver, &a, &DocId::new(flight::DOC_ID)),
        Err(Error::DocumentNotFound { .. })
    ));
    store.insert(&a, &DocId::new("x"), 1);
    assert!(matches!(
        store.hydrate_target(&resolver, &a, &DocId::new("x")),
        Err(Error::Document(atman::doc::Error::UnsupportedDoc { .. }))
    ));
}

#[test]
fn documents_are_listed_once() {
    let mut store: SyncmanStore<u32> = SyncmanStore::new();
    let a = DocSpace::new("s");
    store.insert(&a, &DocId::new("x"), 1);
    store.insert(&a, &DocId::new("y"), 2);
    store.insert(&a, &DocId::new("x"), 3);
    let docs = store.list_documents();
    assert_eq!(docs.len(), 2);
    assert_eq!(docs[0].id.as_str(), "x");
    assert_eq!(docs[1].id.as_str(), "y");
}

#[test]
fn handler_errors_come_in_order() {
    let resolver = DocumentResolver::new();
    let store: SyncmanStore<u32> = SyncmanStore::new();
    let a = DocSpace::new(aviation::DOC_SPACE);
    let doc = || Document::Node(Node { id: "n".to_string(), signature: String::new() });
    // A parse error comes before anything about the state.
    match store.prepare_update(&resolver, &a, &DocId::new(flight::DOC_ID), Err(atman::doc::Error::Json("eof".to_string()))) {
        Err(Error::Document(atman::doc::Error::Json(m))) => assert_eq!(m, "eof"),
        _ => panic!("expected the parse error"),
    }
    // A document with no empty form and no state cannot be updated.
    assert!(matches!(
        store.prepare_update(&resolver, &a, &DocId::new(flight::DOC_ID), Ok(doc())),
        Err(Error::InitialDocumentNotRegistered { .. })
    ));
    assert!(matches!(
        store.prepare_update(&resolver, &a, &DocId::new(flights::DOC_ID), Ok(doc())),
        Ok((_, Preparation::Load(_)))
    ));
    // Inserting into a list needs the collection's state.
    assert!(matches!(
        store.prepare_list_insert(&a, &DocId::new(flights::DOC_ID), Ok(doc())),
        Err(Error::DocumentNotFound { .. })
    ));
    let mut kept = SyncmanStore::new();
    kept.insert(&a, &DocId::new(flights::DOC_ID), 1u32);
    assert!(matches!(kept.prepare_list_insert(&a, &DocId::new(flights::DOC_ID), Ok(doc())), Ok(_)));
    // Reading starts a known document from its empty form.
    assert!(matches!(
        store.prepare_get(&resolver, &a, &DocId::new(flights::DOC_ID)),
        Ok((Preparation::Load(_), DocumentKind::Flights))
    ));
    // A fresh node has no nodes document.
    let p = DocSpace::new(proto::DOC_SPACE);
    assert!(matches!(
        store.prepare_get(&resolver, &p, &DocId::new(nodes::DOC_ID)),
        Err(Error::DocumentNotFound { .. })
    ));
    assert!(matches!(store.prepare_get(&resolver, &a, &DocId::new(flight::DOC_ID)), Err(Error::DocumentNotFound { .. })));
    assert!(matches!(kept.prepare_get(&resolver, &a, &DocId::new(flights::DOC_ID)), Ok((Preparation::Present, DocumentKind::Flights))));
    kept.insert(&a, &DocId::new("other"), 2u32);
    assert!(matches!(
        kept.prepare_get(&resolver, &a, &DocId::new("other")),
        Err(Error::Document(atman::doc::Error::UnsupportedDoc { .. }))
    ));
}
