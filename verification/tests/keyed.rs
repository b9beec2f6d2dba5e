use atman::doc::{DocId, DocKey, DocSpace};
use atman::keyed::KeyedMap;

fn key(s: &str, i: &str) -> DocKey {
    DocKey { space: DocSpace::new(s), id: DocId::new(i) }
}

#[test]
fn keyed_map_reads_back_what_was_written() {
    let mut m: KeyedMap<DocKey, u32> = KeyedMap::new();
    assert_eq!(m.insert(key("a", "b"), 1), None);
    assert_eq!(m.insert(key("a", "c"), 2), None);
    assert_eq!(m.insert(key("a", "b"), 3), Some(1));
    assert_eq!(m.len(), 2);
    assert_eq!(m.get(&key("a", "b")), Some(&3));
    assert_eq!(m.get(&key("a", "c")), Some(&2));
    assert_eq!(m.get(&key("b", "a")), None);
    assert!(m.contains_key(&key("a", "c")));
    *m.get_mut(&key("a", "c")).unwrap() += 5;
    assert_eq!(m.get(&key("a", "c")), Some(&7));
    let keys = m.keys();
    assert_eq!(keys.len(), 2);
    assert_eq!(keys[0].id.as_str(), "b");
}
