//! Registration of the local node in the nodes document.
use vstd::prelude::*;

use crate::doc::protocol::node::Node;
use crate::doc::protocol::nodes::Nodes;
use crate::doc::Document;
use crate::error::Error;
use crate::sync;

verus! {

/// A node entry's id and signature.
pub type NodeEntry = (Seq<char>, Seq<char>);

/// Whether some entry of `nodes` has the id `id`.
pub open spec fn lists_node(nodes: Seq<NodeEntry>, id: Seq<char>) -> bool {
    exists|i: int| 0 <= i < nodes.len() && #[trigger] nodes[i].0 == id
}

/// The nodes document to save so that it lists `local`: `None` where it lists
/// it already, else the entries with `local` (and an empty signature) added
/// at the end.
pub open spec fn with_local_node(nodes: Seq<NodeEntry>, local: Seq<char>) -> Option<Seq<NodeEntry>> {
    if lists_node(nodes, local) {
        None
    } else {
        Some(nodes.push((local, Seq::<char>::empty())))
    }
}

/// Registering a node twice changes nothing the second time.
pub proof fn lemma_registration_idempotent(nodes: Seq<NodeEntry>, local: Seq<char>)
    ensures
        with_local_node(nodes, local) matches Some(m) ==> with_local_node(m, local) is None,
        with_local_node(nodes, local) matches Some(m) ==> lists_node(m, local),
{
    if let Some(m) = with_local_node(nodes, local) {
        assert(m[nodes.len() as int].0 == local);
    }
}

/// Registration looks at ids alone, whatever the signatures: where no entry
/// has the id `local`, the local node is added at the end with an empty
/// signature and the other entries are kept; where entry `i` has it, nothing
/// is saved.
pub proof fn lemma_registration_by_id(nodes: Seq<NodeEntry>, local: Seq<char>, i: int)
    ensures
        (forall|j: int| 0 <= j < nodes.len() ==> (#[trigger] nodes[j]).0 != local) ==> with_local_node(
            nodes,
            local,
        ) == Some(nodes.push((local, Seq::<char>::empty()))),
        0 <= i < nodes.len() && nodes[i].0 == local ==> with_local_node(nodes, local) is None,
{
    if 0 <= i < nodes.len() && nodes[i].0 == local {
        assert(lists_node(nodes, local));
    }
}

/// Whether an entry has the id `id`.
pub open spec fn id_is(id: Seq<char>) -> spec_fn(NodeEntry) -> bool {
    |e: NodeEntry| e.0 == id
}

/// The number of entries of `m` whose id is `id`.
pub open spec fn count_node(m: Seq<NodeEntry>, id: Seq<char>) -> nat {
    m.filter(id_is(id)).len()
}

/// After registration the local node is listed exactly once where it was not
/// listed before, and the other entries are kept in order.
pub proof fn lemma_registration_lists_once(nodes: Seq<NodeEntry>, local: Seq<char>)
    requires
        !lists_node(nodes, local),
    ensures
        with_local_node(nodes, local) matches Some(m) && count_node(m, local) == 1 && m.take(
            nodes.len() as int,
        ) == nodes,
{
    let m = nodes.push((local, Seq::<char>::empty()));
    let f = id_is(local);
    assert forall|k: int| 0 <= k < nodes.len() implies !f(#[trigger] nodes[k]) by {}
    assert(nodes.all(|x: NodeEntry| !f(x)));
    nodes.lemma_all_neg_filter_empty(f);
    assert(nodes.filter(f) =~= Seq::<NodeEntry>::empty());
    assert(m.drop_last() =~= nodes);
    assert(m.filter(f) == nodes.filter(f).push((local, Seq::<char>::empty()))) by {
        reveal_with_fuel(Seq::<_>::filter, 1);
    }
    assert(m.take(nodes.len() as int) =~= nodes);
}

/// Whether some node of `nodes` has the id `id`.
fn has_node(nodes: &Vec<Node>, id: &String) -> (res: bool)
    ensures
        res == lists_node(nodes@.map_values(|n: Node| n.view()), id@),
{
    let ghost v = nodes@.map_values(|n: Node| n.view());
    let mut i: usize = 0;
    while i < nodes.len()
        invariant
            i <= nodes@.len(),
            v == nodes@.map_values(|n: Node| n.view()),
            forall|j: int| 0 <= j < i ==> v[j].0 != id@,
        decreases nodes@.len() - i,
    {
        if nodes[i].id == *id {
            assert(v[i as int].0 == id@);
            return true;
        }
        i = i + 1;
    }
    false
}

/// What to save so that the nodes document lists the local node `local_id`,
/// given what reading the nodes document gave: `Ok(None)` where it lists it
/// already, `Ok(Some(nodes))` with the document to save, where a missing
/// document counts as an empty one; `UnexpectedDocumentType` where the
/// document is not a nodes document, and the sync actor's other errors as
/// they are.
pub fn register_local_node(loaded: Result<Document, sync::Error>, local_id: String) -> (res: Result<Option<Nodes>, Error>)
    ensures
        match loaded {
            Ok(Document::Nodes(n)) => match with_local_node(n.view(), local_id@) {
                None => res matches Ok(None),
                Some(m) => res matches Ok(Some(x)) && x.view() == m,
            },
            Ok(_) => res matches Err(Error::UnexpectedDocumentType),
            Err(sync::Error::DocumentNotFound { .. }) => res matches Ok(Some(x)) && x.view() == seq![(local_id@, Seq::<char>::empty())],
            Err(e) => res matches Err(Error::Sync(x)) && x == e,
        },
{
    let mut nodes = match loaded {
        Ok(Document::Nodes(n)) => n,
        Ok(_) => return Err(Error::UnexpectedDocumentType),
        Err(sync::Error::DocumentNotFound { .. }) => Nodes::new(),
        Err(e) => return Err(Error::Sync(e)),
    };
    if has_node(&nodes.nodes, &local_id) {
        return Ok(None);
    }
    let ghost before = nodes.view();
    nodes.nodes.push(Node { id: local_id, signature: String::new() });
    proof {
        assert(nodes.view() =~= before.push((local_id@, Seq::<char>::empty())));
    }
    Ok(Some(nodes))
}

} // verus!
