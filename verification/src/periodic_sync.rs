//! The decisions of a periodic sync round: which nodes to sync with, which
//! requests to make, and how many of them succeeded.
use vstd::prelude::*;

use crate::doc::{DocId, DocKey, DocSpace, Document};
use crate::error::Error;
use crate::keyed::KeyLike;
use crate::models::NodeId;
use crate::sync;

verus! {

/// The ids (in text form) of the nodes that a nodes document lists, in order,
/// given what reading it gave: `UnexpectedDocumentType` where it is not a
/// nodes document, and the sync actor's errors as they are.
pub fn listed_node_ids(loaded: Result<Document, sync::Error>) -> (res: Result<Vec<String>, Error>)
    ensures
        match loaded {
            Ok(Document::Nodes(n)) => res matches Ok(v) && v@.len() == n.nodes@.len() && forall|i: int|
                0 <= i < v@.len() ==> #[trigger] v@[i]@ == n.nodes@[i].id@,
            Ok(_) => res matches Err(Error::UnexpectedDocumentType),
            Err(e) => res matches Err(Error::Sync(x)) && x == e,
        },
{
    let nodes = match loaded {
        Ok(Document::Nodes(n)) => n,
        Ok(_) => return Err(Error::UnexpectedDocumentType),
        Err(e) => return Err(Error::Sync(e)),
    };
    let mut out: Vec<String> = Vec::new();
    let mut i: usize = 0;
    while i < nodes.nodes.len()
        invariant
            i <= nodes.nodes@.len(),
            out@.len() == i,
            forall|j: int| 0 <= j < i ==> #[trigger] out@[j]@ == nodes.nodes@[j].id@,
        decreases nodes.nodes@.len() - i,
    {
        out.push(nodes.nodes[i].id.clone());
        i = i + 1;
    }
    Ok(out)
}

/// The keys of the parsed ids in `parsed` other than `local`.
pub open spec fn remote_keys(parsed: Seq<Option<NodeId>>, local: Seq<u8>) -> Set<Seq<u8>> {
    Set::new(
        |k: Seq<u8>|
            k != local && exists|i: int|
                0 <= i < parsed.len() && (#[trigger] parsed[i] matches Some(p) && p.key_view() == k),
    )
}

/// The key views of `ids`.
pub open spec fn node_keys(ids: Seq<NodeId>) -> Seq<Seq<u8>> {
    ids.map_values(|n: NodeId| n.key_view())
}

/// The local node is never synced with, and every other node whose id parsed
/// is.
pub proof fn lemma_remote_keys_members(parsed: Seq<Option<NodeId>>, local: Seq<u8>, i: int)
    ensures
        !remote_keys(parsed, local).contains(local),
        0 <= i < parsed.len() && parsed[i] is Some && parsed[i]->0.key_view() != local ==> remote_keys(
            parsed,
            local,
        ).contains(parsed[i]->0.key_view()),
        (forall|j: int| 0 <= j < parsed.len() ==> (#[trigger] parsed[j]) is None) ==> remote_keys(
            parsed,
            local,
        ) == Set::<Seq<u8>>::empty(),
{
    if (forall|j: int| 0 <= j < parsed.len() ==> (#[trigger] parsed[j]) is None) {
        assert(remote_keys(parsed, local) =~= Set::<Seq<u8>>::empty());
    }
}

/// Whether `ids` holds a node with the key of `n`.
pub(crate) fn holds(ids: &Vec<NodeId>, n: &NodeId) -> (res: bool)
    ensures
        res == node_keys(ids@).contains(n.key_view()),
{
    let mut i: usize = 0;
    while i < ids.len()
        invariant
            i <= ids@.len(),
            forall|j: int| 0 <= j < i ==> ids@[j].key_view() != n.key_view(),
        decreases ids@.len() - i,
    {
        if ids[i].same_key(n) {
            assert(node_keys(ids@)[i as int] == n.key_view());
            return true;
        }
        i = i + 1;
    }
    proof {
        if node_keys(ids@).contains(n.key_view()) {
            let j = choose|j: int| 0 <= j < node_keys(ids@).len() && node_keys(ids@)[j] == n.key_view();
            assert(ids@[j].key_view() == n.key_view());
        }
    }
    false
}

/// The nodes to sync with, as a set: the ids that parsed (`Some`), other than
/// the local node's, each once.
pub fn select_remote_nodes(parsed: &Vec<Option<NodeId>>, local: &NodeId) -> (res: Vec<NodeId>)
    ensures
        node_keys(res@).no_duplicates(),
        node_keys(res@).to_set() == remote_keys(parsed@, local.key_view()),
{
    let mut out: Vec<NodeId> = Vec::new();
    let mut i: usize = 0;
    while i < parsed.len()
        invariant
            i <= parsed@.len(),
            node_keys(out@).no_duplicates(),
            node_keys(out@).to_set() == remote_keys(parsed@.take(i as int), local.key_view()),
        decreases parsed@.len() - i,
    {
        let ghost before = out@;
        let ghost lk = local.key_view();
        let ghost pre = parsed@.take(i as int);
        let ghost cur = parsed@.take(i + 1);
        proof {
            assert(cur =~= pre.push(parsed@[i as int]));
            lemma_remote_keys_push(pre, parsed@[i as int], lk);
        }
        if let Some(p) = &parsed[i] {
            if !p.same_key(local) && !holds(&out, p) {
                out.push(p.copy_key());
                proof {
                    assert(node_keys(out@) =~= node_keys(before).push(p.key_view()));
                    node_keys(before).lemma_push_to_set_commute(p.key_view());
                    assert(node_keys(out@).to_set() =~= node_keys(before).to_set().insert(p.key_view()));
                    assert(node_keys(out@).no_duplicates()) by {
                        assert forall|a: int, b: int| 0 <= a < b < node_keys(out@).len() implies node_keys(out@)[a] != node_keys(out@)[b] by {
                            if b == before.len() {
                                assert(node_keys(before).contains(node_keys(before)[a]));
                            }
                        }
                    }
                    assert(node_keys(out@).to_set() =~= remote_keys(cur, lk));
                }
            } else {
                proof {
                    assert(node_keys(out@).to_set() =~= remote_keys(cur, lk));
                }
            }
        } else {
            proof {
                assert(node_keys(out@).to_set() =~= remote_keys(cur, lk));
            }
        }
        i = i + 1;
    }
    proof {
        assert(parsed@.take(parsed@.len() as int) =~= parsed@);
    }
    out
}

/// Adding one parse result to the list adds its key, where it parsed and is
/// not the local one.
proof fn lemma_remote_keys_push(pre: Seq<Option<NodeId>>, x: Option<NodeId>, local: Seq<u8>)
    ensures
        remote_keys(pre.push(x), local) == (match x {
            Some(p) => if p.key_view() != local {
                remote_keys(pre, local).insert(p.key_view())
            } else {
                remote_keys(pre, local)
            },
            None => remote_keys(pre, local),
        }),
{
    let cur = pre.push(x);
    let expected = match x {
        Some(p) => if p.key_view() != local {
            remote_keys(pre, local).insert(p.key_view())
        } else {
            remote_keys(pre, local)
        },
        None => remote_keys(pre, local),
    };
    assert forall|k: Seq<u8>| #[trigger] remote_keys(cur, local).contains(k) == expected.contains(k) by {
        if remote_keys(cur, local).contains(k) {
            let j = choose|j: int|
                0 <= j < cur.len() && (#[trigger] cur[j] matches Some(p) && p.key_view() == k);
            if j < pre.len() {
                assert(pre[j] == cur[j]);
            }
        }
        if remote_keys(pre, local).contains(k) {
            let j = choose|j: int|
                0 <= j < pre.len() && (#[trigger] pre[j] matches Some(p) && p.key_view() == k);
            assert(cur[j] == pre[j]);
        }
        if let Some(p) = x {
            if p.key_view() == k && k != local {
                assert(cur[pre.len() as int] == x);
            }
        }
    }
    assert(remote_keys(cur, local) =~= expected);
}

/// A request to sync one document with one node.
pub struct SyncRequest {
    pub node_id: NodeId,
    pub doc_space: DocSpace,
    pub doc_id: DocId,
}

impl SyncRequest {
    /// The node's key and the document's address.
    pub open spec fn view(&self) -> (Seq<u8>, (Seq<char>, Seq<char>)) {
        (self.node_id.key_view(), (self.doc_space@, self.doc_id@))
    }
}

/// The requests of a round: for each document in order, one per node in
/// order.
pub open spec fn round_requests(docs: Seq<(Seq<char>, Seq<char>)>, nodes: Seq<Seq<u8>>) -> Seq<
    (Seq<u8>, (Seq<char>, Seq<char>)),
>
    decreases docs.len(),
{
    if docs.len() == 0 {
        Seq::empty()
    } else {
        round_requests(docs.drop_last(), nodes) + nodes.map_values(
            |n: Seq<u8>| (n, docs.last()),
        )
    }
}

/// The key views of document addresses.
pub open spec fn doc_keys(docs: Seq<DocKey>) -> Seq<(Seq<char>, Seq<char>)> {
    docs.map_values(|d: DocKey| d.key_view())
}

/// The requests of a round that syncs every document of `docs` with every
/// node of `nodes`: for each document in order, one per node in order.
pub fn plan_sync_requests(docs: &Vec<DocKey>, nodes: &Vec<NodeId>) -> (res: Vec<SyncRequest>)
    ensures
        res@.map_values(|r: SyncRequest| r.view()) == round_requests(doc_keys(docs@), node_keys(nodes@)),
{
    let mut out: Vec<SyncRequest> = Vec::new();
    let mut d: usize = 0;
    while d < docs.len()
        invariant
            d <= docs@.len(),
            out@.map_values(|r: SyncRequest| r.view()) == round_requests(doc_keys(docs@.take(d as int)), node_keys(nodes@)),
        decreases docs@.len() - d,
    {
        let ghost before = out@.map_values(|r: SyncRequest| r.view());
        let mut j: usize = 0;
        while j < nodes.len()
            invariant
                d < docs@.len(),
                j <= nodes@.len(),
                out@.map_values(|r: SyncRequest| r.view()) == before + node_keys(nodes@).take(j as int).map_values(
                    |n: Seq<u8>| (n, docs@[d as int].key_view()),
                ),
            decreases nodes@.len() - j,
        {
            let ghost prev = out@;
            let r = SyncRequest {
                node_id: nodes[j].copy_key(),
                doc_space: docs[d].space.duplicate(),
                doc_id: docs[d].id.duplicate(),
            };
            assert(r.view() == (node_keys(nodes@)[j as int], docs@[d as int].key_view()));
            out.push(r);
            j = j + 1;
            proof {
                assert(out@ == prev.push(r));
                assert(out@.map_values(|r: SyncRequest| r.view()) =~= prev.map_values(|r: SyncRequest| r.view()).push(r.view()));
                assert(node_keys(nodes@).take(j as int) =~= node_keys(nodes@).take((j - 1) as int).push(node_keys(nodes@)[j - 1]));
                assert(out@.map_values(|r: SyncRequest| r.view()) =~= before + node_keys(nodes@).take(j as int).map_values(
                    |n: Seq<u8>| (n, docs@[d as int].key_view()),
                ));
            }
        }
        d = d + 1;
        proof {
            let ds = doc_keys(docs@.take(d as int));
            assert(ds.drop_last() =~= doc_keys(docs@.take((d - 1) as int)));
            assert(ds.last() == docs@[d - 1].key_view());
            assert(node_keys(nodes@).take(nodes@.len() as int) =~= node_keys(nodes@));
        }
    }
    proof {
        assert(docs@.take(docs@.len() as int) =~= docs@);
    }
    out
}

/// The plan of one sync round: the nodes to sync with (the ids that parsed,
/// other than the local one, each once) and the requests that sync every
/// document of `docs` with each of them, for each document in order. Where
/// no remote node is left, the round asks nothing.
pub fn plan_round(parsed: &Vec<Option<NodeId>>, local: &NodeId, docs: &Vec<DocKey>) -> (res: (Vec<NodeId>, Vec<SyncRequest>))
    ensures
        node_keys(res.0@).no_duplicates(),
        node_keys(res.0@).to_set() == remote_keys(parsed@, local.key_view()),
        res.1@.map_values(|r: SyncRequest| r.view()) == round_requests(doc_keys(docs@), node_keys(res.0@)),
        res.1@.len() == docs@.len() * res.0@.len(),
{
    let nodes = select_remote_nodes(parsed, local);
    let requests = plan_sync_requests(docs, &nodes);
    proof {
        lemma_round_size(doc_keys(docs@), node_keys(nodes@));
        assert(requests@.map_values(|r: SyncRequest| r.view()).len() == requests@.len());
    }
    (nodes, requests)
}

/// A round has one request for each pair of a document and a node.
pub proof fn lemma_round_size(docs: Seq<(Seq<char>, Seq<char>)>, nodes: Seq<Seq<u8>>)
    ensures
        round_requests(docs, nodes).len() == docs.len() * nodes.len(),
    decreases docs.len(),
{
    if docs.len() > 0 {
        lemma_round_size(docs.drop_last(), nodes);
        assert(docs.len() * nodes.len() == (docs.len() - 1) * nodes.len() + nodes.len()) by (nonlinear_arith);
    }
}

/// A round asks for every pair of a document and a node.
pub proof fn lemma_round_covers(docs: Seq<(Seq<char>, Seq<char>)>, nodes: Seq<Seq<u8>>, d: int, j: int)
    requires
        0 <= d < docs.len(),
        0 <= j < nodes.len(),
    ensures
        round_requests(docs, nodes).contains((nodes[j], docs[d])),
    decreases docs.len(),
{
    let r = round_requests(docs, nodes);
    let tail = nodes.map_values(|n: Seq<u8>| (n, docs.last()));
    if d == docs.len() - 1 {
        assert(r[r.len() - tail.len() + j] == tail[j]);
    } else {
        lemma_round_covers(docs.drop_last(), nodes, d, j);
        let head = round_requests(docs.drop_last(), nodes);
        let k = choose|k: int| 0 <= k < head.len() && head[k] == (nodes[j], docs[d]);
        assert(r[k] == head[k]);
    }
}

/// The number of `true` in `s`.
pub open spec fn count_true(s: Seq<bool>) -> nat
    decreases s.len(),
{
    if s.len() == 0 {
        0
    } else {
        count_true(s.drop_last()) + if s.last() {
            1nat
        } else {
            0nat
        }
    }
}

/// Counting successes adds up: the successes of two lists of results
/// together are those of each; a failure adds nothing and a success adds one;
/// no results count nothing; and never more than there are results.
pub proof fn lemma_count_true_adds(s: Seq<bool>, t: Seq<bool>)
    ensures
        count_true(s + t) == count_true(s) + count_true(t),
        count_true(Seq::<bool>::empty()) == 0,
        count_true(seq![false]) == 0,
        count_true(seq![true]) == 1,
        count_true(s) <= s.len(),
    decreases t.len(),
{
    assert(seq![false].drop_last() =~= Seq::<bool>::empty());
    assert(seq![true].drop_last() =~= Seq::<bool>::empty());
    if t.len() == 0 {
        assert(s + t =~= s);
        lemma_count_true_le(s);
    } else {
        lemma_count_true_adds(s, t.drop_last());
        assert((s + t).drop_last() =~= s + t.drop_last());
        assert((s + t).last() == t.last());
    }
}

/// There are no more successes than results.
proof fn lemma_count_true_le(s: Seq<bool>)
    ensures
        count_true(s) <= s.len(),
    decreases s.len(),
{
    if s.len() > 0 {
        lemma_count_true_le(s.drop_last());
    }
}

/// Where every request failed, the round reports no success; where every
/// request succeeded, it reports one per request.
pub proof fn lemma_count_true_extremes(s: Seq<bool>)
    ensures
        (forall|i: int| 0 <= i < s.len() ==> !s[i]) ==> count_true(s) == 0,
        (forall|i: int| 0 <= i < s.len() ==> s[i]) ==> count_true(s) == s.len(),
    decreases s.len(),
{
    if s.len() > 0 {
        lemma_count_true_extremes(s.drop_last());
        assert forall|i: int| 0 <= i < s.len() - 1 implies s.drop_last()[i] == s[i] by {}
    }
}

/// The number of requests that succeeded, given whether each did.
pub fn count_successful(results: &Vec<bool>) -> (res: usize)
    ensures
        res == count_true(results@),
{
    let mut n: usize = 0;
    let mut i: usize = 0;
    while i < results.len()
        invariant
            i <= results@.len(),
            n == count_true(results@.take(i as int)),
            n <= i,
        decreases results@.len() - i,
    {
        if results[i] {
            n = n + 1;
        }
        i = i + 1;
        proof {
            assert(results@.take(i as int).drop_last() =~= results@.take((i - 1) as int));
        }
    }
    proof {
        assert(results@.take(results@.len() as int) =~= results@);
    }
    n
}

} // verus!
