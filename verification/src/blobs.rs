//! The decisions of blob transfers: which kind of ticket a set of files gets,
//! where a received file is saved, when a transfer counts as completed, and
//! how many distinct receivers have fully pulled each ticket.
use vstd::prelude::*;

use crate::keyed::{KeyLike, KeyedMap};
use crate::models::NodeId;
use crate::periodic_sync::{holds, node_keys};
use crate::text::{
    decimal, joined, nonempty_pieces, push_char, push_decimal, push_str, split_at_last,
    split_at_last_char,
};

verus! {

/// Errors of blob transfers.
#[derive(Debug)]
pub enum Error {
    /// No file was given.
    Empty,
    /// Reading or writing a file failed.
    Io(String),
    /// A file's name is not valid UTF-8.
    InvalidFilename,
    /// The blob store or the transfer failed.
    Blob(String),
}

/// The two forms of ticket.
#[derive(PartialEq, Eq, Structural, Clone, Copy, Debug)]
pub enum BlobFormat {
    /// The ticket points at one raw blob.
    Raw,
    /// The ticket points at a collection of blobs.
    HashSeq,
}

/// The form of ticket that `count` files get: `Empty` for none, a raw ticket
/// for one, a collection for more.
pub fn ticket_format(count: usize) -> (res: Result<BlobFormat, Error>)
    ensures
        count == 0 ==> res matches Err(Error::Empty),
        count == 1 ==> res matches Ok(BlobFormat::Raw),
        count > 1 ==> res matches Ok(BlobFormat::HashSeq),
{
    if count == 0 {
        Err(Error::Empty)
    } else if count == 1 {
        Ok(BlobFormat::Raw)
    } else {
        Ok(BlobFormat::HashSeq)
    }
}

/// The name under which the file of a raw ticket is saved: the ticket's first
/// file name, or `unnamed` where it has none.
pub fn export_file_name(filenames: &Vec<String>) -> (res: String)
    ensures
        filenames@.len() > 0 ==> res@ == filenames@[0]@,
        filenames@.len() == 0 ==> res@ == "unnamed"@,
{
    if filenames.len() > 0 {
        filenames[0].clone()
    } else {
        crate::doc::owned_str("unnamed")
    }
}

/// The number of numbered names tried before falling back.
pub const NUMBERED_ATTEMPTS: u64 = 10000;

/// The name tried at `attempt` for a file called `name`: `name` itself first,
/// then `stem (attempt).ext`, where `stem` and `ext` are the text before and
/// after the last `.` (the whole name and nothing where it has none).
pub open spec fn candidate_name(name: Seq<char>, attempt: nat) -> Seq<char> {
    if attempt == 0 {
        name
    } else {
        let (stem, ext) = split_at_last(name, '.');
        stem + seq![' ', '('] + decimal(attempt) + seq![')', '.'] + ext
    }
}

/// The name tried at `attempt` for a file called `name`, while no file of
/// that name exists yet: `name`, then `stem (1).ext`, `stem (2).ext`, ...
pub fn unique_name_candidate(name: &str, attempt: u64) -> (res: String)
    ensures
        res@ == candidate_name(name@, attempt as nat),
{
    if attempt == 0 {
        return name.to_owned();
    }
    let (stem, ext) = split_at_last_char(name, '.');
    let mut out = stem;
    push_char(&mut out, ' ');
    push_char(&mut out, '(');
    push_decimal(&mut out, attempt);
    push_char(&mut out, ')');
    push_char(&mut out, '.');
    push_str(&mut out, ext.as_str());
    proof {
        let (s, e) = split_at_last(name@, '.');
        assert(out@ =~= s + seq![' ', '('] + decimal(attempt as nat) + seq![')', '.'] + e);
    }
    out
}

/// The name for a file called `name` once all numbered names are taken:
/// `stem-tag.ext`, where `tag` is the process id.
pub open spec fn fallback_name_spec(name: Seq<char>, tag: nat) -> Seq<char> {
    let (stem, ext) = split_at_last(name, '.');
    stem + seq!['-'] + decimal(tag) + seq!['.'] + ext
}

/// The name for a file called `name` once all numbered names are taken.
pub fn fallback_name(name: &str, tag: u32) -> (res: String)
    ensures
        res@ == fallback_name_spec(name@, tag as nat),
{
    let (stem, ext) = split_at_last_char(name, '.');
    let mut out = stem;
    push_char(&mut out, '-');
    push_decimal(&mut out, tag as u64);
    push_char(&mut out, '.');
    push_str(&mut out, ext.as_str());
    proof {
        let (s, e) = split_at_last(name@, '.');
        assert(out@ =~= s + seq!['-'] + decimal(tag as nat) + seq!['.'] + e);
    }
    out
}

/// What to do once it is known whether a file already has the name tried.
pub enum NameChoice {
    /// Save the file under this name.
    Take(String),
    /// Try the name of this attempt.
    TryNext(u64),
}

/// The choice of a saved file's name, one attempt at a time: the name tried
/// at `attempt` (see [`unique_name_candidate`]) is taken where no file has it
/// (`taken` is false); else the next attempt is tried, and once the numbered
/// names are used up, the fallback name with `tag` is taken without a check.
pub fn choose_name(name: &str, attempt: u64, taken: bool, tag: u32) -> (res: NameChoice)
    requires
        attempt < NUMBERED_ATTEMPTS,
    ensures
        !taken ==> (res matches NameChoice::Take(n) && n@ == candidate_name(name@, attempt as nat)),
        taken && attempt + 1 < NUMBERED_ATTEMPTS ==> res == NameChoice::TryNext((attempt + 1) as u64),
        taken && attempt + 1 == NUMBERED_ATTEMPTS ==> (res matches NameChoice::Take(n) && n@
            == fallback_name_spec(name@, tag as nat)),
{
    if !taken {
        NameChoice::Take(unique_name_candidate(name, attempt))
    } else if attempt + 1 < NUMBERED_ATTEMPTS {
        NameChoice::TryNext(attempt + 1)
    } else {
        NameChoice::Take(fallback_name(name, tag))
    }
}

/// The events of one request for a ticket's blobs, as the serving side sees
/// them.
#[derive(PartialEq, Eq, Structural, Clone, Copy, Debug)]
pub enum RequestUpdate {
    Started,
    Progress,
    Completed,
    Aborted,
}

/// A request counts as a completed transfer when its last event is
/// `Completed`.
pub open spec fn completed(updates: Seq<RequestUpdate>) -> bool {
    updates.len() > 0 && updates.last() == RequestUpdate::Completed
}

/// How each event decides whether a request counts: a request with no event
/// does not; after any event, it counts exactly when that last event is
/// `Completed`, whatever came before (a receiver that stops midway or aborts
/// after completing a blob does not count).
pub proof fn lemma_last_event_decides(updates: Seq<RequestUpdate>, e: RequestUpdate)
    ensures
        !completed(Seq::<RequestUpdate>::empty()),
        completed(updates.push(e)) <==> e == RequestUpdate::Completed,
{
    assert(updates.push(e).last() == e);
}

/// Whether a request counts as a completed transfer: its last event is
/// `Completed`; aborted requests and requests that stopped midway do not.
pub fn transfer_completed(updates: &Vec<RequestUpdate>) -> (res: bool)
    ensures
        res == completed(updates@),
{
    let mut last_was_completed = false;
    let mut i: usize = 0;
    while i < updates.len()
        invariant
            i <= updates@.len(),
            last_was_completed == completed(updates@.take(i as int)),
        decreases updates@.len() - i,
    {
        last_was_completed = updates[i] == RequestUpdate::Completed;
        i = i + 1;
        proof {
            assert(updates@.take(i as int).last() == updates@[i - 1]);
        }
    }
    proof {
        assert(updates@.take(updates@.len() as int) =~= updates@);
    }
    last_was_completed
}

/// The 32-byte hash that a ticket points at.
pub struct BlobHash {
    pub bytes: [u8; 32],
}

impl KeyLike for BlobHash {
    type KeyView = Seq<u8>;

    open spec fn key_view(&self) -> Seq<u8> {
        self.bytes@
    }

    fn same_key(&self, other: &Self) -> (res: bool) {
        let mut i: usize = 0;
        while i < 32
            invariant
                i <= 32,
                self.bytes@.len() == 32,
                other.bytes@.len() == 32,
                forall|j: int| 0 <= j < i ==> self.bytes@[j] == other.bytes@[j],
            decreases 32 - i,
        {
            if self.bytes[i] != other.bytes[i] {
                return false;
            }
            i = i + 1;
        }
        proof {
            assert(self.bytes@ =~= other.bytes@);
        }
        true
    }

    fn copy_key(&self) -> (res: Self) {
        BlobHash { bytes: self.bytes }
    }
}

/// The key views of the receivers in `ids`.
pub open spec fn receiver_keys(ids: Seq<NodeId>) -> Set<Seq<u8>> {
    node_keys(ids).to_set()
}

/// For each ticket's hash, the distinct receivers that have fully pulled it.
pub struct TransferCounts {
    receivers: KeyedMap<BlobHash, Vec<NodeId>>,
}

impl TransferCounts {
    /// The counts are well formed: no receiver is kept twice for a hash.
    pub closed spec fn wf(&self) -> bool {
        &&& self.receivers.wf()
        &&& forall|k: Seq<u8>|
            #[trigger] self.receivers.view().contains_key(k) ==> node_keys(
                self.receivers.view()[k]@,
            ).no_duplicates()
    }

    /// The receivers by hash, each by its key; a hash that no receiver has
    /// fully pulled has no entry.
    pub closed spec fn view(&self) -> Map<Seq<u8>, Set<Seq<u8>>> {
        Map::new(
            |k: Seq<u8>| self.receivers.view().contains_key(k),
            |k: Seq<u8>| receiver_keys(self.receivers.view()[k]@),
        )
    }

    /// No transfer counted yet.
    pub fn new() -> (res: TransferCounts)
        ensures
            res.wf(),
            res@ == Map::<Seq<u8>, Set<Seq<u8>>>::empty(),
    {
        let res = TransferCounts { receivers: KeyedMap::new() };
        assert(res@ =~= Map::<Seq<u8>, Set<Seq<u8>>>::empty());
        res
    }

    /// How many distinct receivers have fully pulled the ticket of `hash`;
    /// `None` where none has.
    pub fn transfer_count(&self, hash: &BlobHash) -> (res: Option<u64>)
        requires
            self.wf(),
        ensures
            res is Some == self@.contains_key(hash.key_view()),
            res matches Some(n) ==> n == self@[hash.key_view()].len(),
    {
        match self.receivers.get(hash) {
            Some(v) => {
                proof {
                    let k = hash.key_view();
                    assert(self.receivers.view().contains_key(k));
                    node_keys(v@).unique_seq_to_set();
                }
                Some(v.len() as u64)
            },
            None => None,
        }
    }

    /// Records that `receiver` has fully pulled the ticket of `hash`; a
    /// receiver that had pulled it before is not counted again.
    pub fn record_completed(&mut self, hash: BlobHash, receiver: NodeId)
        requires
            old(self).wf(),
        ensures
            final(self).wf(),
            final(self)@ == old(self)@.insert(
                hash.key_view(),
                if old(self)@.contains_key(hash.key_view()) {
                    old(self)@[hash.key_view()].insert(receiver.key_view())
                } else {
                    Set::<Seq<u8>>::empty().insert(receiver.key_view())
                },
            ),
    {
        let ghost k = hash.key_view();
        let ghost old_map = self.receivers.view();
        let ghost old_view = self@;
        match self.receivers.get_mut(&hash) {
            Some(v) => {
                let ghost before = *v;
                if !holds(v, &receiver) {
                    v.push(receiver);
                    proof {
                        assert(node_keys(v@) =~= node_keys(before@).push(receiver.key_view()));
                        node_keys(before@).lemma_push_to_set_commute(receiver.key_view());
                        assert(node_keys(v@).no_duplicates()) by {
                            assert forall|a: int, b: int| 0 <= a < b < node_keys(v@).len() implies node_keys(v@)[a]
                                != node_keys(v@)[b] by {
                                if b == before@.len() {
                                    assert(node_keys(before@).contains(node_keys(before@)[a]));
                                }
                            }
                        }
                    }
                } else {
                    proof {
                        assert(receiver_keys(before@).contains(receiver.key_view()));
                        assert(receiver_keys(before@).insert(receiver.key_view()) =~= receiver_keys(before@));
                    }
                }
            },
            None => {
                let mut v: Vec<NodeId> = Vec::new();
                v.push(receiver);
                proof {
                    let e = Seq::<Seq<u8>>::empty();
                    assert(node_keys(v@) =~= e.push(receiver.key_view()));
                    e.lemma_push_to_set_commute(receiver.key_view());
                    assert(e.to_set() =~= Set::<Seq<u8>>::empty());
                    assert(node_keys(v@).no_duplicates());
                    assert(receiver_keys(v@) =~= Set::<Seq<u8>>::empty().insert(receiver.key_view()));
                }
                let _ = self.receivers.insert(hash, v);
            },
        }
        proof {
            assert(self@ =~= old_view.insert(
                k,
                if old_view.contains_key(k) {
                    old_view[k].insert(receiver.key_view())
                } else {
                    Set::<Seq<u8>>::empty().insert(receiver.key_view())
                },
            ));
        }
    }

    /// Records a finished request of `receiver` for the ticket of `hash`:
    /// `receiver` counts among those that fully pulled it where the request's
    /// last event is `Completed`; no change otherwise.
    pub fn record_request(&mut self, hash: BlobHash, receiver: NodeId, updates: &Vec<RequestUpdate>)
        requires
            old(self).wf(),
        ensures
            final(self).wf(),
            completed(updates@) ==> final(self)@ == old(self)@.insert(
                hash.key_view(),
                if old(self)@.contains_key(hash.key_view()) {
                    old(self)@[hash.key_view()].insert(receiver.key_view())
                } else {
                    Set::<Seq<u8>>::empty().insert(receiver.key_view())
                },
            ),
            !completed(updates@) ==> final(self)@ == old(self)@,
    {
        if transfer_completed(updates) {
            self.record_completed(hash, receiver);
        }
    }
}

/// The same receiver pulling a ticket again does not change its count.
pub proof fn lemma_receiver_counted_once(counts: Map<Seq<u8>, Set<Seq<u8>>>, hash: Seq<u8>, receiver: Seq<u8>)
    requires
        counts.contains_key(hash),
        counts[hash].contains(receiver),
    ensures
        counts.insert(hash, counts[hash].insert(receiver)) == counts,
{
    assert(counts[hash].insert(receiver) =~= counts[hash]);
    assert(counts.insert(hash, counts[hash].insert(receiver)) =~= counts);
}

/// The file paths in a text that holds one per line; `None` where it holds
/// none.
pub fn parse_path_lines(text: &str) -> (res: Option<Vec<String>>)
    ensures
        nonempty_pieces(text@, '\n').len() == 0 ==> res is None,
        nonempty_pieces(text@, '\n').len() > 0 ==> res is Some,
        res matches Some(v) ==> v@.map_values(|x: String| x@) == nonempty_pieces(text@, '\n'),
{
    let paths = crate::text::nonempty_pieces_of(text, '\n');
    if paths.len() == 0 {
        None
    } else {
        Some(paths)
    }
}

/// The saved paths as one text, one per line.
pub fn join_path_lines(paths: &Vec<String>) -> (res: String)
    ensures
        res@ == joined(paths@.map_values(|x: String| x@), '\n'),
{
    crate::text::join_with(paths, '\n')
}

} // verus!
