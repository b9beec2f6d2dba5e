//! The per-document sync state that a node keeps, and the decisions of the
//! sync actor: which document a message is about, whether a document must be
//! started from its empty form, and which errors a message gets.
//!
//! The state of one document (`V`) is kept opaque here: what is done to it
//! (updating, inserting into a list, reading, syncing, saving) happens outside
//! the library, on the value that these functions hand out.
use vstd::prelude::*;

use crate::doc::{self, DocId, DocKey, DocSpace, Document, DocumentKind, DocumentResolver};
use crate::keyed::{KeyLike, KeyedMap};
use crate::text::{last_index_of, push_str, split_at_last_char};
use vstd::string::StrSliceExecFns;

pub mod message;

verus! {

/// Errors of the sync actor.
#[derive(Debug)]
pub enum Error {
    /// Reading or writing a saved document failed.
    Io { message: String, cause: String },
    /// The document registry refused the document.
    Document(doc::Error),
    /// No state is kept for this document.
    DocumentNotFound { doc_space: DocSpace, doc_id: DocId },
    /// The document is not kept and has no empty form to start from.
    InitialDocumentNotRegistered { doc_space: DocSpace, doc_id: DocId },
}

impl Error {
    /// The error is `DocumentNotFound` for `space`/`id`.
    pub open spec fn is_not_found(&self, space: Seq<char>, id: Seq<char>) -> bool {
        self matches Error::DocumentNotFound { doc_space: s, doc_id: i } && s@ == space && i@ == id
    }

    /// The error is `InitialDocumentNotRegistered` for `space`/`id`.
    pub open spec fn is_not_registered(&self, space: Seq<char>, id: Seq<char>) -> bool {
        self matches Error::InitialDocumentNotRegistered { doc_space: s, doc_id: i } && s@ == space
            && i@ == id
    }

    /// The error is the registry's `UnsupportedDoc` for `space`/`id`.
    pub open spec fn is_unsupported(&self, space: Seq<char>, id: Seq<char>) -> bool {
        self matches Error::Document(doc::Error::UnsupportedDoc { space: s, id: i }) && s@ == space
            && i@ == id
    }
}

/// The extension of the files that hold saved documents.
pub const FILE_EXT: &'static str = "dat";

/// The name of the file that holds the saved document `id` (in the directory
/// of its space): the id with the extension `.dat`.
pub fn syncman_file_name(id: &DocId) -> (res: String)
    ensures
        res@ == id@ + seq!['.', 'd', 'a', 't'],
{
    let mut out = crate::doc::owned_str(id.as_str());
    crate::text::push_char(&mut out, '.');
    crate::text::push_char(&mut out, 'd');
    crate::text::push_char(&mut out, 'a');
    crate::text::push_char(&mut out, 't');
    out
}

/// The id of the document that the file `name` holds: the name without its
/// extension where that extension is `dat`; no id where the name has no
/// extension (no `.`, or only a leading one) or another one.
pub open spec fn doc_id_of_file(name: Seq<char>) -> Option<Seq<char>> {
    match last_index_of(name, '.') {
        Some(p) => if p > 0 && name.skip(p + 1) == seq!['d', 'a', 't'] {
            Some(name.take(p))
        } else {
            None
        },
        None => None,
    }
}

/// The file name of a saved document reads back as the document's id, for
/// every id that is not empty.
pub proof fn lemma_syncman_file_name_reads_back(id: Seq<char>)
    requires
        id.len() > 0,
    ensures
        doc_id_of_file(id + seq!['.', 'd', 'a', 't']) == Some(id),
{
    let s = id + seq!['.', 'd', 'a', 't'];
    let s3 = id + seq!['.', 'd', 'a'];
    let s2 = id + seq!['.', 'd'];
    let s1 = id + seq!['.'];
    assert(s.drop_last() =~= s3);
    assert(s3.drop_last() =~= s2);
    assert(s2.drop_last() =~= s1);
    assert(last_index_of(s1, '.') == Some(id.len() as int));
    assert(last_index_of(s2, '.') == Some(id.len() as int));
    assert(last_index_of(s3, '.') == Some(id.len() as int));
    assert(last_index_of(s, '.') == Some(id.len() as int));
    assert(s.skip(id.len() as int + 1) =~= seq!['d', 'a', 't']);
    assert(s.take(id.len() as int) =~= id);
}

/// The id of the document that the file `name` holds, where it is a saved
/// document's file.
pub fn doc_id_of_syncman_file(name: &str) -> (res: Option<DocId>)
    ensures
        match doc_id_of_file(name@) {
            Some(i) => res matches Some(d) && d@ == i,
            None => res is None,
        },
{
    let (stem, ext) = split_at_last_char(name, '.');
    if !crate::text::has_char(name, '.') {
        proof {
            crate::text::lemma_last_index_of(name@, '.');
            if let Some(p) = last_index_of(name@, '.') {
                assert(name@.contains(name@[p]));
            }
        }
        return None;
    }
    proof {
        crate::text::lemma_last_index_of(name@, '.');
        if last_index_of(name@, '.') is None {
            let j = choose|j: int| 0 <= j < name@.len() && name@[j] == '.';
            assert(name@[j] == '.');
        }
    }
    if stem.as_str().unicode_len() == 0 {
        return None;
    }
    let e = ext.as_str();
    if e.unicode_len() == 3 && e.get_char(0) == 'd' && e.get_char(1) == 'a' && e.get_char(2) == 't' {
        proof {
            assert(e@ =~= seq!['d', 'a', 't']);
        }
        Some(DocId::from_string(stem))
    } else {
        proof {
            if e@ == seq!['d', 'a', 't'] {
                assert(e@.len() == 3);
                assert(e@[0] == 'd');
                assert(e@[1] == 'a');
                assert(e@[2] == 't');
            }
        }
        None
    }
}

/// What must be done before a document's state can be used.
pub enum Preparation<'a> {
    /// The state is kept already.
    Present,
    /// The state must be started from this saved empty form.
    Load(&'a [u8]),
}

/// The per-document states, by address.
pub struct SyncmanStore<V> {
    syncmans: KeyedMap<DocKey, V>,
}

impl<V> SyncmanStore<V> {
    /// The store is well formed.
    pub closed spec fn wf(&self) -> bool {
        self.syncmans.wf()
    }

    /// The states by address.
    pub closed spec fn view(&self) -> Map<(Seq<char>, Seq<char>), V> {
        self.syncmans.view()
    }

    /// The addresses, in the order in which they were first kept.
    pub closed spec fn addresses(&self) -> Seq<(Seq<char>, Seq<char>)> {
        self.syncmans.key_seq()
    }

    /// An empty store.
    pub fn new() -> (res: Self)
        ensures
            res.wf(),
            res@ == Map::<(Seq<char>, Seq<char>), V>::empty(),
    {
        SyncmanStore { syncmans: KeyedMap::new() }
    }

    /// Whether a state is kept for `space`/`id`.
    pub fn contains(&self, space: &DocSpace, id: &DocId) -> (res: bool)
        requires
            self.wf(),
        ensures
            res == self@.contains_key((space@, id@)),
    {
        self.syncmans.contains_key(&DocKey::new(space, id))
    }

    /// Keeps `v` as the state of `space`/`id`, in place of the one kept before.
    pub fn insert(&mut self, space: &DocSpace, id: &DocId, v: V)
        requires
            old(self).wf(),
        ensures
            final(self).wf(),
            final(self)@ == old(self)@.insert((space@, id@), v),
    {
        let _ = self.syncmans.insert(DocKey::new(space, id), v);
    }

    /// The state of `space`/`id`; `DocumentNotFound` where none is kept.
    pub fn find(&self, space: &DocSpace, id: &DocId) -> (res: Result<&V, Error>)
        requires
            self.wf(),
        ensures
            res is Ok == self@.contains_key((space@, id@)),
            res matches Ok(v) ==> *v == self@[(space@, id@)],
            res matches Err(e) ==> e.is_not_found(space@, id@),
    {
        match self.syncmans.get(&DocKey::new(space, id)) {
            Some(v) => Ok(v),
            None => Err(
                Error::DocumentNotFound { doc_space: space.duplicate(), doc_id: id.duplicate() },
            ),
        }
    }

    /// The state of `space`/`id`, to change in place; `DocumentNotFound` where
    /// none is kept.
    pub fn find_mut(&mut self, space: &DocSpace, id: &DocId) -> (res: Result<&mut V, Error>)
        requires
            old(self).wf(),
        ensures
            res is Ok == old(self)@.contains_key((space@, id@)),
            match res {
                Ok(v) => {
                    &&& *v == old(self)@[(space@, id@)]
                    &&& final(self).wf()
                    &&& final(self)@ == old(self)@.insert((space@, id@), *final(v))
                },
                Err(e) => e.is_not_found(space@, id@) && *final(self) == *old(self),
            },
    {
        let key = DocKey::new(space, id);
        match self.syncmans.get_mut(&key) {
            Some(v) => Ok(v),
            None => Err(
                Error::DocumentNotFound { doc_space: space.duplicate(), doc_id: id.duplicate() },
            ),
        }
    }

    /// The addresses of the kept documents, each once.
    pub fn list_documents(&self) -> (res: Vec<DocKey>)
        requires
            self.wf(),
        ensures
            res@.len() == self@.len(),
            forall|i: int| 0 <= i < res@.len() ==> self@.contains_key(#[trigger] res@[i].key_view()),
            forall|i: int, j: int|
                0 <= i < j < res@.len() ==> #[trigger] res@[i].key_view() != #[trigger] res@[j].key_view(),
            forall|k: (Seq<char>, Seq<char>)|
                self@.contains_key(k) ==> exists|i: int| 0 <= i < res@.len() && #[trigger] res@[i].key_view() == k,
    {
        proof {
            self.syncmans.lemma_key_seq();
        }
        let res = self.syncmans.keys();
        proof {
            let ks = self.syncmans.key_seq();
            assert forall|k: (Seq<char>, Seq<char>)| self@.contains_key(k) implies exists|i: int|
                0 <= i < res@.len() && #[trigger] res@[i].key_view() == k by {
                assert(ks.to_set().contains(k));
                let i = choose|i: int| 0 <= i < ks.len() && ks[i] == k;
                assert(res@[i].key_view() == k);
            }
            assert forall|i: int| 0 <= i < res@.len() implies self@.contains_key(#[trigger] res@[i].key_view()) by {
                assert(ks.to_set().contains(ks[i]));
            }
            assert forall|i: int, j: int|
                0 <= i < j < res@.len() implies #[trigger] res@[i].key_view() != #[trigger] res@[j].key_view() by {
                assert(ks[i] != ks[j]);
            }
        }
        res
    }

    /// The state of `space`/`id` and the kind that it is read back as:
    /// `DocumentNotFound` where no state is kept, else the registry's
    /// `UnsupportedDoc` where the address holds no supported document.
    pub fn hydrate_target(&self, resolver: &DocumentResolver, space: &DocSpace, id: &DocId) -> (res: Result<(&V, DocumentKind), Error>)
        requires
            self.wf(),
            resolver.wf(),
        ensures
            !self@.contains_key((space@, id@)) ==> (res matches Err(e) && e.is_not_found(space@, id@)),
            self@.contains_key((space@, id@)) && !resolver@.contains_key((space@, id@)) ==> (res matches Err(e) && e.is_unsupported(space@, id@)),
            self@.contains_key((space@, id@)) && resolver@.contains_key((space@, id@)) ==> (res matches Ok((v, k)) && *v == self@[(space@, id@)] && k == resolver@[(space@, id@)].0),
    {
        let v = self.find(space, id)?;
        match resolver.hydrate(space, id) {
            Ok(k) => Ok((v, k)),
            Err(e) => Err(Error::Document(e)),
        }
    }

    /// Whether `space`/`id` must be started from its empty form: `Present`
    /// where its state is kept, `Load` with the empty form where the registry
    /// has one, else `InitialDocumentNotRegistered`.
    pub fn prepare_initial_syncman<'a>(
        &self,
        resolver: &'a DocumentResolver,
        space: &DocSpace,
        id: &DocId,
    ) -> (res: Result<Preparation<'a>, Error>)
        requires
            self.wf(),
            resolver.wf(),
        ensures
            self@.contains_key((space@, id@)) ==> res matches Ok(Preparation::Present),
            !self@.contains_key((space@, id@)) ==> match res {
                Ok(Preparation::Load(d)) => resolver@.contains_key((space@, id@))
                    && resolver@[(space@, id@)].1 == Some(d@),
                Ok(Preparation::Present) => false,
                Err(e) => e.is_not_registered(space@, id@) && !(resolver@.contains_key(
                    (space@, id@),
                ) && resolver@[(space@, id@)].1 is Some),
            },
    {
        if self.contains(space, id) {
            return Ok(Preparation::Present);
        }
        match resolver.initial_document(space, id) {
            Some(d) => Ok(Preparation::Load(d)),
            None => Err(
                Error::InitialDocumentNotRegistered {
                    doc_space: space.duplicate(),
                    doc_id: id.duplicate(),
                },
            ),
        }
    }

    /// What an update of `space`/`id` needs, once the registry has said which
    /// kind of document lives there and the data has been parsed as that kind
    /// (`parsed`): the parse error as the registry's error, else the document
    /// and whether its state must first be started from its empty form, as
    /// [`SyncmanStore::prepare_initial_syncman`] says.
    pub fn prepare_update<'a>(
        &self,
        resolver: &'a DocumentResolver,
        space: &DocSpace,
        id: &DocId,
        parsed: Result<Document, doc::Error>,
    ) -> (res: Result<(Document, Preparation<'a>), Error>)
        requires
            self.wf(),
            resolver.wf(),
        ensures
            match parsed {
                Err(e) => res matches Err(Error::Document(x)) && x == e,
                Ok(d) => if self@.contains_key((space@, id@)) {
                    res matches Ok((x, Preparation::Present)) && x == d
                } else {
                    match res {
                        Ok((x, Preparation::Load(b))) => x == d && resolver@.contains_key((space@, id@))
                            && resolver@[(space@, id@)].1 == Some(b@),
                        Ok((_, Preparation::Present)) => false,
                        Err(e) => e.is_not_registered(space@, id@) && !(resolver@.contains_key(
                            (space@, id@),
                        ) && resolver@[(space@, id@)].1 is Some),
                    }
                },
            },
    {
        let doc = match parsed {
            Ok(d) => d,
            Err(e) => return Err(Error::Document(e)),
        };
        match self.prepare_initial_syncman(resolver, space, id) {
            Ok(p) => Ok((doc, p)),
            Err(e) => Err(e),
        }
    }

    /// What inserting a parsed document into a list of the document
    /// `space`/`collection_id` needs: the parse error as the registry's
    /// error, else `DocumentNotFound` for the collection where no state is
    /// kept for it (it is not started from its empty form), else the document.
    pub fn prepare_list_insert(
        &self,
        space: &DocSpace,
        collection_id: &DocId,
        parsed: Result<Document, doc::Error>,
    ) -> (res: Result<Document, Error>)
        requires
            self.wf(),
        ensures
            match parsed {
                Err(e) => res matches Err(Error::Document(x)) && x == e,
                Ok(d) => if self@.contains_key((space@, collection_id@)) {
                    res == Ok::<Document, Error>(d)
                } else {
                    res matches Err(e) && e.is_not_found(space@, collection_id@)
                },
            },
    {
        let doc = match parsed {
            Ok(d) => d,
            Err(e) => return Err(Error::Document(e)),
        };
        if self.contains(space, collection_id) {
            Ok(doc)
        } else {
            Err(Error::DocumentNotFound { doc_space: space.duplicate(), doc_id: collection_id.duplicate() })
        }
    }

    /// What reading `space`/`id` needs: its state is started from its empty
    /// form where it is not kept and the registry has one (`Load`); then
    /// `DocumentNotFound` where there is still no state, else the registry's
    /// `UnsupportedDoc` where no document of a known kind lives there, else
    /// the kind it is read back as.
    pub fn prepare_get<'a>(
        &self,
        resolver: &'a DocumentResolver,
        space: &DocSpace,
        id: &DocId,
    ) -> (res: Result<(Preparation<'a>, DocumentKind), Error>)
        requires
            self.wf(),
            resolver.wf(),
        ensures
            self@.contains_key((space@, id@)) && resolver@.contains_key((space@, id@)) ==> (res matches Ok(
                (Preparation::Present, k),
            ) && k == resolver@[(space@, id@)].0),
            self@.contains_key((space@, id@)) && !resolver@.contains_key((space@, id@)) ==> (res matches Err(e)
                && e.is_unsupported(space@, id@)),
            !self@.contains_key((space@, id@)) && resolver@.contains_key((space@, id@))
                && resolver@[(space@, id@)].1 is Some ==> (res matches Ok((Preparation::Load(b), k)) && Some(b@)
                == resolver@[(space@, id@)].1 && k == resolver@[(space@, id@)].0),
            !self@.contains_key((space@, id@)) && !(resolver@.contains_key((space@, id@))
                && resolver@[(space@, id@)].1 is Some) ==> (res matches Err(e) && e.is_not_found(space@, id@)),
    {
        let prep = match self.prepare_initial_syncman(resolver, space, id) {
            Ok(p) => p,
            Err(_) => {
                return Err(Error::DocumentNotFound { doc_space: space.duplicate(), doc_id: id.duplicate() });
            },
        };
        match resolver.hydrate(space, id) {
            Ok(k) => Ok((prep, k)),
            Err(e) => Err(Error::Document(e)),
        }
    }
}

} // verus!
