//! Documents: their addresses (a space and an id), their data model, and the
//! registry that says which documents the node supports.
use vstd::prelude::*;
use crate::keyed::{KeyLike, KeyedMap};
use crate::frame::opt_bytes_view;

pub mod aviation;
pub mod protocol;

verus! {

broadcast use vstd::string::group_string_axioms;

/// Makes an owned string with the characters of `s`.
pub fn owned_str(s: &str) -> (res: String)
    ensures
        res@ == s@,
{
    s.to_owned()
}

/// The message with which `String::from_utf8` refuses the bytes `bytes`.
pub uninterp spec fn utf8_error_message(bytes: Seq<u8>) -> Seq<char>;

/// Reads `bytes` as UTF-8 text, or says why they are not.
///
/// Calls `String::from_utf8`, whose documentation says that it fails exactly
/// where the bytes are not valid UTF-8 and otherwise gives the text that they
/// encode; the contract claims that, and names the text of its error.
#[verifier::external_body]
pub(crate) fn string_from_utf8(bytes: &[u8]) -> (res: Result<String, String>)
    ensures
        res is Ok <==> vstd::utf8::valid_utf8(bytes@),
        res matches Ok(s) ==> s@ == vstd::utf8::decode_utf8(bytes@),
        res matches Err(m) ==> m@ == utf8_error_message(bytes@),
{
    match String::from_utf8(bytes.to_vec()) {
        Ok(s) => Ok(s),
        Err(e) => Err(e.to_string()),
    }
}

/// The space that a document lives in.
#[derive(Debug)]
pub struct DocSpace(String);

/// The id of a document within its space.
#[derive(Debug)]
pub struct DocId(String);

impl View for DocSpace {
    type V = Seq<char>;

    closed spec fn view(&self) -> Seq<char> {
        self.0@
    }
}

impl View for DocId {
    type V = Seq<char>;

    closed spec fn view(&self) -> Seq<char> {
        self.0@
    }
}

impl DocSpace {
    /// A space named by `s`.
    pub fn new(s: &str) -> (res: DocSpace)
        ensures
            res@ == s@,
    {
        DocSpace(s.to_owned())
    }

    /// A space named by `s`.
    pub fn from_string(s: String) -> (res: DocSpace)
        ensures
            res@ == s@,
    {
        DocSpace(s)
    }

    /// The name of the space.
    pub fn as_str(&self) -> (res: &str)
        ensures
            res@ == self@,
    {
        self.0.as_str()
    }

    /// The UTF-8 bytes of the name.
    pub fn as_bytes(&self) -> (res: &[u8])
        ensures
            res@ == vstd::utf8::encode_utf8(self@),
    {
        self.0.as_str().as_bytes()
    }

    /// The space whose name has the UTF-8 bytes `bytes`; `None` where they are
    /// not valid UTF-8.
    pub fn try_from_bytes(bytes: &[u8]) -> (res: Option<DocSpace>)
        ensures
            res is Some <==> vstd::utf8::valid_utf8(bytes@),
            res matches Some(s) ==> s@ == vstd::utf8::decode_utf8(bytes@),
    {
        match string_from_utf8(bytes) {
            Ok(s) => Some(DocSpace(s)),
            Err(_) => None,
        }
    }

    /// Whether the name is `other`.
    pub fn eq_str(&self, other: &str) -> (res: bool)
        ensures
            res == (self@ == other@),
    {
        let o = owned_str(other);
        self.0 == o
    }

    /// Whether both spaces have the same name.
    pub fn same(&self, other: &DocSpace) -> (res: bool)
        ensures
            res == (self@ == other@),
    {
        self.0 == other.0
    }

    /// A copy of the space.
    pub fn duplicate(&self) -> (res: DocSpace)
        ensures
            res@ == self@,
    {
        DocSpace(self.0.clone())
    }
}

impl DocId {
    /// An id named by `s`.
    pub fn new(s: &str) -> (res: DocId)
        ensures
            res@ == s@,
    {
        DocId(s.to_owned())
    }

    /// An id named by `s`.
    pub fn from_string(s: String) -> (res: DocId)
        ensures
            res@ == s@,
    {
        DocId(s)
    }

    /// The name of the id.
    pub fn as_str(&self) -> (res: &str)
        ensures
            res@ == self@,
    {
        self.0.as_str()
    }

    /// The UTF-8 bytes of the name.
    pub fn as_bytes(&self) -> (res: &[u8])
        ensures
            res@ == vstd::utf8::encode_utf8(self@),
    {
        self.0.as_str().as_bytes()
    }

    /// The id whose name has the UTF-8 bytes `bytes`; `None` where they are
    /// not valid UTF-8.
    pub fn try_from_bytes(bytes: &[u8]) -> (res: Option<DocId>)
        ensures
            res is Some <==> vstd::utf8::valid_utf8(bytes@),
            res matches Some(s) ==> s@ == vstd::utf8::decode_utf8(bytes@),
    {
        match string_from_utf8(bytes) {
            Ok(s) => Some(DocId(s)),
            Err(_) => None,
        }
    }

    /// Whether the name is `other`.
    pub fn eq_str(&self, other: &str) -> (res: bool)
        ensures
            res == (self@ == other@),
    {
        let o = owned_str(other);
        self.0 == o
    }

    /// Whether both ids have the same name.
    pub fn same(&self, other: &DocId) -> (res: bool)
        ensures
            res == (self@ == other@),
    {
        self.0 == other.0
    }

    /// A copy of the id.
    pub fn duplicate(&self) -> (res: DocId)
        ensures
            res@ == self@,
    {
        DocId(self.0.clone())
    }
}

impl From<String> for DocSpace {
    fn from(space: String) -> (res: DocSpace) {
        DocSpace(space)
    }
}

impl vstd::std_specs::convert::FromSpecImpl<String> for DocSpace {
    open spec fn obeys_from_spec() -> bool {
        true
    }

    closed spec fn from_spec(v: String) -> DocSpace {
        DocSpace(v)
    }
}


/// The address of a document: its space and its id.
pub struct DocKey {
    pub space: DocSpace,
    pub id: DocId,
}

impl DocKey {
    /// The address of `id` in `space`.
    pub fn new(space: &DocSpace, id: &DocId) -> (res: DocKey)
        ensures
            res.key_view() == (space@, id@),
    {
        DocKey { space: space.duplicate(), id: id.duplicate() }
    }
}

impl KeyLike for DocKey {
    type KeyView = (Seq<char>, Seq<char>);

    open spec fn key_view(&self) -> (Seq<char>, Seq<char>) {
        (self.space@, self.id@)
    }

    fn same_key(&self, other: &Self) -> (res: bool) {
        self.space.same(&other.space) && self.id.same(&other.id)
    }

    fn copy_key(&self) -> (res: Self) {
        DocKey { space: self.space.duplicate(), id: self.id.duplicate() }
    }
}

/// The kinds of document that a node knows.
#[derive(PartialEq, Eq, Structural, Clone, Copy, Debug)]
pub enum DocumentKind {
    Flights,
    Flight,
    Nodes,
    Node,
}

/// A document of one of the known kinds.
pub enum Document {
    Flights(aviation::flights::Flights),
    Flight(aviation::flight::Flight),
    Nodes(protocol::nodes::Nodes),
    Node(protocol::node::Node),
}

impl Document {
    /// The kind of the document.
    pub open spec fn spec_kind(&self) -> DocumentKind {
        match self {
            Document::Flights(_) => DocumentKind::Flights,
            Document::Flight(_) => DocumentKind::Flight,
            Document::Nodes(_) => DocumentKind::Nodes,
            Document::Node(_) => DocumentKind::Node,
        }
    }

    /// The kind of the document.
    pub fn kind(&self) -> (res: DocumentKind)
        ensures
            res == self.spec_kind(),
    {
        match self {
            Document::Flights(_) => DocumentKind::Flights,
            Document::Flight(_) => DocumentKind::Flight,
            Document::Nodes(_) => DocumentKind::Nodes,
            Document::Node(_) => DocumentKind::Node,
        }
    }
}

/// Errors of the document registry.
#[derive(Debug)]
pub enum Error {
    /// The data did not parse as the document's JSON form.
    Json(String),
    /// No document of this address is supported.
    UnsupportedDoc { space: DocSpace, id: DocId },
}

/// What the registry knows of one supported document: its kind and, where a
/// node may start from an empty one, the saved form of that empty document.
pub struct Registration {
    pub kind: DocumentKind,
    pub initial: Option<Vec<u8>>,
}

/// The spec view of a registration.
pub open spec fn registration_view(r: Registration) -> (DocumentKind, Option<Seq<u8>>) {
    (r.kind, opt_bytes_view(r.initial))
}

/// The view of a document address made of two names.
pub open spec fn address(space: &str, id: &str) -> (Seq<char>, Seq<char>) {
    (space@, id@)
}

/// The documents that a node supports from the start.
pub open spec fn default_registry() -> Map<(Seq<char>, Seq<char>), (DocumentKind, Option<Seq<u8>>)> {
    Map::empty().insert(
        address(aviation::DOC_SPACE, aviation::flights::DOC_ID),
        (DocumentKind::Flights, Some(aviation::flights::INITIAL_DOC@)),
    ).insert(
        address(aviation::DOC_SPACE, aviation::flight::DOC_ID),
        (DocumentKind::Flight, None),
    ).insert(
        address(protocol::DOC_SPACE, protocol::nodes::DOC_ID),
        (DocumentKind::Nodes, None),
    ).insert(address(protocol::DOC_SPACE, protocol::node::DOC_ID), (DocumentKind::Node, None))
}

/// The registry of supported documents: for each address, the kind of the
/// document that lives there and its empty saved form, if it has one.
pub struct DocumentResolver {
    registry: KeyedMap<DocKey, Registration>,
}

impl DocumentResolver {
    /// The registry is well formed.
    pub closed spec fn wf(&self) -> bool {
        self.registry.wf()
    }

    /// The supported documents by address.
    pub closed spec fn view(&self) -> Map<(Seq<char>, Seq<char>), (DocumentKind, Option<Seq<u8>>)> {
        self.registry.view().map_values(|r: Registration| registration_view(r))
    }

    /// A registry of the documents that a node supports from the start.
    pub fn new() -> (res: DocumentResolver)
        ensures
            res.wf(),
            res@ == default_registry(),
    {
        let mut res = DocumentResolver { registry: KeyedMap::new() };
        proof {
            assert(res@ =~= Map::empty());
        }
        res.register(
            DocSpace::new(aviation::DOC_SPACE),
            DocId::new(aviation::flights::DOC_ID),
            DocumentKind::Flights,
            Some(vstd::slice::slice_to_vec(aviation::flights::INITIAL_DOC.as_slice())),
        );
        res.register(
            DocSpace::new(aviation::DOC_SPACE),
            DocId::new(aviation::flight::DOC_ID),
            DocumentKind::Flight,
            None,
        );
        res.register(
            DocSpace::new(protocol::DOC_SPACE),
            DocId::new(protocol::nodes::DOC_ID),
            DocumentKind::Nodes,
            None,
        );
        res.register(
            DocSpace::new(protocol::DOC_SPACE),
            DocId::new(protocol::node::DOC_ID),
            DocumentKind::Node,
            None,
        );
        res
    }

    /// Supports the document at `space`/`id` as one of kind `kind`, whose empty
    /// saved form is `initial`, in place of what was registered there.
    pub fn register(
        &mut self,
        space: DocSpace,
        id: DocId,
        kind: DocumentKind,
        initial: Option<Vec<u8>>,
    )
        requires
            old(self).wf(),
        ensures
            final(self).wf(),
            final(self)@ == old(self)@.insert((space@, id@), (kind, opt_bytes_view(initial))),
    {
        let ghost reg = Registration { kind, initial };
        let key = DocKey { space, id };
        let _ = self.registry.insert(key, Registration { kind, initial });
        proof {
            assert(self@ =~= old(self)@.insert(key.key_view(), registration_view(reg)));
        }
    }

    /// The kind of the document at `space`/`id`, if it is supported.
    pub fn kind_of(&self, space: &DocSpace, id: &DocId) -> (res: Option<DocumentKind>)
        requires
            self.wf(),
        ensures
            res is Some == self@.contains_key((space@, id@)),
            res matches Some(k) ==> k == self@[(space@, id@)].0,
    {
        let key = DocKey::new(space, id);
        match self.registry.get(&key) {
            Some(r) => Some(r.kind),
            None => None,
        }
    }

    /// The kind that data for `space`/`id` parses as; `UnsupportedDoc` where no
    /// document lives there.
    pub fn deserialize(&self, space: &DocSpace, id: &DocId) -> (res: Result<DocumentKind, Error>)
        requires
            self.wf(),
        ensures
            res is Ok == self@.contains_key((space@, id@)),
            res matches Ok(k) ==> k == self@[(space@, id@)].0,
            res matches Err(e) ==> e matches Error::UnsupportedDoc { space: s, id: i } && s@ == space@
                && i@ == id@,
    {
        match self.kind_of(space, id) {
            Some(k) => Ok(k),
            None => Err(Error::UnsupportedDoc { space: space.duplicate(), id: id.duplicate() }),
        }
    }

    /// The kind that the document at `space`/`id` is read back as; `UnsupportedDoc`
    /// where no document lives there.
    pub fn hydrate(&self, space: &DocSpace, id: &DocId) -> (res: Result<DocumentKind, Error>)
        requires
            self.wf(),
        ensures
            res is Ok == self@.contains_key((space@, id@)),
            res matches Ok(k) ==> k == self@[(space@, id@)].0,
            res matches Err(e) ==> e matches Error::UnsupportedDoc { space: s, id: i } && s@ == space@
                && i@ == id@,
    {
        self.deserialize(space, id)
    }

    /// The empty saved form of the document at `space`/`id`, where it has one.
    pub fn initial_document(&self, space: &DocSpace, id: &DocId) -> (res: Option<&[u8]>)
        requires
            self.wf(),
        ensures
            res is Some == (self@.contains_key((space@, id@)) && self@[(space@, id@)].1 is Some),
            res matches Some(d) ==> Some(d@) == self@[(space@, id@)].1,
    {
        let key = DocKey::new(space, id);
        match self.registry.get(&key) {
            Some(r) => match &r.initial {
                Some(d) => Some(d.as_slice()),
                None => None,
            },
            None => None,
        }
    }
}

impl Default for DocumentResolver {
    /// A registry of the documents that a node supports from the start.
    fn default() -> (res: DocumentResolver)
        ensures
            res.wf(),
            res@ == default_registry(),
    {
        DocumentResolver::new()
    }
}

} // verus!
