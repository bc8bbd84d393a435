//! Documents and the transactions that edit them.
use crate::array::{array_doc, ArrayRef};
use crate::error::Error;
use crate::map::{map_doc, MapRef};
use crate::text::{text_doc, TextRef};
use crate::wire::decimal;
use vstd::prelude::*;
use yrs::Doc as YDoc;
use yrs::Transact;
use yrs::TransactionMut as YTransactionMut;

verus! {

#[verifier::external_type_specification]
#[verifier::external_body]
pub struct ExYDoc(YDoc);

#[verifier::external_type_specification]
#[verifier::external_body]
pub struct ExYTransactionMut<'doc>(YTransactionMut<'doc>);

/// The client identifier of a `yrs::Doc`, fixed in its options when it was
/// made.
pub uninterp spec fn doc_client_id(doc: yrs::Doc) -> u64;

/// The globally unique identifier of a `yrs::Doc`, fixed in its options when
/// it was made.
pub uninterp spec fn doc_guid(doc: yrs::Doc) -> Seq<char>;

/// The text that `Doc::to_string` gives for a client identifier and a
/// globally unique identifier.
pub open spec fn doc_description(client_id: u64, guid: Seq<char>) -> Seq<char> {
    "Doc(id: "@ + decimal(client_id as nat) + ", guid: "@ + guid + ")"@
}

/// A lower-case hexadecimal digit.
pub open spec fn is_hex_digit(c: char) -> bool {
    ('0' <= c && c <= '9') || ('a' <= c && c <= 'f')
}

/// A version 4 UUID as `yrs::uuid_v4_from` writes it: 36 characters, dashes
/// at 8, 13, 18 and 23, lower-case hexadecimal digits elsewhere, the version
/// digit `4` at 14 and the variant digit `8`, `9`, `a` or `b` at 19.
pub open spec fn is_uuid_v4(s: Seq<char>) -> bool {
    &&& s.len() == 36
    &&& forall|i: int|
        0 <= i < 36 ==> if i == 8 || i == 13 || i == 18 || i == 23 {
            #[trigger] s[i] == '-'
        } else {
            is_hex_digit(s[i])
        }
    &&& s[14] == '4'
    &&& (s[19] == '8' || s[19] == '9' || s[19] == 'a' || s[19] == 'b')
}

/// The document that `yrs::TransactionMut::doc` gives: the one whose store
/// the transaction holds. A `yrs::Doc` is a shared pointer to a store; this
/// library takes two `yrs::Doc` values to be equal exactly where they point
/// to the same store, as clones of one document do.
pub uninterp spec fn txn_doc(txn: yrs::TransactionMut) -> yrs::Doc;

/// `r` is the root text called `name` of `doc`: the only text handle of that
/// document whose branch bears that root name.
pub open spec fn is_root_text(r: yrs::TextRef, doc: yrs::Doc, name: Seq<char>) -> bool {
    &&& text_doc(r) == doc
    &&& text_root_name(r) == Some(name)
    &&& forall|t: yrs::TextRef|
        #![trigger text_doc(t), text_root_name(t)]
        text_doc(t) == doc && text_root_name(t) == Some(name) ==> t == r
}

/// `r` is the root map called `name` of `doc`, as `is_root_text` for texts.
pub open spec fn is_root_map(r: yrs::MapRef, doc: yrs::Doc, name: Seq<char>) -> bool {
    &&& map_doc(r) == doc
    &&& map_root_name(r) == Some(name)
    &&& forall|m: yrs::MapRef|
        #![trigger map_doc(m), map_root_name(m)]
        map_doc(m) == doc && map_root_name(m) == Some(name) ==> m == r
}

/// `r` is the root array called `name` of `doc`, as `is_root_text` for texts.
pub open spec fn is_root_array(r: yrs::ArrayRef, doc: yrs::Doc, name: Seq<char>) -> bool {
    &&& array_doc(r) == doc
    &&& array_root_name(r) == Some(name)
    &&& forall|a: yrs::ArrayRef|
        #![trigger array_doc(a), array_root_name(a)]
        array_doc(a) == doc && array_root_name(a) == Some(name) ==> a == r
}

/// The name under which a root text was made: `Branch::name` of the branch
/// behind the handle, `None` for a text nested in another shared type.
pub uninterp spec fn text_root_name(text: yrs::TextRef) -> Option<Seq<char>>;

/// The name under which a root map was made, as `text_root_name` for texts.
pub uninterp spec fn map_root_name(map: yrs::MapRef) -> Option<Seq<char>>;

/// The name under which a root array was made, as `text_root_name` for texts.
pub uninterp spec fn array_root_name(array: yrs::ArrayRef) -> Option<Seq<char>>;

/// Calls `yrs::Doc::new`, which takes `Options::default()`: a client
/// identifier drawn from `0..u32::MAX` and a unique identifier made by
/// `uuid_v4_from` from a random number. Which values come out is left
/// unsaid; their ranges hold of every outcome.
#[verifier::external_body]
fn doc_new() -> (r: yrs::Doc)
    ensures
        doc_client_id(r) < u32::MAX,
        is_uuid_v4(doc_guid(r)),
{
    YDoc::new()
}

/// Calls `yrs::Doc::client_id`, which reads the identifier from the options.
#[verifier::external_body]
fn doc_client_id_of(doc: &yrs::Doc) -> (r: u64)
    ensures
        r == doc_client_id(*doc),
{
    doc.client_id()
}

/// Calls `yrs::Doc::guid`, which reads the identifier from the options, and
/// copies it into a `String`.
#[verifier::external_body]
fn doc_guid_of(doc: &yrs::Doc) -> (r: String)
    ensures
        r@ == doc_guid(*doc),
{
    doc.guid().to_string()
}

/// Calls the `Display` of `yrs::Doc`, which writes
/// `Doc(id: {client_id}, guid: {guid})`.
#[verifier::external_body]
fn doc_display(doc: &yrs::Doc) -> (r: String)
    ensures
        r@ == doc_description(doc_client_id(*doc), doc_guid(*doc)),
{
    format!("{}", doc)
}

/// Calls `yrs::Doc::get_or_insert_text`. It opens a transaction of its own,
/// which the borrow that `Doc::transact` takes keeps free. The store hands out
/// the root branch kept under `name` in its `types` table, made with that
/// name where there was none (`Store::get_or_create_type`): a branch of this
/// document, and the same branch at every call, since only root branches get
/// a name and the table keeps one branch per name.
#[verifier::external_body]
fn doc_text(doc: &yrs::Doc, name: &str) -> (r: yrs::TextRef)
    ensures
        text_doc(r) == *doc,
        text_root_name(r) == Some(name@),
        is_root_text(r, *doc, name@),
{
    doc.get_or_insert_text(name)
}

/// Calls `yrs::Doc::get_or_insert_map`, as `doc_text` does.
#[verifier::external_body]
fn doc_map(doc: &yrs::Doc, name: &str) -> (r: yrs::MapRef)
    ensures
        map_doc(r) == *doc,
        map_root_name(r) == Some(name@),
        is_root_map(r, *doc, name@),
{
    doc.get_or_insert_map(name)
}

/// Calls `yrs::Doc::get_or_insert_array`, as `doc_text` does.
#[verifier::external_body]
fn doc_array(doc: &yrs::Doc, name: &str) -> (r: yrs::ArrayRef)
    ensures
        array_doc(r) == *doc,
        array_root_name(r) == Some(name@),
        is_root_array(r, *doc, name@),
{
    doc.get_or_insert_array(name)
}

/// Calls `Transact::try_transact_mut` of `yrs::Doc`; the outside error (the
/// store already locked) becomes `None`. Whether it succeeds is left unsaid;
/// a transaction it opens holds a clone of the document, which
/// `TransactionMut::doc` gives back.
#[verifier::external_body]
fn doc_try_transact_mut<'doc>(doc: &'doc yrs::Doc) -> (r: Option<yrs::TransactionMut<'doc>>)
    ensures
        r is Some ==> txn_doc(r->0) == *doc,
{
    doc.try_transact_mut().ok()
}

/// A collaborative document.
pub struct Doc {
    inner: yrs::Doc,
}

impl Doc {
    /// The client identifier of this document.
    pub closed spec fn id(&self) -> u64 {
        doc_client_id(self.inner)
    }

    /// The globally unique identifier of this document.
    pub closed spec fn uid(&self) -> Seq<char> {
        doc_guid(self.inner)
    }

    /// The document of the CRDT library inside.
    pub closed spec fn value(&self) -> yrs::Doc {
        self.inner
    }

    /// A new document with a random client identifier below `u32::MAX` and
    /// a random version 4 UUID as its unique identifier.
    pub fn new() -> (r: Doc)
        ensures
            r.id() < u32::MAX,
            is_uuid_v4(r.uid()),
    {
        Doc { inner: doc_new() }
    }

    /// The client identifier.
    pub fn client_id(&self) -> (r: u64)
        ensures
            r == self.id(),
    {
        doc_client_id_of(&self.inner)
    }

    /// The globally unique identifier.
    pub fn guid(&self) -> (r: String)
        ensures
            r@ == self.uid(),
    {
        doc_guid_of(&self.inner)
    }

    /// The root text called `name`, made where there is none: the same text
    /// at every call with that name.
    pub fn get_or_insert_text(&self, name: &str) -> (r: TextRef)
        ensures
            is_root_text(r.handle(), self.value(), name@),
    {
        TextRef::from_yrs(doc_text(&self.inner, name))
    }

    /// The root map called `name`, made where there is none: the same map at
    /// every call with that name.
    pub fn get_or_insert_map(&self, name: &str) -> (r: MapRef)
        ensures
            is_root_map(r.handle(), self.value(), name@),
    {
        MapRef::from_yrs(doc_map(&self.inner, name))
    }

    /// The root array called `name`, made where there is none: the same
    /// array at every call with that name.
    pub fn get_or_insert_array(&self, name: &str) -> (r: ArrayRef)
        ensures
            is_root_array(r.handle(), self.value(), name@),
    {
        ArrayRef::from_yrs(doc_array(&self.inner, name))
    }

    /// `Doc(id: {client_id}, guid: {guid})`.
    pub fn to_string(&self) -> (r: String)
        ensures
            r@ == doc_description(self.id(), self.uid()),
    {
        doc_display(&self.inner)
    }

    /// Opens a transaction that edits this document until it is committed.
    /// While it lives the document is borrowed, so no other transaction of
    /// this library can be opened on it.
    pub fn transact(&mut self) -> (r: Result<Transaction<'_>, Error>)
        ensures
            match r {
                Ok(t) => t.is_open() && t.document() == old(self).value(),
                Err(e) => e is TransactionUnavailable,
            },
    {
        match doc_try_transact_mut(&self.inner) {
            Some(t) => Ok(Transaction { inner: Some(t) }),
            None => Err(Error::TransactionUnavailable),
        }
    }
}

/// A read-write transaction on a document; it ends when it is committed or
/// dropped, and edits through it are then published.
pub struct Transaction<'doc> {
    inner: Option<yrs::TransactionMut<'doc>>,
}

impl<'doc> Transaction<'doc> {
    /// The transaction has not been committed.
    pub closed spec fn is_open(&self) -> bool {
        self.inner is Some
    }

    /// The transaction of the CRDT library inside, while open.
    pub closed spec fn txn(&self) -> yrs::TransactionMut<'doc> {
        self.inner->0
    }

    /// The document that the transaction edits.
    pub open spec fn document(&self) -> yrs::Doc {
        txn_doc(self.txn())
    }

    /// Whether the transaction is still open.
    pub fn is_open_now(&self) -> (r: bool)
        ensures
            r == self.is_open(),
    {
        self.inner.is_some()
    }

    /// Commits the transaction; later calls through it fail.
    pub fn commit(&mut self)
        ensures
            !final(self).is_open(),
    {
        self.inner = None;
    }

    /// The open transaction of the CRDT library, for reading.
    pub(crate) fn open_ref(&self) -> (r: Option<&yrs::TransactionMut<'doc>>)
        ensures
            r is Some == self.is_open(),
            r is Some ==> *r->0 == self.txn(),
    {
        self.inner.as_ref()
    }

    /// The open transaction of the CRDT library, for writing.
    pub(crate) fn open_mut(&mut self) -> (r: Option<&mut yrs::TransactionMut<'doc>>)
        ensures
            r is Some == old(self).is_open(),
            final(self).is_open() == old(self).is_open(),
            r is Some ==> *r.unwrap() == old(self).txn() && final(self).txn() == *final(r.unwrap()),
    {
        self.inner.as_mut()
    }
}

// ---------------------------------------------------------------------------
// Laws
// ---------------------------------------------------------------------------

/// Two calls of `Doc::get_or_insert_text` with one name on one document give
/// the same text.
pub proof fn lemma_root_text_unique(r1: yrs::TextRef, r2: yrs::TextRef, doc: yrs::Doc, name: Seq<char>)
    requires
        is_root_text(r1, doc, name),
        is_root_text(r2, doc, name),
    ensures
        r1 == r2,
{
}

/// Two calls of `Doc::get_or_insert_map` with one name on one document give
/// the same map.
pub proof fn lemma_root_map_unique(r1: yrs::MapRef, r2: yrs::MapRef, doc: yrs::Doc, name: Seq<char>)
    requires
        is_root_map(r1, doc, name),
        is_root_map(r2, doc, name),
    ensures
        r1 == r2,
{
}

/// Two calls of `Doc::get_or_insert_array` with one name on one document give
/// the same array.
pub proof fn lemma_root_array_unique(r1: yrs::ArrayRef, r2: yrs::ArrayRef, doc: yrs::Doc, name: Seq<char>)
    requires
        is_root_array(r1, doc, name),
        is_root_array(r2, doc, name),
    ensures
        r1 == r2,
{
}

} // verus!
