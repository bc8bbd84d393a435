//! Shared arrays, edited by element index inside a transaction.
//!
//! An array is read and edited through a transaction on its own document.
use crate::doc::{txn_doc, Transaction};
use crate::error::Error;
use crate::map::{map_doc, map_entries_in, MapRef};
use crate::prelim::{input_view, lemma_entries_map, prelim_input, InputView, Prelim, PrelimType};
use crate::text::{text_doc, text_string_in, TextRef};
use vstd::prelude::*;
use yrs::Array;
use yrs::ArrayPrelim as YArrayPrelim;
use yrs::ArrayRef as YArrayRef;
use yrs::MapPrelim as YMapPrelim;
use yrs::Out as YOut;
use yrs::TextPrelim as YTextPrelim;
use yrs::TransactionMut as YTransactionMut;

verus! {

#[verifier::external_type_specification]
#[verifier::external_body]
pub struct ExYArrayRef(YArrayRef);

#[verifier::external_type_specification]
#[verifier::external_body]
pub struct ExYOut(YOut);

/// What an element of an array is: a plain value, or the handle of a
/// shared text, array or map nested in it, or another kind of shared type.
pub enum ItemView {
    Any(yrs::Any),
    Text(yrs::TextRef),
    Array(yrs::ArrayRef),
    Mapping(yrs::MapRef),
    Other,
}

/// The document whose store holds the branch behind the handle.
pub uninterp spec fn array_doc(array: yrs::ArrayRef) -> yrs::Doc;

/// The elements that `yrs::Array::get` reads from `array`, index by index,
/// while `txn` holds its document; their number is what `yrs::Array::len`
/// counts. Both read the branch itself, so this name describes only pairs in
/// which the array belongs to the transaction's document; every call that
/// reads or edits an array asks for that.
pub uninterp spec fn array_items_in(txn: yrs::TransactionMut, array: yrs::ArrayRef) -> Seq<ItemView>;

/// What a `yrs::Out` read from an array is: `Out::Any` a plain value,
/// `Out::YText`, `Out::YArray` and `Out::YMap` the handle of the nested
/// shared type, anything else another kind.
pub uninterp spec fn out_view(out: yrs::Out) -> ItemView;

/// `after` is `before` with one element put at `index`: the elements before
/// it keep their places and those from `index` on move up by one.
pub open spec fn inserted_at(before: Seq<ItemView>, after: Seq<ItemView>, index: int) -> bool {
    &&& after.len() == before.len() + 1
    &&& after.take(index) == before.take(index)
    &&& after.skip(index + 1) == before.skip(index)
}

/// A handle in `item` belongs to the document `doc`.
pub open spec fn item_of_doc(item: ItemView, doc: yrs::Doc) -> bool {
    match item {
        ItemView::Text(t) => text_doc(t) == doc,
        ItemView::Array(a) => array_doc(a) == doc,
        ItemView::Mapping(m) => map_doc(m) == doc,
        _ => true,
    }
}

/// The new element `item` holds what the input describes, as `txn` sees it:
/// the plain value itself, or a new text, array or map of the transaction's
/// document holding the string, the plain values in order, or the named
/// plain values.
pub open spec fn holds_input(txn: yrs::TransactionMut, item: ItemView, input: InputView) -> bool {
    &&& item_of_doc(item, txn_doc(txn))
    &&& match input {
        InputView::Any(v) => item == ItemView::Any(v),
        InputView::Text(s) => item matches ItemView::Text(t) && text_string_in(txn, t) == s,
        InputView::Array(vs) => item matches ItemView::Array(b) && array_items_in(txn, b)
            == vs.map_values(|v: yrs::Any| ItemView::Any(v)),
        InputView::Entries(m) => item matches ItemView::Mapping(e) && map_entries_in(txn, e)
            == m.map_values(|v: yrs::Any| ItemView::Any(v)),
    }
}

/// Inserting into `array` kept the transaction's document and changed no
/// other array, text or map of it, except the shared type `item` that the
/// insertion made.
pub open spec fn others_unchanged(
    before: yrs::TransactionMut,
    after: yrs::TransactionMut,
    array: yrs::ArrayRef,
    item: ItemView,
) -> bool {
    &&& txn_doc(after) == txn_doc(before)
    &&& forall|b: yrs::ArrayRef|
        b != array && item != ItemView::Array(b) && array_doc(b) == txn_doc(before)
            ==> #[trigger] array_items_in(after, b) == array_items_in(before, b)
    &&& forall|t: yrs::TextRef|
        item != ItemView::Text(t) && text_doc(t) == txn_doc(before) ==> #[trigger] text_string_in(
            after,
            t,
        ) == text_string_in(before, t)
    &&& forall|m: yrs::MapRef|
        item != ItemView::Mapping(m) && map_doc(m) == txn_doc(before) ==> #[trigger] map_entries_in(
            after,
            m,
        ) == map_entries_in(before, m)
}

/// Calls `yrs::Array::len`, the number of elements.
#[verifier::external_body]
fn array_length(txn: &YTransactionMut, array: &YArrayRef) -> (r: u32)
    requires
        array_doc(*array) == txn_doc(*txn),
    ensures
        r == array_items_in(*txn, *array).len(),
{
    array.len(txn)
}

/// Calls `yrs::Array::insert` with a `yrs::In`. It panics where `index` is
/// past the end; otherwise the value that the input describes is put at
/// `index` (a new text, array or map for a prelim), and no other array or
/// text changes.
#[verifier::external_body]
fn array_insert_in(txn: &mut YTransactionMut, array: &YArrayRef, index: u32, value: yrs::In)
    requires
        array_doc(*array) == txn_doc(*old(txn)),
        index <= array_items_in(*old(txn), *array).len() < u32::MAX,
    ensures
        inserted_at(array_items_in(*old(txn), *array), array_items_in(*final(txn), *array), index as int),
        holds_input(*final(txn), array_items_in(*final(txn), *array)[index as int], input_view(value)),
        others_unchanged(*old(txn), *final(txn), *array, array_items_in(*final(txn), *array)[index as int]),
{
    array.insert(txn, index, value);
}

/// Calls `yrs::Array::insert` with a `yrs::Any`: the value is put at `index`.
#[verifier::external_body]
fn array_insert_any(txn: &mut YTransactionMut, array: &YArrayRef, index: u32, value: yrs::Any)
    requires
        array_doc(*array) == txn_doc(*old(txn)),
        index <= array_items_in(*old(txn), *array).len() < u32::MAX,
    ensures
        inserted_at(array_items_in(*old(txn), *array), array_items_in(*final(txn), *array), index as int),
        array_items_in(*final(txn), *array)[index as int] == ItemView::Any(value),
        others_unchanged(*old(txn), *final(txn), *array, ItemView::Any(value)),
{
    array.insert(txn, index, value);
}

/// Calls `yrs::Array::insert` with an empty `yrs::TextPrelim`: the new text,
/// empty, is put at `index` and returned.
#[verifier::external_body]
fn array_insert_text(txn: &mut YTransactionMut, array: &YArrayRef, index: u32) -> (r: yrs::TextRef)
    requires
        array_doc(*array) == txn_doc(*old(txn)),
        index <= array_items_in(*old(txn), *array).len() < u32::MAX,
    ensures
        inserted_at(array_items_in(*old(txn), *array), array_items_in(*final(txn), *array), index as int),
        array_items_in(*final(txn), *array)[index as int] == ItemView::Text(r),
        text_doc(r) == txn_doc(*old(txn)),
        text_string_in(*final(txn), r) == Seq::<char>::empty(),
        others_unchanged(*old(txn), *final(txn), *array, ItemView::Text(r)),
{
    array.insert(txn, index, YTextPrelim::default())
}

/// Calls `yrs::Array::insert` with an empty `yrs::ArrayPrelim`: the new
/// array, empty, is put at `index` and returned.
#[verifier::external_body]
fn array_insert_array(txn: &mut YTransactionMut, array: &YArrayRef, index: u32) -> (r: yrs::ArrayRef)
    requires
        array_doc(*array) == txn_doc(*old(txn)),
        index <= array_items_in(*old(txn), *array).len() < u32::MAX,
    ensures
        inserted_at(array_items_in(*old(txn), *array), array_items_in(*final(txn), *array), index as int),
        array_items_in(*final(txn), *array)[index as int] == ItemView::Array(r),
        array_doc(r) == txn_doc(*old(txn)),
        array_items_in(*final(txn), r) == Seq::<ItemView>::empty(),
        others_unchanged(*old(txn), *final(txn), *array, ItemView::Array(r)),
{
    array.insert(txn, index, YArrayPrelim::default())
}

/// Calls `yrs::Array::insert` with an empty `yrs::MapPrelim`: the new map is
/// put at `index` and returned.
#[verifier::external_body]
fn array_insert_map(txn: &mut YTransactionMut, array: &YArrayRef, index: u32) -> (r: yrs::MapRef)
    requires
        array_doc(*array) == txn_doc(*old(txn)),
        index <= array_items_in(*old(txn), *array).len() < u32::MAX,
    ensures
        inserted_at(array_items_in(*old(txn), *array), array_items_in(*final(txn), *array), index as int),
        array_items_in(*final(txn), *array)[index as int] == ItemView::Mapping(r),
        map_doc(r) == txn_doc(*old(txn)),
        map_entries_in(*final(txn), r) =~= Map::empty(),
        others_unchanged(*old(txn), *final(txn), *array, ItemView::Mapping(r)),
{
    array.insert(txn, index, YMapPrelim::default())
}

/// Calls `yrs::Array::remove`. It panics where no element stands at `index`;
/// otherwise exactly that element goes and the later ones move down by one.
/// What becomes of the contents of a removed nested type is left unsaid.
#[verifier::external_body]
fn array_remove(txn: &mut YTransactionMut, array: &YArrayRef, index: u32)
    requires
        array_doc(*array) == txn_doc(*old(txn)),
        index < array_items_in(*old(txn), *array).len(),
    ensures
        array_items_in(*final(txn), *array) == array_items_in(*old(txn), *array).remove(index as int),
        txn_doc(*final(txn)) == txn_doc(*old(txn)),
{
    array.remove(txn, index)
}

/// Calls `yrs::Array::get`: the element at `index`, `None` past the end.
#[verifier::external_body]
fn array_get(txn: &YTransactionMut, array: &YArrayRef, index: u32) -> (r: Option<yrs::Out>)
    requires
        array_doc(*array) == txn_doc(*txn),
    ensures
        r is Some == (index < array_items_in(*txn, *array).len()),
        r matches Some(o) ==> out_view(o) == array_items_in(*txn, *array)[index as int],
        r matches Some(o) ==> item_of_doc(out_view(o), txn_doc(*txn)),
{
    array.get(txn, index)
}

/// A shared array.
pub struct ArrayRef {
    inner: yrs::ArrayRef,
}

impl ArrayRef {
    /// The handle of the CRDT library inside.
    pub closed spec fn handle(&self) -> yrs::ArrayRef {
        self.inner
    }

    /// The document the array belongs to.
    pub open spec fn document(&self) -> yrs::Doc {
        array_doc(self.handle())
    }

    /// The elements as seen through an open transaction.
    pub open spec fn items(&self, txn: Transaction) -> Seq<ItemView> {
        array_items_in(txn.txn(), self.handle())
    }

    /// The number of elements as seen through an open transaction.
    pub open spec fn length(&self, txn: Transaction) -> nat {
        self.items(txn).len()
    }

    /// The handle of the CRDT library inside.
    pub fn as_yrs(&self) -> (r: &yrs::ArrayRef)
        ensures
            *r == self.handle(),
    {
        &self.inner
    }

    /// Wraps an array handle of the CRDT library.
    pub fn from_yrs(inner: yrs::ArrayRef) -> (r: ArrayRef)
        ensures
            r.handle() == inner,
    {
        ArrayRef { inner }
    }

    /// The number of elements, where the transaction is open.
    pub fn len_ec(&self, transaction: &Transaction) -> (r: Result<u32, Error>)
        requires
            transaction.is_open() ==> self.document() == transaction.document(),
        ensures
            match r {
                Ok(n) => transaction.is_open() && n == self.length(*transaction),
                Err(e) => !transaction.is_open() && e is TransactionClosed,
            },
    {
        match transaction.open_ref() {
            Some(t) => Ok(array_length(t, &self.inner)),
            None => Err(Error::TransactionClosed),
        }
    }

    /// Inserts the value that `prelim` describes at `index`; no other array
    /// or text changes.
    pub fn insert_ec(&self, transaction: &mut Transaction, index: u32, prelim: &Prelim) -> (r: Result<(), Error>)
        requires
            old(transaction).is_open() ==> self.document() == old(transaction).document(),
            old(transaction).is_open() ==> index <= self.length(*old(transaction)) < u32::MAX,
        ensures
            final(transaction).is_open() == old(transaction).is_open(),
            match r {
                Ok(()) => old(transaction).is_open() && inserted_at(
                    self.items(*old(transaction)),
                    self.items(*final(transaction)),
                    index as int,
                ) && holds_input(
                    final(transaction).txn(),
                    self.items(*final(transaction))[index as int],
                    prelim_input(prelim.0),
                ) && others_unchanged(
                    old(transaction).txn(),
                    final(transaction).txn(),
                    self.handle(),
                    self.items(*final(transaction))[index as int],
                ),
                Err(e) => !old(transaction).is_open() && e is TransactionClosed,
            },
    {
        let input = prelim.to_in();
        match transaction.open_mut() {
            Some(t) => {
                array_insert_in(t, &self.inner, index, input);
                Ok(())
            },
            None => Err(Error::TransactionClosed),
        }
    }

    /// Inserts a plain value at `index`; no other array or text changes.
    pub fn insert_any_ec(&self, transaction: &mut Transaction, index: u32, value: yrs::Any) -> (r: Result<(), Error>)
        requires
            old(transaction).is_open() ==> self.document() == old(transaction).document(),
            old(transaction).is_open() ==> index <= self.length(*old(transaction)) < u32::MAX,
        ensures
            final(transaction).is_open() == old(transaction).is_open(),
            match r {
                Ok(()) => old(transaction).is_open() && inserted_at(
                    self.items(*old(transaction)),
                    self.items(*final(transaction)),
                    index as int,
                ) && self.items(*final(transaction))[index as int] == ItemView::Any(value)
                    && others_unchanged(
                    old(transaction).txn(),
                    final(transaction).txn(),
                    self.handle(),
                    ItemView::Any(value),
                ),
                Err(e) => !old(transaction).is_open() && e is TransactionClosed,
            },
    {
        match transaction.open_mut() {
            Some(t) => {
                array_insert_any(t, &self.inner, index, value);
                Ok(())
            },
            None => Err(Error::TransactionClosed),
        }
    }

    /// Inserts a new empty text at `index` and returns it.
    pub fn insert_text_ec(&self, transaction: &mut Transaction, index: u32) -> (r: Result<TextRef, Error>)
        requires
            old(transaction).is_open() ==> self.document() == old(transaction).document(),
            old(transaction).is_open() ==> index <= self.length(*old(transaction)) < u32::MAX,
        ensures
            final(transaction).is_open() == old(transaction).is_open(),
            match r {
                Ok(text) => old(transaction).is_open() && inserted_at(
                    self.items(*old(transaction)),
                    self.items(*final(transaction)),
                    index as int,
                ) && self.items(*final(transaction))[index as int] == ItemView::Text(text.handle())
                    && text.document() == self.document()
                    && text.content(*final(transaction)) == Seq::<char>::empty()
                    && others_unchanged(
                    old(transaction).txn(),
                    final(transaction).txn(),
                    self.handle(),
                    ItemView::Text(text.handle()),
                ),
                Err(e) => !old(transaction).is_open() && e is TransactionClosed,
            },
    {
        match transaction.open_mut() {
            Some(t) => Ok(TextRef::from_yrs(array_insert_text(t, &self.inner, index))),
            None => Err(Error::TransactionClosed),
        }
    }

    /// Inserts a new empty array at `index` and returns it.
    pub fn insert_array_ec(&self, transaction: &mut Transaction, index: u32) -> (r: Result<ArrayRef, Error>)
        requires
            old(transaction).is_open() ==> self.document() == old(transaction).document(),
            old(transaction).is_open() ==> index <= self.length(*old(transaction)) < u32::MAX,
        ensures
            final(transaction).is_open() == old(transaction).is_open(),
            match r {
                Ok(array) => old(transaction).is_open() && inserted_at(
                    self.items(*old(transaction)),
                    self.items(*final(transaction)),
                    index as int,
                ) && self.items(*final(transaction))[index as int] == ItemView::Array(array.handle())
                    && array.document() == self.document()
                    && array.items(*final(transaction)) == Seq::<ItemView>::empty()
                    && others_unchanged(
                    old(transaction).txn(),
                    final(transaction).txn(),
                    self.handle(),
                    ItemView::Array(array.handle()),
                ),
                Err(e) => !old(transaction).is_open() && e is TransactionClosed,
            },
    {
        match transaction.open_mut() {
            Some(t) => Ok(ArrayRef::from_yrs(array_insert_array(t, &self.inner, index))),
            None => Err(Error::TransactionClosed),
        }
    }

    /// Inserts a new empty map at `index` and returns it.
    pub fn insert_map_ec(&self, transaction: &mut Transaction, index: u32) -> (r: Result<MapRef, Error>)
        requires
            old(transaction).is_open() ==> self.document() == old(transaction).document(),
            old(transaction).is_open() ==> index <= self.length(*old(transaction)) < u32::MAX,
        ensures
            final(transaction).is_open() == old(transaction).is_open(),
            match r {
                Ok(map) => old(transaction).is_open() && inserted_at(
                    self.items(*old(transaction)),
                    self.items(*final(transaction)),
                    index as int,
                ) && self.items(*final(transaction))[index as int] == ItemView::Mapping(map.handle())
                    && map.document() == self.document() && map_entries_in(
                    final(transaction).txn(),
                    map.handle(),
                ) == Map::<Seq<char>, ItemView>::empty()
                    && others_unchanged(
                    old(transaction).txn(),
                    final(transaction).txn(),
                    self.handle(),
                    ItemView::Mapping(map.handle()),
                ),
                Err(e) => !old(transaction).is_open() && e is TransactionClosed,
            },
    {
        match transaction.open_mut() {
            Some(t) => Ok(MapRef::from_yrs(array_insert_map(t, &self.inner, index))),
            None => Err(Error::TransactionClosed),
        }
    }

    /// The element at `index`: `None` past the end.
    pub fn get_ec(&self, transaction: &Transaction, index: u32) -> (r: Result<Option<yrs::Out>, Error>)
        requires
            transaction.is_open() ==> self.document() == transaction.document(),
        ensures
            match r {
                Ok(v) => transaction.is_open() && (v is Some == (index < self.length(*transaction)))
                    && (v matches Some(o) ==> out_view(o) == self.items(*transaction)[index as int]
                    && item_of_doc(out_view(o), self.document())),
                Err(e) => !transaction.is_open() && e is TransactionClosed,
            },
    {
        match transaction.open_ref() {
            Some(t) => Ok(array_get(t, &self.inner, index)),
            None => Err(Error::TransactionClosed),
        }
    }

    /// Removes the element at `index`; the later ones move down by one.
    pub fn remove_ec(&self, transaction: &mut Transaction, index: u32) -> (r: Result<(), Error>)
        requires
            old(transaction).is_open() ==> self.document() == old(transaction).document(),
            old(transaction).is_open() ==> index < self.length(*old(transaction)),
        ensures
            final(transaction).is_open() == old(transaction).is_open(),
            match r {
                Ok(()) => old(transaction).is_open() && self.items(*final(transaction)) == self.items(
                    *old(transaction),
                ).remove(index as int) && final(transaction).document() == old(transaction).document(),
                Err(e) => !old(transaction).is_open() && e is TransactionClosed,
            },
    {
        match transaction.open_mut() {
            Some(t) => {
                array_remove(t, &self.inner, index);
                Ok(())
            },
            None => Err(Error::TransactionClosed),
        }
    }

    /// `insert_ec` for any index: an index past the end is refused with
    /// `IndexOutOfRange`, and a full array with `LengthOverflow`; a refused
    /// call changes nothing.
    pub fn try_insert(&self, transaction: &mut Transaction, index: u32, prelim: &Prelim) -> (r: Result<(), Error>)
        requires
            old(transaction).is_open() ==> self.document() == old(transaction).document(),
        ensures
            final(transaction).is_open() == old(transaction).is_open(),
            match r {
                Ok(()) => old(transaction).is_open() && index <= self.length(*old(transaction))
                    && inserted_at(
                    self.items(*old(transaction)),
                    self.items(*final(transaction)),
                    index as int,
                ) && holds_input(
                    final(transaction).txn(),
                    self.items(*final(transaction))[index as int],
                    prelim_input(prelim.0),
                ) && others_unchanged(
                    old(transaction).txn(),
                    final(transaction).txn(),
                    self.handle(),
                    self.items(*final(transaction))[index as int],
                ),
                Err(Error::TransactionClosed) => !old(transaction).is_open(),
                Err(Error::IndexOutOfRange) => old(transaction).is_open() && index > self.length(
                    *old(transaction),
                ) && final(transaction).txn() == old(transaction).txn(),
                Err(Error::LengthOverflow) => old(transaction).is_open() && self.length(
                    *old(transaction),
                ) == u32::MAX && final(transaction).txn() == old(transaction).txn(),
                Err(_) => false,
            },
    {
        let input = prelim.to_in();
        match transaction.open_mut() {
            Some(t) => {
                let len: u32 = array_length(t, &self.inner);
                if index > len {
                    return Err(Error::IndexOutOfRange);
                }
                if len == u32::MAX {
                    return Err(Error::LengthOverflow);
                }
                array_insert_in(t, &self.inner, index, input);
                Ok(())
            },
            None => Err(Error::TransactionClosed),
        }
    }

    /// `remove_ec` for any index: an index with no element is refused with
    /// `IndexOutOfRange`, and changes nothing.
    pub fn try_remove(&self, transaction: &mut Transaction, index: u32) -> (r: Result<(), Error>)
        requires
            old(transaction).is_open() ==> self.document() == old(transaction).document(),
        ensures
            final(transaction).is_open() == old(transaction).is_open(),
            match r {
                Ok(()) => old(transaction).is_open() && index < self.length(*old(transaction))
                    && self.items(*final(transaction)) == self.items(*old(transaction)).remove(
                    index as int,
                ) && final(transaction).document() == old(transaction).document(),
                Err(Error::TransactionClosed) => !old(transaction).is_open(),
                Err(Error::IndexOutOfRange) => old(transaction).is_open() && index >= self.length(
                    *old(transaction),
                ) && final(transaction).txn() == old(transaction).txn(),
                Err(_) => false,
            },
    {
        match transaction.open_mut() {
            Some(t) => {
                let len: u32 = array_length(t, &self.inner);
                if index >= len {
                    return Err(Error::IndexOutOfRange);
                }
                array_remove(t, &self.inner, index);
                Ok(())
            },
            None => Err(Error::TransactionClosed),
        }
    }
}

// ---------------------------------------------------------------------------
// Laws
// ---------------------------------------------------------------------------

/// After an insertion at `index`, the element read at `index` is the one put
/// there, and removing it gives back the elements from before.
pub proof fn lemma_remove_undoes_insert(before: Seq<ItemView>, after: Seq<ItemView>, index: int)
    requires
        0 <= index <= before.len(),
        inserted_at(before, after, index),
    ensures
        index < after.len(),
        after.remove(index) == before,
{
    assert(after.remove(index) =~= before) by {
        assert forall|i: int| 0 <= i < before.len() implies #[trigger] after.remove(index)[i] == before[i] by {
            if i < index {
                assert(after.take(index)[i] == before.take(index)[i]);
            } else {
                assert(after.skip(index + 1)[i - index] == before.skip(index)[i - index]);
            }
        }
    }
}

/// After an insertion at `index`, the elements before it are read at the same
/// indexes and those after it one index further on.
pub proof fn lemma_insert_keeps_others(before: Seq<ItemView>, after: Seq<ItemView>, index: int, i: int)
    requires
        0 <= index <= before.len(),
        inserted_at(before, after, index),
        0 <= i < before.len(),
    ensures
        i < index ==> after[i] == before[i],
        i >= index ==> after[i + 1] == before[i],
{
    if i < index {
        assert(after.take(index)[i] == before.take(index)[i]);
    } else {
        assert(after.skip(index + 1)[i - index] == before.skip(index)[i - index]);
    }
}

/// Inserting a text prelim puts in a new text holding the prelim's string.
pub proof fn lemma_text_prelim_inserted(txn: yrs::TransactionMut, item: ItemView, text: String)
    requires
        holds_input(txn, item, prelim_input(PrelimType::Text(text))),
    ensures
        item matches ItemView::Text(t) && text_string_in(txn, t) == text@,
{
}

/// Inserting an array prelim puts in a new array holding the prelim's values
/// in order.
pub proof fn lemma_array_prelim_inserted(txn: yrs::TransactionMut, item: ItemView, values: Vec<yrs::Any>)
    requires
        holds_input(txn, item, prelim_input(PrelimType::Array(values))),
    ensures
        item matches ItemView::Array(b) && array_items_in(txn, b).len() == values@.len() && forall|i: int|
            0 <= i < values@.len() ==> #[trigger] array_items_in(txn, b)[i] == ItemView::Any(values@[i]),
{
}

/// Inserting a map prelim puts in a new map in which every name of the
/// prelim is a key, under which stands the value of the last entry with
/// that name, and which has no other key.
pub proof fn lemma_map_prelim_inserted(txn: yrs::TransactionMut, item: ItemView, entries: Vec<(String, yrs::Any)>)
    requires
        holds_input(txn, item, prelim_input(PrelimType::Mapping(entries))),
    ensures
        item matches ItemView::Mapping(m) && (forall|i: int|
            0 <= i < entries@.len() ==> map_entries_in(txn, m).contains_key(#[trigger] entries@[i].0@))
            && (forall|i: int|
            0 <= i < entries@.len() && (forall|j: int|
                i < j < entries@.len() ==> entries@[j].0@ != entries@[i].0@) ==> map_entries_in(txn, m)[#[trigger] entries@[i].0@]
                == ItemView::Any(entries@[i].1)) && (forall|k: Seq<char>|
            #[trigger] map_entries_in(txn, m).contains_key(k) ==> exists|i: int|
                0 <= i < entries@.len() && entries@[i].0@ == k),
{
    lemma_entries_map(entries@);
}

/// Inserting a plain-value prelim puts in that value.
pub proof fn lemma_any_prelim_inserted(txn: yrs::TransactionMut, item: ItemView, value: yrs::Any)
    requires
        holds_input(txn, item, prelim_input(PrelimType::Any(value))),
    ensures
        item == ItemView::Any(value),
{
}

} // verus!
