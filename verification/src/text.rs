//! Shared texts, edited by UTF-8 byte offsets inside a transaction.
//!
//! The contents are stated for texts of documents made by `Doc::new`, which
//! count offsets in UTF-8 bytes, and for texts that hold only strings, which
//! is all that this library ever puts into a text. A text is read and edited
//! through a transaction on its own document.
use crate::doc::Transaction;
use crate::array::{array_doc, array_items_in};
use crate::doc::txn_doc;
use crate::map::{map_doc, map_entries_in};
use crate::error::Error;
use vstd::prelude::*;
use vstd::string::StringSliceAdditionalSpecFns;
use vstd::utf8::{
    decode_utf8, encode_scalar, encode_utf8, encode_utf8_decode_utf8, encode_utf8_first_scalar,
    encode_utf8_valid_utf8, is_ascii_chars, is_ascii_chars_encode_utf8, is_char_boundary,
    pop_first_scalar,
};
use yrs::GetString;
use yrs::Text;
use yrs::TextRef as YTextRef;
use yrs::TransactionMut as YTransactionMut;

verus! {

#[verifier::external_type_specification]
#[verifier::external_body]
pub struct ExYTextRef(YTextRef);

/// The document whose store holds the branch behind the handle.
pub uninterp spec fn text_doc(text: yrs::TextRef) -> yrs::Doc;

/// The string that `yrs::GetString::get_string` reads from `text` while
/// `txn` holds its document. `get_string` reads the branch itself, so this
/// name describes only pairs in which the text belongs to the transaction's
/// document; every call that reads or edits a text asks for that.
pub uninterp spec fn text_string_in(txn: yrs::TransactionMut, text: yrs::TextRef) -> Seq<char>;

/// The UTF-8 bytes of a text.
pub open spec fn text_bytes(txn: yrs::TransactionMut, text: yrs::TextRef) -> Seq<u8> {
    encode_utf8(text_string_in(txn, text))
}

/// Editing `text` kept the transaction's document and changed no other
/// text, array or map of it.
pub open spec fn only_text_changed(before: yrs::TransactionMut, after: yrs::TransactionMut, text: yrs::TextRef) -> bool {
    &&& txn_doc(after) == txn_doc(before)
    &&& forall|t: yrs::TextRef|
        t != text && text_doc(t) == txn_doc(before) ==> #[trigger] text_string_in(after, t)
            == text_string_in(before, t)
    &&& forall|b: yrs::ArrayRef|
        array_doc(b) == txn_doc(before) ==> #[trigger] array_items_in(after, b) == array_items_in(before, b)
    &&& forall|m: yrs::MapRef|
        map_doc(m) == txn_doc(before) ==> #[trigger] map_entries_in(after, m) == map_entries_in(before, m)
}

/// The bytes after inserting `chunk` at byte offset `index`.
pub open spec fn spliced(bytes: Seq<u8>, index: int, chunk: Seq<u8>) -> Seq<u8> {
    bytes.take(index) + chunk + bytes.skip(index)
}

/// The bytes after removing `len` bytes from byte offset `index`.
pub open spec fn cut(bytes: Seq<u8>, index: int, len: int) -> Seq<u8> {
    bytes.take(index) + bytes.skip(index + len)
}

/// Calls `yrs::Text::len`, the length that yrs keeps for the text: its
/// number of UTF-8 bytes, where that fits in a `u32`. This holds of texts of
/// documents made by `yrs::Doc::new`, whose offsets count bytes, that hold
/// only strings; texts with embedded values are left unsaid.
#[verifier::external_body]
fn text_length(txn: &YTransactionMut, text: &YTextRef) -> (r: u32)
    requires
        text_doc(*text) == txn_doc(*txn),
    ensures
        text_bytes(*txn, *text).len() <= u32::MAX ==> r == text_bytes(*txn, *text).len(),
{
    text.len(txn)
}

/// Calls `yrs::GetString::get_string` of the text.
#[verifier::external_body]
fn text_get_string(txn: &YTransactionMut, text: &YTextRef) -> (r: String)
    requires
        text_doc(*text) == txn_doc(*txn),
    ensures
        r@ == text_string_in(*txn, *text),
{
    text.get_string(txn)
}

/// Calls `yrs::Text::insert`. It panics where `index` is past the end, so
/// `index` must be a character boundary of the text's bytes (the end
/// included); then `chunk` lands at that offset.
#[verifier::external_body]
fn text_insert(txn: &mut YTransactionMut, text: &YTextRef, index: u32, chunk: &str)
    requires
        text_doc(*text) == txn_doc(*old(txn)),
        is_char_boundary(text_bytes(*old(txn), *text), index as int),
        text_bytes(*old(txn), *text).len() + chunk.spec_bytes().len() <= u32::MAX,
    ensures
        only_text_changed(*old(txn), *final(txn), *text),
        text_bytes(*final(txn), *text) == spliced(
            text_bytes(*old(txn), *text),
            index as int,
            chunk.spec_bytes(),
        ),
{
    text.insert(txn, index, chunk)
}

/// Calls `yrs::Text::push`, which inserts `chunk` at the end.
#[verifier::external_body]
fn text_push(txn: &mut YTransactionMut, text: &YTextRef, chunk: &str)
    requires
        text_doc(*text) == txn_doc(*old(txn)),
        text_bytes(*old(txn), *text).len() + chunk.spec_bytes().len() <= u32::MAX,
    ensures
        only_text_changed(*old(txn), *final(txn), *text),
        text_bytes(*final(txn), *text) == text_bytes(*old(txn), *text) + chunk.spec_bytes(),
{
    text.push(txn, chunk)
}

/// Calls `yrs::Text::remove_range`. It panics where fewer than `len` units
/// follow `index`, so both ends must be character boundaries of the text's
/// bytes; then exactly those bytes go.
#[verifier::external_body]
fn text_remove_range(txn: &mut YTransactionMut, text: &YTextRef, index: u32, len: u32)
    requires
        text_doc(*text) == txn_doc(*old(txn)),
        is_char_boundary(text_bytes(*old(txn), *text), index as int),
        is_char_boundary(text_bytes(*old(txn), *text), index + len),
    ensures
        only_text_changed(*old(txn), *final(txn), *text),
        text_bytes(*final(txn), *text) == cut(
            text_bytes(*old(txn), *text),
            index as int,
            len as int,
        ),
{
    text.remove_range(txn, index, len)
}

/// A shared text.
pub struct TextRef {
    inner: yrs::TextRef,
}

impl TextRef {
    /// The handle of the CRDT library inside.
    pub closed spec fn handle(&self) -> yrs::TextRef {
        self.inner
    }

    /// The document the text belongs to.
    pub open spec fn document(&self) -> yrs::Doc {
        text_doc(self.handle())
    }

    /// The string of this text as seen through an open transaction.
    pub open spec fn content(&self, txn: Transaction) -> Seq<char> {
        text_string_in(txn.txn(), self.handle())
    }

    /// The UTF-8 bytes of this text as seen through an open transaction.
    pub open spec fn bytes(&self, txn: Transaction) -> Seq<u8> {
        encode_utf8(self.content(txn))
    }

    /// The handle of the CRDT library inside.
    pub fn as_yrs(&self) -> (r: &yrs::TextRef)
        ensures
            *r == self.handle(),
    {
        &self.inner
    }

    /// Wraps a text handle of the CRDT library.
    pub fn from_yrs(inner: yrs::TextRef) -> (r: TextRef)
        ensures
            r.handle() == inner,
    {
        TextRef { inner }
    }

    /// The length in UTF-8 bytes, where the transaction is open.
    pub fn len_ec(&self, transaction: &Transaction) -> (r: Result<u32, Error>)
        requires
            transaction.is_open() ==> self.document() == transaction.document(),
        ensures
            match r {
                Ok(n) => transaction.is_open() && (self.bytes(*transaction).len() <= u32::MAX
                    ==> n == self.bytes(*transaction).len()),
                Err(e) => !transaction.is_open() && e is TransactionClosed,
            },
    {
        match transaction.open_ref() {
            Some(t) => Ok(text_length(t, &self.inner)),
            None => Err(Error::TransactionClosed),
        }
    }

    /// The string, where the transaction is open.
    pub fn get_string_ec(&self, transaction: &Transaction) -> (r: Result<String, Error>)
        requires
            transaction.is_open() ==> self.document() == transaction.document(),
        ensures
            match r {
                Ok(s) => transaction.is_open() && s@ == self.content(*transaction),
                Err(e) => !transaction.is_open() && e is TransactionClosed,
            },
    {
        match transaction.open_ref() {
            Some(t) => Ok(text_get_string(t, &self.inner)),
            None => Err(Error::TransactionClosed),
        }
    }

    /// Inserts `chunk` at the byte offset `index`, which must be a character
    /// boundary of the text.
    pub fn insert_ec(&self, transaction: &mut Transaction, index: u32, chunk: &str) -> (r: Result<(), Error>)
        requires
            old(transaction).is_open() ==> self.document() == old(transaction).document(),
            old(transaction).is_open() ==> is_char_boundary(
                self.bytes(*old(transaction)),
                index as int,
            ),
            old(transaction).is_open() ==> self.bytes(*old(transaction)).len()
                + chunk.spec_bytes().len() <= u32::MAX,
        ensures
            final(transaction).is_open() == old(transaction).is_open(),
            match r {
                Ok(()) => old(transaction).is_open() && self.bytes(*final(transaction)) == spliced(
                    self.bytes(*old(transaction)),
                    index as int,
                    chunk.spec_bytes(),
                ) && only_text_changed(old(transaction).txn(), final(transaction).txn(), self.handle()),
                Err(e) => !old(transaction).is_open() && e is TransactionClosed,
            },
    {
        match transaction.open_mut() {
            Some(t) => {
                text_insert(t, &self.inner, index, chunk);
                Ok(())
            },
            None => Err(Error::TransactionClosed),
        }
    }

    /// Appends `chunk` at the end.
    pub fn push_ec(&self, transaction: &mut Transaction, chunk: &str) -> (r: Result<(), Error>)
        requires
            old(transaction).is_open() ==> self.document() == old(transaction).document(),
            old(transaction).is_open() ==> self.bytes(*old(transaction)).len()
                + chunk.spec_bytes().len() <= u32::MAX,
        ensures
            final(transaction).is_open() == old(transaction).is_open(),
            match r {
                Ok(()) => old(transaction).is_open() && self.bytes(*final(transaction))
                    == self.bytes(*old(transaction)) + chunk.spec_bytes() && only_text_changed(
                    old(transaction).txn(),
                    final(transaction).txn(),
                    self.handle(),
                ),
                Err(e) => !old(transaction).is_open() && e is TransactionClosed,
            },
    {
        match transaction.open_mut() {
            Some(t) => {
                text_push(t, &self.inner, chunk);
                Ok(())
            },
            None => Err(Error::TransactionClosed),
        }
    }

    /// Removes `len` bytes from the byte offset `index`; both ends must be
    /// character boundaries of the text.
    pub fn remove_range_ec(&self, transaction: &mut Transaction, index: u32, len: u32) -> (r: Result<(), Error>)
        requires
            old(transaction).is_open() ==> self.document() == old(transaction).document(),
            old(transaction).is_open() ==> is_char_boundary(
                self.bytes(*old(transaction)),
                index as int,
            ),
            old(transaction).is_open() ==> is_char_boundary(
                self.bytes(*old(transaction)),
                index + len,
            ),
        ensures
            final(transaction).is_open() == old(transaction).is_open(),
            match r {
                Ok(()) => old(transaction).is_open() && self.bytes(*final(transaction)) == cut(
                    self.bytes(*old(transaction)),
                    index as int,
                    len as int,
                ) && only_text_changed(old(transaction).txn(), final(transaction).txn(), self.handle()),
                Err(e) => !old(transaction).is_open() && e is TransactionClosed,
            },
    {
        match transaction.open_mut() {
            Some(t) => {
                text_remove_range(t, &self.inner, index, len);
                Ok(())
            },
            None => Err(Error::TransactionClosed),
        }
    }

    /// `insert_ec` for any offset: an offset that is not a character boundary
    /// of the text (past the end included) is refused with
    /// `IndexOutOfRange`, and a text that would outgrow a `u32` with
    /// `LengthOverflow`.
    pub fn try_insert(&self, transaction: &mut Transaction, index: u32, chunk: &str) -> (r: Result<(), Error>)
        requires
            old(transaction).is_open() ==> self.document() == old(transaction).document(),
        ensures
            final(transaction).is_open() == old(transaction).is_open(),
            match r {
                Ok(()) => old(transaction).is_open() && is_char_boundary(
                    self.bytes(*old(transaction)),
                    index as int,
                ) && self.bytes(*final(transaction)) == spliced(
                    self.bytes(*old(transaction)),
                    index as int,
                    chunk.spec_bytes(),
                ) && only_text_changed(old(transaction).txn(), final(transaction).txn(), self.handle()),
                Err(Error::TransactionClosed) => !old(transaction).is_open(),
                Err(Error::IndexOutOfRange) => old(transaction).is_open() && !is_char_boundary(
                    self.bytes(*old(transaction)),
                    index as int,
                ) && self.bytes(*final(transaction)) == self.bytes(*old(transaction)),
                Err(Error::LengthOverflow) => old(transaction).is_open() && self.bytes(
                    *old(transaction),
                ).len() + chunk.spec_bytes().len() > u32::MAX && self.bytes(*final(transaction))
                    == self.bytes(*old(transaction)),
                Err(_) => false,
            },
    {
        match transaction.open_mut() {
            Some(t) => {
                let current = text_get_string(t, &self.inner);
                let s = current.as_str();
                if !s.is_char_boundary(index as usize) {
                    return Err(Error::IndexOutOfRange);
                }
                let limit: usize = u32::MAX as usize;
                let current_len: usize = s.as_bytes().len();
                if current_len > limit || chunk.as_bytes().len() > limit - current_len {
                    return Err(Error::LengthOverflow);
                }
                text_insert(t, &self.inner, index, chunk);
                Ok(())
            },
            None => Err(Error::TransactionClosed),
        }
    }

    /// `remove_range_ec` for any range: a range whose ends are not both
    /// character boundaries of the text is refused with `IndexOutOfRange`.
    pub fn try_remove_range(&self, transaction: &mut Transaction, index: u32, len: u32) -> (r: Result<(), Error>)
        requires
            old(transaction).is_open() ==> self.document() == old(transaction).document(),
        ensures
            final(transaction).is_open() == old(transaction).is_open(),
            match r {
                Ok(()) => old(transaction).is_open() && is_char_boundary(
                    self.bytes(*old(transaction)),
                    index as int,
                ) && is_char_boundary(self.bytes(*old(transaction)), index + len) && self.bytes(
                    *final(transaction),
                ) == cut(self.bytes(*old(transaction)), index as int, len as int) && only_text_changed(
                    old(transaction).txn(),
                    final(transaction).txn(),
                    self.handle(),
                ),
                Err(Error::TransactionClosed) => !old(transaction).is_open(),
                Err(Error::IndexOutOfRange) => old(transaction).is_open() && !(is_char_boundary(
                    self.bytes(*old(transaction)),
                    index as int,
                ) && is_char_boundary(self.bytes(*old(transaction)), index + len))
                    && self.bytes(*final(transaction)) == self.bytes(*old(transaction)),
                Err(_) => false,
            },
    {
        match transaction.open_mut() {
            Some(t) => {
                let current = text_get_string(t, &self.inner);
                let s = current.as_str();
                let end: u64 = index as u64 + len as u64;
                proof {
                    broadcast use vstd::utf8::encode_utf8_valid_utf8;
                }
                if !s.is_char_boundary(index as usize) {
                    return Err(Error::IndexOutOfRange);
                }
                if end > s.as_bytes().len() as u64 || !s.is_char_boundary(end as usize) {
                    return Err(Error::IndexOutOfRange);
                }
                text_remove_range(t, &self.inner, index, len);
                Ok(())
            },
            None => Err(Error::TransactionClosed),
        }
    }
}

// ---------------------------------------------------------------------------
// Laws
// ---------------------------------------------------------------------------

/// The UTF-8 byte offset of the character position `k` of `s`.
pub open spec fn char_offset(s: Seq<char>, k: int) -> int {
    encode_utf8(s.take(k)).len() as int
}

/// The UTF-8 encoding of two strings one after the other is the encoding of
/// the first followed by that of the second.
pub proof fn lemma_encode_utf8_concat(a: Seq<char>, b: Seq<char>)
    ensures
        encode_utf8(a + b) == encode_utf8(a) + encode_utf8(b),
    decreases a.len(),
{
    if a.len() == 0 {
        assert(a + b =~= b);
        assert(encode_utf8(a) + encode_utf8(b) =~= encode_utf8(b));
    } else {
        lemma_encode_utf8_concat(a.drop_first(), b);
        assert((a + b).drop_first() =~= a.drop_first() + b);
        assert((a + b)[0] == a[0]);
        assert(encode_utf8(a + b) =~= encode_utf8(a) + encode_utf8(b));
    }
}

/// Strings with the same UTF-8 encoding are equal.
pub proof fn lemma_encode_utf8_injective(a: Seq<char>, b: Seq<char>)
    requires
        encode_utf8(a) == encode_utf8(b),
    ensures
        a == b,
{
    encode_utf8_decode_utf8(a);
    encode_utf8_decode_utf8(b);
}

/// Splitting a string at a character position splits its encoding at the
/// byte offset of that position.
proof fn lemma_split_at_char(s: Seq<char>, k: int)
    requires
        0 <= k <= s.len(),
    ensures
        encode_utf8(s).take(char_offset(s, k)) == encode_utf8(s.take(k)),
        encode_utf8(s).skip(char_offset(s, k)) == encode_utf8(s.skip(k)),
{
    assert(s =~= s.take(k) + s.skip(k));
    lemma_encode_utf8_concat(s.take(k), s.skip(k));
    assert(encode_utf8(s).take(char_offset(s, k)) =~= encode_utf8(s.take(k)));
    assert(encode_utf8(s).skip(char_offset(s, k)) =~= encode_utf8(s.skip(k)));
}

/// The byte offset of every character position, the end included, is a
/// character boundary: every such offset is accepted by `insert_ec`.
pub proof fn lemma_char_offset_is_boundary(s: Seq<char>, k: int)
    requires
        0 <= k <= s.len(),
    ensures
        is_char_boundary(encode_utf8(s), char_offset(s, k)),
    decreases k,
{
    encode_utf8_valid_utf8(s);
    if k > 0 {
        let bytes = encode_utf8(s);
        encode_utf8_first_scalar(s);
        assert(pop_first_scalar(bytes) =~= encode_utf8(s.drop_first()));
        lemma_char_offset_is_boundary(s.drop_first(), k - 1);
        assert(s.take(k) =~= seq![s[0]] + s.drop_first().take(k - 1));
        lemma_encode_utf8_concat(seq![s[0]], s.drop_first().take(k - 1));
        assert(seq![s[0]].drop_first() =~= Seq::<char>::empty());
        assert(encode_utf8(seq![s[0]].drop_first()) =~= Seq::<u8>::empty());
        assert(encode_utf8(seq![s[0]]) =~= encode_scalar(s[0] as u32));
        lemma_split_at_char(s, k);
        assert(char_offset(s, k) <= bytes.len());
    }
}

/// What `insert_ec` writes at the byte offset of a character position is
/// what `get_string_ec` reads back: the characters before, the chunk, and
/// the characters after.
pub proof fn lemma_insert_read_back(before: Seq<char>, after: Seq<char>, k: int, chunk: Seq<char>)
    requires
        0 <= k <= before.len(),
        encode_utf8(after) == spliced(encode_utf8(before), char_offset(before, k), encode_utf8(chunk)),
    ensures
        after == before.take(k) + chunk + before.skip(k),
{
    lemma_split_at_char(before, k);
    lemma_encode_utf8_concat(before.take(k), chunk);
    lemma_encode_utf8_concat(before.take(k) + chunk, before.skip(k));
    lemma_encode_utf8_injective(after, before.take(k) + chunk + before.skip(k));
}

/// What `push_ec` appends is what `get_string_ec` reads back at the end.
pub proof fn lemma_push_read_back(before: Seq<char>, after: Seq<char>, chunk: Seq<char>)
    requires
        encode_utf8(after) == encode_utf8(before) + encode_utf8(chunk),
    ensures
        after == before + chunk,
{
    lemma_encode_utf8_concat(before, chunk);
    lemma_encode_utf8_injective(after, before + chunk);
}

/// Removing the bytes between two character positions with
/// `remove_range_ec` removes exactly the characters between them.
pub proof fn lemma_remove_read_back(before: Seq<char>, after: Seq<char>, k: int, m: int)
    requires
        0 <= k <= m <= before.len(),
        encode_utf8(after) == cut(
            encode_utf8(before),
            char_offset(before, k),
            char_offset(before, m) - char_offset(before, k),
        ),
    ensures
        after == before.take(k) + before.skip(m),
{
    lemma_split_at_char(before, k);
    lemma_split_at_char(before, m);
    assert(before.take(m) =~= before.take(k) + before.subrange(k, m));
    lemma_encode_utf8_concat(before.take(k), before.subrange(k, m));
    lemma_encode_utf8_concat(before.take(k), before.skip(m));
    assert(encode_utf8(after) =~= encode_utf8(before.take(k) + before.skip(m)));
    lemma_encode_utf8_injective(after, before.take(k) + before.skip(m));
}

/// Removing what was just inserted, at the same offset, gives back the
/// bytes from before the insertion.
pub proof fn lemma_remove_undoes_insert(bytes: Seq<u8>, index: int, chunk: Seq<u8>)
    requires
        0 <= index <= bytes.len(),
    ensures
        cut(spliced(bytes, index, chunk), index, chunk.len() as int) == bytes,
{
    assert(cut(spliced(bytes, index, chunk), index, chunk.len() as int) =~= bytes);
}

/// Inserting grows a text by the length of the chunk.
pub proof fn lemma_insert_length(bytes: Seq<u8>, index: int, chunk: Seq<u8>)
    requires
        0 <= index <= bytes.len(),
    ensures
        spliced(bytes, index, chunk).len() == bytes.len() + chunk.len(),
{
}

/// In an ASCII string every character takes one byte: the byte offset of a
/// character position is the position itself, and the length in bytes is the
/// number of characters.
pub proof fn lemma_ascii_offset(s: Seq<char>, k: int)
    requires
        is_ascii_chars(s),
        0 <= k <= s.len(),
    ensures
        char_offset(s, k) == k,
        encode_utf8(s).len() == s.len(),
{
    assert(is_ascii_chars(s.take(k)));
    is_ascii_chars_encode_utf8(s.take(k));
    is_ascii_chars_encode_utf8(s);
}

/// Inserting `chunk` at the offset `k` of an ASCII text reads back as the
/// text with `chunk` put in before its `k`-th character.
pub proof fn lemma_ascii_insert_read_back(before: Seq<char>, after: Seq<char>, k: int, chunk: Seq<char>)
    requires
        is_ascii_chars(before),
        0 <= k <= before.len(),
        encode_utf8(after) == spliced(encode_utf8(before), k, encode_utf8(chunk)),
    ensures
        after == before.take(k) + chunk + before.skip(k),
{
    lemma_ascii_offset(before, k);
    lemma_insert_read_back(before, after, k, chunk);
}

/// Removing `len` bytes from the offset `k` of an ASCII text reads back as
/// the text without those `len` characters.
pub proof fn lemma_ascii_remove_read_back(before: Seq<char>, after: Seq<char>, k: int, len: int)
    requires
        is_ascii_chars(before),
        0 <= k,
        0 <= len,
        k + len <= before.len(),
        encode_utf8(after) == cut(encode_utf8(before), k, len),
    ensures
        after == before.take(k) + before.skip(k + len),
{
    lemma_ascii_offset(before, k);
    lemma_ascii_offset(before, k + len);
    lemma_remove_read_back(before, after, k, k + len);
}

} // verus!
