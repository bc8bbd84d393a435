//! The errors that the library reports.
use vstd::prelude::*;

verus! {

/// What went wrong in a call of the library.
#[derive(Debug)]
pub enum Error {
    /// A failure described by a message: a decoding error of the CRDT
    /// library, or a request for data that a message does not hold.
    Other(String),
    /// The transaction was already committed.
    TransactionClosed,
    /// The document's store could not be locked for writing.
    TransactionUnavailable,
    /// An index does not fall on a valid position of the shared type.
    IndexOutOfRange,
    /// An edit would make a text longer than its length type can count.
    LengthOverflow,
    /// An event was read after its observer returned.
    EventExpired,
    /// The decoder of the CRDT library would panic on these bytes.
    Unreadable,
    /// The version 2 encoder would meet a range that covers no clock.
    EmptyRange,
}

} // verus!
