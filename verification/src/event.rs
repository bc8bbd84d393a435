//! The events that observers of a shared array or text are handed: what
//! changed in the transaction that raised them. An event can be read only
//! while its observer runs; after that it is expired and refuses every read.
use crate::array::{out_view, ArrayRef, ItemView};
use crate::error::Error;
use crate::text::TextRef;
use vstd::prelude::*;
use yrs::types::array::ArrayEvent as YArrayEvent;
use yrs::types::text::TextEvent as YTextEvent;
use yrs::TransactionMut as YTransactionMut;

verus! {

#[verifier::external_type_specification]
#[verifier::external_body]
pub struct ExYArrayEvent(YArrayEvent);

#[verifier::external_type_specification]
#[verifier::external_body]
pub struct ExYTextEvent(YTextEvent);

// ---------------------------------------------------------------------------
// Models
// ---------------------------------------------------------------------------

/// One step of an array's delta: elements added, a number of elements
/// removed, or a number of elements kept.
pub enum ArrayChange {
    Added(Vec<yrs::Out>),
    Removed(u32),
    Retain(u32),
}

/// What a step of an array's delta holds.
pub enum ArrayChangeView {
    Added(Seq<ItemView>),
    Removed(u32),
    Retain(u32),
}

/// One step of a text's delta: a value inserted, a number of units deleted,
/// or a number of units kept (formatting attributes are not kept).
pub enum TextChange {
    Inserted(yrs::Out),
    Deleted(u32),
    Retain(u32),
}

/// What a step of a text's delta holds.
pub enum TextChangeView {
    Inserted(ItemView),
    Deleted(u32),
    Retain(u32),
}

/// One step of the path from a root shared type down to an event's target:
/// a key of a map or an index of an array.
pub enum PathStep {
    Key(String),
    Index(u32),
}

/// What a step of a path holds.
pub enum PathStepView {
    Key(Seq<char>),
    Index(u32),
}

/// What a step of an array's delta holds.
pub open spec fn array_change_view(c: ArrayChange) -> ArrayChangeView {
    match c {
        ArrayChange::Added(values) => ArrayChangeView::Added(values@.map_values(|o: yrs::Out| out_view(o))),
        ArrayChange::Removed(n) => ArrayChangeView::Removed(n),
        ArrayChange::Retain(n) => ArrayChangeView::Retain(n),
    }
}

/// What a step of a text's delta holds.
pub open spec fn text_change_view(c: TextChange) -> TextChangeView {
    match c {
        TextChange::Inserted(o) => TextChangeView::Inserted(out_view(o)),
        TextChange::Deleted(n) => TextChangeView::Deleted(n),
        TextChange::Retain(n) => TextChangeView::Retain(n),
    }
}

/// What a step of a path holds.
pub open spec fn path_step_view(s: PathStep) -> PathStepView {
    match s {
        PathStep::Key(k) => PathStepView::Key(k@),
        PathStep::Index(i) => PathStepView::Index(i),
    }
}

/// The delta that `yrs::types::array::ArrayEvent::delta` computes for the
/// event under the transaction that raised it (it keeps the first result it
/// computes, and an event is only ever read with that transaction).
pub uninterp spec fn array_event_delta(event: YArrayEvent, txn: yrs::TransactionMut) -> Seq<ArrayChangeView>;

/// The identifiers `(client, clock)` of the blocks that
/// `yrs::types::array::ArrayEvent::inserts` reports as added.
pub uninterp spec fn array_event_inserts(event: YArrayEvent, txn: yrs::TransactionMut) -> Set<(u64, u32)>;

/// The identifiers `(client, clock)` of the blocks that
/// `yrs::types::array::ArrayEvent::removes` reports as removed.
pub uninterp spec fn array_event_removes(event: YArrayEvent, txn: yrs::TransactionMut) -> Set<(u64, u32)>;

/// The path that `yrs::types::array::ArrayEvent::path` gives.
pub uninterp spec fn array_event_path(event: YArrayEvent) -> Seq<PathStepView>;

/// The array that the event holds as its target.
pub uninterp spec fn array_event_target(event: YArrayEvent) -> yrs::ArrayRef;

/// The delta that `yrs::types::text::TextEvent::delta` computes for the event
/// under the transaction that raised it.
pub uninterp spec fn text_event_delta(event: YTextEvent, txn: yrs::TransactionMut) -> Seq<TextChangeView>;

/// The path that `yrs::types::text::TextEvent::path` gives.
pub uninterp spec fn text_event_path(event: YTextEvent) -> Seq<PathStepView>;

/// The text that the event holds as its target.
pub uninterp spec fn text_event_target(event: YTextEvent) -> yrs::TextRef;

/// `ids` lists the identifiers of `set`, each once.
pub open spec fn lists_ids(ids: Seq<(u64, u32)>, set: Set<(u64, u32)>) -> bool {
    ids.no_duplicates() && ids.to_set() == set
}

// ---------------------------------------------------------------------------
// Calls into yrs
// ---------------------------------------------------------------------------

/// Calls `yrs::types::array::ArrayEvent::delta` and copies each step.
#[verifier::external_body]
fn y_array_delta(event: &YArrayEvent, txn: &YTransactionMut) -> (r: Vec<ArrayChange>)
    ensures
        r@.map_values(|c: ArrayChange| array_change_view(c)) == array_event_delta(*event, *txn),
{
    event.delta(txn).iter().map(|c| match c {
        yrs::types::Change::Added(values) => ArrayChange::Added(values.clone()),
        yrs::types::Change::Removed(n) => ArrayChange::Removed(*n),
        yrs::types::Change::Retain(n) => ArrayChange::Retain(*n),
    }).collect()
}

/// Calls `yrs::types::array::ArrayEvent::inserts` and lists the identifiers
/// of the set, in the order of its hash table.
#[verifier::external_body]
fn y_array_inserts(event: &YArrayEvent, txn: &YTransactionMut) -> (r: Vec<(u64, u32)>)
    ensures
        lists_ids(r@, array_event_inserts(*event, *txn)),
{
    event.inserts(txn).iter().map(|id| (id.client, id.clock)).collect()
}

/// Calls `yrs::types::array::ArrayEvent::removes` and lists the identifiers
/// of the set, in the order of its hash table.
#[verifier::external_body]
fn y_array_removes(event: &YArrayEvent, txn: &YTransactionMut) -> (r: Vec<(u64, u32)>)
    ensures
        lists_ids(r@, array_event_removes(*event, *txn)),
{
    event.removes(txn).iter().map(|id| (id.client, id.clock)).collect()
}

/// Calls `yrs::types::array::ArrayEvent::path` and copies each step.
#[verifier::external_body]
fn y_array_path(event: &YArrayEvent) -> (r: Vec<PathStep>)
    ensures
        r@.map_values(|s: PathStep| path_step_view(s)) == array_event_path(*event),
{
    event.path().into_iter().map(|s| match s {
        yrs::types::PathSegment::Key(k) => PathStep::Key(k.to_string()),
        yrs::types::PathSegment::Index(i) => PathStep::Index(i),
    }).collect()
}

/// Calls `yrs::types::array::ArrayEvent::target` and copies the handle.
#[verifier::external_body]
fn y_array_target(event: &YArrayEvent) -> (r: yrs::ArrayRef)
    ensures
        r == array_event_target(*event),
{
    event.target().clone()
}

/// Calls `yrs::types::text::TextEvent::delta` and copies each step, without
/// its formatting attributes.
#[verifier::external_body]
fn y_text_delta(event: &YTextEvent, txn: &YTransactionMut) -> (r: Vec<TextChange>)
    ensures
        r@.map_values(|c: TextChange| text_change_view(c)) == text_event_delta(*event, *txn),
{
    event.delta(txn).iter().map(|d| match d {
        yrs::types::Delta::Inserted(value, _) => TextChange::Inserted(value.clone()),
        yrs::types::Delta::Deleted(n) => TextChange::Deleted(*n),
        yrs::types::Delta::Retain(n, _) => TextChange::Retain(*n),
    }).collect()
}

/// Calls `yrs::types::text::TextEvent::path` and copies each step.
#[verifier::external_body]
fn y_text_path(event: &YTextEvent) -> (r: Vec<PathStep>)
    ensures
        r@.map_values(|s: PathStep| path_step_view(s)) == text_event_path(*event),
{
    event.path().into_iter().map(|s| match s {
        yrs::types::PathSegment::Key(k) => PathStep::Key(k.to_string()),
        yrs::types::PathSegment::Index(i) => PathStep::Index(i),
    }).collect()
}

/// Calls `yrs::types::text::TextEvent::target` and copies the handle.
#[verifier::external_body]
fn y_text_target(event: &YTextEvent) -> (r: yrs::TextRef)
    ensures
        r == text_event_target(*event),
{
    event.target().clone()
}

// ---------------------------------------------------------------------------
// Events
// ---------------------------------------------------------------------------

/// An event raised on an array, with the transaction that raised it.
pub struct ArrayEvent<'a, 'doc> {
    event: &'a YArrayEvent,
    txn: &'a YTransactionMut<'doc>,
    live: bool,
}

impl<'a, 'doc> ArrayEvent<'a, 'doc> {
    /// The event can still be read.
    pub closed spec fn is_live(&self) -> bool {
        self.live
    }

    /// The event of the CRDT library.
    pub closed spec fn event(&self) -> YArrayEvent {
        *self.event
    }

    /// The transaction that raised the event.
    pub closed spec fn txn(&self) -> YTransactionMut<'doc> {
        *self.txn
    }

    /// A live event, read under `txn`.
    pub fn new(event: &'a YArrayEvent, txn: &'a YTransactionMut<'doc>) -> (r: Self)
        ensures
            r.is_live(),
            r.event() == *event,
            r.txn() == *txn,
    {
        ArrayEvent { event, txn, live: true }
    }

    /// Ends the reads of the event: its observer has returned.
    pub fn expire(&mut self)
        ensures
            !final(self).is_live(),
            final(self).event() == old(self).event(),
            final(self).txn() == old(self).txn(),
    {
        self.live = false;
    }

    /// The array the event was raised on.
    pub fn target_ec(&self) -> (r: Result<ArrayRef, Error>)
        ensures
            match r {
                Ok(a) => self.is_live() && a.handle() == array_event_target(self.event()),
                Err(e) => !self.is_live() && e is EventExpired,
            },
    {
        if !self.live {
            return Err(Error::EventExpired);
        }
        Ok(ArrayRef::from_yrs(y_array_target(self.event)))
    }

    /// The changes to the array: elements added, removed and kept, in order.
    pub fn delta_ec(&self) -> (r: Result<Vec<ArrayChange>, Error>)
        ensures
            match r {
                Ok(d) => self.is_live() && d@.map_values(|c: ArrayChange| array_change_view(c))
                    == array_event_delta(self.event(), self.txn()),
                Err(e) => !self.is_live() && e is EventExpired,
            },
    {
        if !self.live {
            return Err(Error::EventExpired);
        }
        Ok(y_array_delta(self.event, self.txn))
    }

    /// The path from the root shared type down to the array.
    pub fn path_ec(&self) -> (r: Result<Vec<PathStep>, Error>)
        ensures
            match r {
                Ok(p) => self.is_live() && p@.map_values(|s: PathStep| path_step_view(s))
                    == array_event_path(self.event()),
                Err(e) => !self.is_live() && e is EventExpired,
            },
    {
        if !self.live {
            return Err(Error::EventExpired);
        }
        Ok(y_array_path(self.event))
    }

    /// The identifiers of the blocks added, each once.
    pub fn inserts_ec(&self) -> (r: Result<Vec<(u64, u32)>, Error>)
        ensures
            match r {
                Ok(ids) => self.is_live() && lists_ids(ids@, array_event_inserts(self.event(), self.txn())),
                Err(e) => !self.is_live() && e is EventExpired,
            },
    {
        if !self.live {
            return Err(Error::EventExpired);
        }
        Ok(y_array_inserts(self.event, self.txn))
    }

    /// The identifiers of the blocks removed, each once.
    pub fn removes_ec(&self) -> (r: Result<Vec<(u64, u32)>, Error>)
        ensures
            match r {
                Ok(ids) => self.is_live() && lists_ids(ids@, array_event_removes(self.event(), self.txn())),
                Err(e) => !self.is_live() && e is EventExpired,
            },
    {
        if !self.live {
            return Err(Error::EventExpired);
        }
        Ok(y_array_removes(self.event, self.txn))
    }
}

/// An event raised on a text, with the transaction that raised it.
pub struct TextEvent<'a, 'doc> {
    event: &'a YTextEvent,
    txn: &'a YTransactionMut<'doc>,
    live: bool,
}

impl<'a, 'doc> TextEvent<'a, 'doc> {
    /// The event can still be read.
    pub closed spec fn is_live(&self) -> bool {
        self.live
    }

    /// The event of the CRDT library.
    pub closed spec fn event(&self) -> YTextEvent {
        *self.event
    }

    /// The transaction that raised the event.
    pub closed spec fn txn(&self) -> YTransactionMut<'doc> {
        *self.txn
    }

    /// A live event, read under `txn`.
    pub fn new(event: &'a YTextEvent, txn: &'a YTransactionMut<'doc>) -> (r: Self)
        ensures
            r.is_live(),
            r.event() == *event,
            r.txn() == *txn,
    {
        TextEvent { event, txn, live: true }
    }

    /// Ends the reads of the event: its observer has returned.
    pub fn expire(&mut self)
        ensures
            !final(self).is_live(),
            final(self).event() == old(self).event(),
            final(self).txn() == old(self).txn(),
    {
        self.live = false;
    }

    /// The text the event was raised on.
    pub fn target_ec(&self) -> (r: Result<TextRef, Error>)
        ensures
            match r {
                Ok(t) => self.is_live() && t.handle() == text_event_target(self.event()),
                Err(e) => !self.is_live() && e is EventExpired,
            },
    {
        if !self.live {
            return Err(Error::EventExpired);
        }
        Ok(TextRef::from_yrs(y_text_target(self.event)))
    }

    /// The changes to the text: values inserted, units deleted and kept, in
    /// order.
    pub fn delta_ec(&self) -> (r: Result<Vec<TextChange>, Error>)
        ensures
            match r {
                Ok(d) => self.is_live() && d@.map_values(|c: TextChange| text_change_view(c))
                    == text_event_delta(self.event(), self.txn()),
                Err(e) => !self.is_live() && e is EventExpired,
            },
    {
        if !self.live {
            return Err(Error::EventExpired);
        }
        Ok(y_text_delta(self.event, self.txn))
    }

    /// The path from the root shared type down to the text.
    pub fn path_ec(&self) -> (r: Result<Vec<PathStep>, Error>)
        ensures
            match r {
                Ok(p) => self.is_live() && p@.map_values(|s: PathStep| path_step_view(s))
                    == text_event_path(self.event()),
                Err(e) => !self.is_live() && e is EventExpired,
            },
    {
        if !self.live {
            return Err(Error::EventExpired);
        }
        Ok(y_text_path(self.event))
    }
}

} // verus!
