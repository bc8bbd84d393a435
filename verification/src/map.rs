//! Shared maps: this library only hands them out.
use crate::array::ItemView;
use vstd::prelude::*;
use yrs::MapRef as YMapRef;

verus! {

#[verifier::external_type_specification]
#[verifier::external_body]
pub struct ExYMapRef(YMapRef);

/// The document whose store holds the branch behind the handle.
pub uninterp spec fn map_doc(map: yrs::MapRef) -> yrs::Doc;

/// The entries that `yrs::Map::get` reads from `map`, key by key, while `txn`
/// holds the map's document.
pub uninterp spec fn map_entries_in(txn: yrs::TransactionMut, map: yrs::MapRef) -> Map<Seq<char>, ItemView>;

/// A shared map.
pub struct MapRef {
    inner: yrs::MapRef,
}

impl MapRef {
    /// The handle of the CRDT library inside.
    pub closed spec fn handle(&self) -> yrs::MapRef {
        self.inner
    }

    /// The document the map belongs to.
    pub open spec fn document(&self) -> yrs::Doc {
        map_doc(self.handle())
    }

    /// Wraps a map handle of the CRDT library.
    pub fn from_yrs(inner: yrs::MapRef) -> (r: MapRef)
        ensures
            r.handle() == inner,
    {
        MapRef { inner }
    }

    /// The map handle of the CRDT library inside.
    pub fn as_yrs(&self) -> (r: &yrs::MapRef)
        ensures
            *r == self.handle(),
    {
        &self.inner
    }
}

} // verus!
