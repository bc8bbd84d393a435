//! State vectors, delete sets and snapshots of a CRDT document.
//!
//! A state vector maps each client to the clock that it has reached; a
//! delete set maps each client to clock ranges of deleted blocks; a snapshot
//! pairs the two.
use crate::error::Error;
use crate::scan::{check_ds_v1, check_ds_v2, check_v2_header, ds_v1_safe, ds_v2_safe, v2_prefix_safe};
use crate::wire::var_uint;
use std::cmp::Ordering;
use vstd::prelude::*;
use yrs::updates::decoder::Decode;
use yrs::updates::encoder::Encode;
use yrs::encoding::read::Error as ReadError;
use yrs::DeleteSet as YDeleteSet;
use yrs::StateVector as YStateVector;

verus! {

#[verifier::external_type_specification]
#[verifier::external_body]
pub struct ExStateVector(YStateVector);

#[verifier::external_type_specification]
#[verifier::external_body]
pub struct ExDeleteSet(YDeleteSet);

#[verifier::external_type_specification]
#[verifier::external_body]
pub struct ExReadError(ReadError);

// ---------------------------------------------------------------------------
// Models
// ---------------------------------------------------------------------------

/// The clock that each client has reached, as a `yrs::StateVector` holds it.
pub uninterp spec fn state_vector_clocks(sv: yrs::StateVector) -> Map<u64, u32>;

/// The clocks of the state vector that `yrs::StateVector::decode_v1` reads
/// from `bytes`, or `None` where it fails.
pub uninterp spec fn state_vector_from_v1(bytes: Seq<u8>) -> Option<Map<u64, u32>>;

/// The clocks of the state vector that `yrs::StateVector::decode_v2` reads
/// from `bytes`, or `None` where it fails.
pub uninterp spec fn state_vector_from_v2(bytes: Seq<u8>) -> Option<Map<u64, u32>>;

/// The clock ranges of each client of a `yrs::DeleteSet`: for a client, a
/// flag that is `true` where yrs keeps the ranges as a fragmented list, and
/// the ranges `(start, end)`, each covering the clocks `start <= c < end`.
/// A range kept as one continuous span is a list of one range with the flag
/// `false`.
pub uninterp spec fn delete_set_ranges(ds: yrs::DeleteSet) -> Map<u64, (bool, Seq<(u32, u32)>)>;

/// The ranges of the delete set that `yrs::DeleteSet::decode_v1` reads from
/// `bytes`, or `None` where it fails.
pub uninterp spec fn delete_set_from_v1(bytes: Seq<u8>) -> Option<Map<u64, (bool, Seq<(u32, u32)>)>>;

/// The ranges of the delete set that `yrs::DeleteSet::decode_v2` reads from
/// `bytes`, or `None` where it fails.
pub uninterp spec fn delete_set_from_v2(bytes: Seq<u8>) -> Option<Map<u64, (bool, Seq<(u32, u32)>)>>;

/// The clocks and the ranges of the snapshot that `yrs::Snapshot::decode_v1`
/// reads from `bytes`, or `None` where it fails.
pub uninterp spec fn snapshot_from_v1(bytes: Seq<u8>) -> Option<(Map<u64, u32>, Map<u64, (bool, Seq<(u32, u32)>)>)>;

/// The clocks and the ranges of the snapshot that `yrs::Snapshot::decode_v2`
/// reads from `bytes`, or `None` where it fails.
pub uninterp spec fn snapshot_from_v2(bytes: Seq<u8>) -> Option<(Map<u64, u32>, Map<u64, (bool, Seq<(u32, u32)>)>)>;

/// The clock of `client`: the one recorded, or 0 where none is.
pub open spec fn clock_of(clocks: Map<u64, u32>, client: u64) -> u32 {
    if clocks.contains_key(client) {
        clocks[client]
    } else {
        0
    }
}

/// Every client's clock in `a` is at least its clock in `b`.
pub open spec fn dominates(a: Map<u64, u32>, b: Map<u64, u32>) -> bool {
    forall|c: u64|
        #![trigger clock_of(a, c)]
        #![trigger clock_of(b, c)]
        clock_of(b, c) <= clock_of(a, c)
}

/// How two state vectors compare, client by client (a missing client counts
/// as clock 0): `Equal` where all clocks agree, `Less` or `Greater` where all
/// differences go one way, `None` where they go both ways.
pub open spec fn clock_order(a: Map<u64, u32>, b: Map<u64, u32>) -> Option<Ordering> {
    if dominates(a, b) && dominates(b, a) {
        Some(Ordering::Equal)
    } else if dominates(b, a) {
        Some(Ordering::Less)
    } else if dominates(a, b) {
        Some(Ordering::Greater)
    } else {
        None
    }
}

/// `a` comes strictly before `b`.
pub open spec fn clocks_lt(a: Map<u64, u32>, b: Map<u64, u32>) -> bool {
    clock_order(a, b) == Some(Ordering::Less)
}

/// `a` comes before `b` or level with it.
pub open spec fn clocks_le(a: Map<u64, u32>, b: Map<u64, u32>) -> bool {
    clock_order(a, b) == Some(Ordering::Less) || clock_order(a, b) == Some(Ordering::Equal)
}

/// `a` comes strictly after `b`.
pub open spec fn clocks_gt(a: Map<u64, u32>, b: Map<u64, u32>) -> bool {
    clock_order(a, b) == Some(Ordering::Greater)
}

/// `a` comes after `b` or level with it.
pub open spec fn clocks_ge(a: Map<u64, u32>, b: Map<u64, u32>) -> bool {
    clock_order(a, b) == Some(Ordering::Greater) || clock_order(a, b) == Some(Ordering::Equal)
}

/// The client and clock pairs of `clients`, in that order, each pair as two
/// variable-length integers.
pub open spec fn clock_entries(clients: Seq<u64>, clocks: Map<u64, u32>) -> Seq<u8>
    decreases clients.len(),
{
    if clients.len() == 0 {
        Seq::empty()
    } else {
        var_uint(clients[0] as nat) + var_uint(clocks[clients[0]] as nat) + clock_entries(
            clients.drop_first(),
            clocks,
        )
    }
}

/// `bytes` is a version 1 encoding of `clocks`: the number of clients, then
/// each client with its clock, the clients in some order.
pub open spec fn is_state_vector_v1(bytes: Seq<u8>, clocks: Map<u64, u32>) -> bool {
    exists|clients: Seq<u64>|
        #![trigger clock_entries(clients, clocks)]
        clients.no_duplicates() && clients.to_set() == clocks.dom() && bytes == var_uint(
            clients.len(),
        ) + clock_entries(clients, clocks)
}

/// `bytes` starts with the number `count` as a variable-length integer.
pub open spec fn starts_with_count(bytes: Seq<u8>, count: nat) -> bool {
    bytes.len() >= var_uint(count).len() && bytes.take(var_uint(count).len() as int) == var_uint(count)
}

/// `bytes` is a version 1 encoding of a snapshot: a delete set encoding,
/// which starts with its number of clients `ds_clients`, then a state vector
/// encoding of `clocks`.
pub open spec fn is_snapshot_v1(bytes: Seq<u8>, ds_clients: nat, clocks: Map<u64, u32>) -> bool {
    exists|ds_bytes: Seq<u8>, sv_bytes: Seq<u8>|
        #![trigger starts_with_count(ds_bytes, ds_clients), is_state_vector_v1(sv_bytes, clocks)]
        bytes == ds_bytes + sv_bytes && starts_with_count(ds_bytes, ds_clients)
            && is_state_vector_v1(sv_bytes, clocks)
}

/// Every state vector that `bytes` is a version 1 encoding of, with a count
/// that fits a `u32`, is what the decoding `r` of `bytes` holds.
pub open spec fn reads_back_v1(bytes: Seq<u8>, r: Result<YStateVector, ReadError>) -> bool {
    forall|clocks: Map<u64, u32>|
        #[trigger] is_state_vector_v1(bytes, clocks) && clocks.len() <= u32::MAX ==> (r matches Ok(
            sv,
        ) && state_vector_clocks(sv) == clocks)
}

/// A range covers `clock`.
pub open spec fn range_covers(range: (u32, u32), clock: u32) -> bool {
    range.0 <= clock && clock < range.1
}

/// One of the ranges of a client covers `clock`.
pub open spec fn ranges_cover(entry: (bool, Seq<(u32, u32)>), clock: u32) -> bool {
    exists|i: int| 0 <= i < entry.1.len() && #[trigger] range_covers(entry.1[i], clock)
}

/// The block of `client` at `clock` is deleted.
pub open spec fn is_deleted_in(ranges: Map<u64, (bool, Seq<(u32, u32)>)>, client: u64, clock: u32) -> bool {
    ranges.contains_key(client) && ranges_cover(ranges[client], clock)
}

/// A client's ranges are empty as yrs counts it: a fragmented list with no
/// range, or a continuous span that starts where it ends.
pub open spec fn entry_is_empty(entry: (bool, Seq<(u32, u32)>)) -> bool {
    if entry.0 {
        entry.1.len() == 0
    } else {
        entry.1.len() > 0 && entry.1[0].0 == entry.1[0].1
    }
}

/// No client holds a range that yrs counts as non-empty.
pub open spec fn ranges_empty(ranges: Map<u64, (bool, Seq<(u32, u32)>)>) -> bool {
    forall|c: u64| #[trigger] ranges.contains_key(c) ==> entry_is_empty(ranges[c])
}

/// `after` holds the same clients as `before` and deletes the same blocks.
pub open spec fn same_deletions(
    before: Map<u64, (bool, Seq<(u32, u32)>)>,
    after: Map<u64, (bool, Seq<(u32, u32)>)>,
) -> bool {
    &&& after.dom() == before.dom()
    &&& forall|client: u64, clock: u32|
        #[trigger] is_deleted_in(after, client, clock) == is_deleted_in(before, client, clock)
}

/// `merged` holds the clients of `a` and of `b` and deletes exactly the blocks
/// that either deletes.
pub open spec fn merged_deletions(
    a: Map<u64, (bool, Seq<(u32, u32)>)>,
    b: Map<u64, (bool, Seq<(u32, u32)>)>,
    merged: Map<u64, (bool, Seq<(u32, u32)>)>,
) -> bool {
    &&& merged.dom() == a.dom().union(b.dom())
    &&& forall|client: u64, clock: u32|
        #[trigger] is_deleted_in(merged, client, clock) == (is_deleted_in(a, client, clock)
            || is_deleted_in(b, client, clock))
}

/// Every range of a client starts no later than it ends.
pub open spec fn ranges_ordered(entry: (bool, Seq<(u32, u32)>)) -> bool {
    forall|i: int| 0 <= i < entry.1.len() ==> #[trigger] entry.1[i].0 <= entry.1[i].1
}

/// A client's ranges laid out as `squash` leaves them: at least one range,
/// kept as a fragmented list exactly where there are two or more, each range
/// ordered, and every range ending before the next one starts.
pub open spec fn compact_entry(entry: (bool, Seq<(u32, u32)>)) -> bool {
    &&& entry.1.len() >= 1
    &&& entry.0 == (entry.1.len() >= 2)
    &&& ranges_ordered(entry)
    &&& forall|i: int, j: int|
        0 <= i < j < entry.1.len() ==> #[trigger] entry.1[i].1 < #[trigger] entry.1[j].0
}

/// What `squash` makes of one client's ranges: a continuous span, an empty
/// list and a list already in the compact layout stay as they are; another
/// non-empty list of ordered ranges is sorted and joined into the compact
/// layout, with no more ranges than before. Of a list holding a range that ends before it starts nothing is
/// said.
pub open spec fn squashed_entry(before: (bool, Seq<(u32, u32)>), after: (bool, Seq<(u32, u32)>)) -> bool {
    if !before.0 || before.1.len() == 0 || compact_entry(before) {
        after == before
    } else if ranges_ordered(before) {
        compact_entry(after) && after.1.len() <= before.1.len()
    } else {
        true
    }
}

/// `entries` lists every client of `ranges` with its ranges, and nothing else.
pub open spec fn lists_entries(
    entries: Seq<(u64, Vec<(u32, u32)>)>,
    ranges: Map<u64, (bool, Seq<(u32, u32)>)>,
) -> bool {
    &&& forall|i: int|
        0 <= i < entries.len() ==> ranges.contains_key(#[trigger] entries[i].0) && ranges[entries[i].0].1
            == entries[i].1@
    &&& forall|c: u64| #[trigger] ranges.contains_key(c) ==> exists|i: int| 0 <= i < entries.len() && entries[i].0 == c
}

/// Every range of every client starts no later than it ends.
pub open spec fn all_ordered(ranges: Map<u64, (bool, Seq<(u32, u32)>)>) -> bool {
    forall|c: u64| #[trigger] ranges.contains_key(c) ==> ranges_ordered(ranges[c])
}

/// Every range of every client covers at least one clock.
pub open spec fn nonempty_ranges(ranges: Map<u64, (bool, Seq<(u32, u32)>)>) -> bool {
    forall|c: u64, i: int|
        ranges.contains_key(c) && 0 <= i < ranges[c].1.len() ==> #[trigger] ranges[c].1[i].0
            < ranges[c].1[i].1
}

/// Every client of `after` holds its ranges of `before` as `squash` lays them
/// out.
pub open spec fn squashed_layout(
    before: Map<u64, (bool, Seq<(u32, u32)>)>,
    after: Map<u64, (bool, Seq<(u32, u32)>)>,
) -> bool {
    forall|c: u64| #[trigger] after.contains_key(c) ==> squashed_entry(before[c], after[c])
}

/// The counts of a delete set fit the `u32`s that the decoders read them
/// into: at most `u32::MAX` clients, each client below `2^32`, and at most
/// `u32::MAX` ranges per client.
pub open spec fn ds_fits_decoder(ranges: Map<u64, (bool, Seq<(u32, u32)>)>) -> bool {
    &&& ranges.len() <= u32::MAX
    &&& forall|c: u64| #[trigger] ranges.contains_key(c) ==> c <= u32::MAX && ranges[c].1.len() <= u32::MAX
}

/// A client's ranges that the encoders write as they stand and the decoders
/// read back as they were: a continuous span, or a list of other than one
/// range in which no range starts before the previous one ends
/// (`IdRange::is_squashed`; a list of one range comes back as a span).
pub open spec fn stable_entry(entry: (bool, Seq<(u32, u32)>)) -> bool {
    &&& !(entry.0 && entry.1.len() == 1)
    &&& entry.0 ==> forall|i: int|
        1 <= i < entry.1.len() ==> #[trigger] entry.1[i].0 >= entry.1[i - 1].1
}

/// Every client's ranges are `stable_entry`.
pub open spec fn all_stable(ranges: Map<u64, (bool, Seq<(u32, u32)>)>) -> bool {
    forall|c: u64| #[trigger] ranges.contains_key(c) ==> stable_entry(ranges[c])
}

/// A decoding holds the clients of `ranges` and deletes the same blocks; where
/// every client's ranges are stable, it holds exactly `ranges`.
pub open spec fn decoded_as(decoded: Map<u64, (bool, Seq<(u32, u32)>)>, ranges: Map<u64, (bool, Seq<(u32, u32)>)>) -> bool {
    &&& same_deletions(ranges, decoded)
    &&& all_stable(ranges) ==> decoded == ranges
}

/// The version 1 decoding of `bytes` is `decoded_as` `ranges`.
pub open spec fn reads_back_ds_v1(bytes: Seq<u8>, ranges: Map<u64, (bool, Seq<(u32, u32)>)>) -> bool {
    delete_set_from_v1(bytes) matches Some(d) && decoded_as(d, ranges)
}

/// The version 2 decoding of `bytes` is `decoded_as` `ranges`.
pub open spec fn reads_back_ds_v2(bytes: Seq<u8>, ranges: Map<u64, (bool, Seq<(u32, u32)>)>) -> bool {
    delete_set_from_v2(bytes) matches Some(d) && decoded_as(d, ranges)
}

/// The version 1 decoding of `bytes` is a snapshot with the clocks `clocks`
/// and a delete set `decoded_as` `ranges`.
pub open spec fn reads_back_snapshot_v1(
    bytes: Seq<u8>,
    clocks: Map<u64, u32>,
    ranges: Map<u64, (bool, Seq<(u32, u32)>)>,
) -> bool {
    snapshot_from_v1(bytes) matches Some(parts) && parts.0 == clocks && decoded_as(parts.1, ranges)
}

/// The version 2 decoding of `bytes` is a snapshot with the clocks `clocks`
/// and a delete set `decoded_as` `ranges`.
pub open spec fn reads_back_snapshot_v2(
    bytes: Seq<u8>,
    clocks: Map<u64, u32>,
    ranges: Map<u64, (bool, Seq<(u32, u32)>)>,
) -> bool {
    snapshot_from_v2(bytes) matches Some(parts) && parts.0 == clocks && decoded_as(parts.1, ranges)
}

/// The decoding is a delete set with no client.
pub open spec fn decodes_empty(r: Result<yrs::DeleteSet, ReadError>) -> bool {
    r matches Ok(ds) && delete_set_ranges(ds) =~= Map::empty()
}

// ---------------------------------------------------------------------------
// Calls into yrs
// ---------------------------------------------------------------------------

/// Calls `yrs::StateVector::decode_v1`; its result is named by
/// `state_vector_from_v1`. A state vector holds finitely many clients. The
/// decoder reads back what `Encode::encode_v1` writes: the count, then each
/// client and clock, the count read into a `u32`.
#[verifier::external_body]
fn sv_decode_v1(data: &[u8]) -> (r: Result<yrs::StateVector, yrs::encoding::read::Error>)
    ensures
        data@.len() == 0 ==> r is Err,
        match r {
            Ok(sv) => state_vector_from_v1(data@) == Some(state_vector_clocks(sv))
                && state_vector_clocks(sv).dom().finite(),
            Err(_) => state_vector_from_v1(data@) is None,
        },
        reads_back_v1(data@, r),
{
    yrs::StateVector::decode_v1(data)
}

/// Calls `yrs::StateVector::decode_v2`; its result is named by
/// `state_vector_from_v2`.
#[verifier::external_body]
fn sv_decode_v2(data: &[u8]) -> (r: Result<yrs::StateVector, yrs::encoding::read::Error>)
    requires
        v2_prefix_safe(data@),
    ensures
        data@.len() == 0 ==> r is Err,
        match r {
            Ok(sv) => state_vector_from_v2(data@) == Some(state_vector_clocks(sv))
                && state_vector_clocks(sv).dom().finite(),
            Err(_) => state_vector_from_v2(data@) is None,
        },
{
    yrs::StateVector::decode_v2(data)
}

/// Calls `yrs::StateVector::len`, the number of clients of the map inside.
#[verifier::external_body]
fn sv_len(sv: &yrs::StateVector) -> (r: usize)
    ensures
        r == state_vector_clocks(*sv).len(),
{
    sv.len()
}

/// Calls `yrs::StateVector::is_empty`: whether the map inside has no client.
#[verifier::external_body]
fn sv_is_empty(sv: &yrs::StateVector) -> (r: bool)
    ensures
        r == (state_vector_clocks(*sv).len() == 0),
{
    sv.is_empty()
}

/// Calls `yrs::StateVector::contains_client`: whether the map has the client.
#[verifier::external_body]
fn sv_contains_client(sv: &yrs::StateVector, client: u64) -> (r: bool)
    ensures
        r == state_vector_clocks(*sv).contains_key(client),
{
    sv.contains_client(&client)
}

/// Calls the derived `PartialEq::eq` of `yrs::StateVector`, which compares
/// the maps inside.
#[verifier::external_body]
fn sv_eq(a: &yrs::StateVector, b: &yrs::StateVector) -> (r: bool)
    ensures
        r == (state_vector_clocks(*a) == state_vector_clocks(*b)),
{
    a.eq(b)
}

/// Calls `PartialOrd::partial_cmp` of `yrs::StateVector`, which compares the
/// clocks of every client of either vector, a missing client counting as 0.
#[verifier::external_body]
fn sv_order(a: &yrs::StateVector, b: &yrs::StateVector) -> (r: Option<Ordering>)
    ensures
        r == clock_order(state_vector_clocks(*a), state_vector_clocks(*b)),
{
    a.partial_cmp(b)
}

/// Calls `Encode::encode_v1` of `yrs::StateVector`: the number of clients,
/// then each client and its clock as variable-length integers. The order of
/// the clients is that of the hash map inside and is left unsaid.
#[verifier::external_body]
fn sv_encode_v1(sv: &yrs::StateVector) -> (r: Vec<u8>)
    ensures
        is_state_vector_v1(r@, state_vector_clocks(*sv)),
{
    sv.encode_v1()
}

/// Calls `Encode::encode_v2` of `yrs::StateVector`. The encoder writes the
/// number of clients, then each client and its clock, as variable-length
/// integers after the (empty) column buffers; the order of the clients is that
/// of the hash map inside and is left unsaid. `Decode::decode_v2` reads them
/// back, the count into a `u32`: where the count fits, the decoding holds the
/// same clocks.
#[verifier::external_body]
fn sv_encode_v2(sv: &yrs::StateVector) -> (r: Vec<u8>)
    ensures
        state_vector_clocks(*sv).len() <= u32::MAX ==> v2_prefix_safe(r@) && state_vector_from_v2(r@)
            == Some(state_vector_clocks(*sv)),
{
    sv.encode_v2()
}

/// Calls the derived `Clone::clone` of `yrs::StateVector`.
#[verifier::external_body]
fn sv_clone(sv: &yrs::StateVector) -> (r: yrs::StateVector)
    ensures
        state_vector_clocks(r) == state_vector_clocks(*sv),
{
    sv.clone()
}

/// Calls `yrs::DeleteSet::new`, which holds no client.
#[verifier::external_body]
fn ds_new() -> (r: yrs::DeleteSet)
    ensures
        delete_set_ranges(r) =~= Map::empty(),
{
    yrs::DeleteSet::new()
}

/// Calls `yrs::DeleteSet::decode_v1`; its result is named by
/// `delete_set_from_v1`.
#[verifier::external_body]
fn ds_decode_v1(data: &[u8]) -> (r: Result<yrs::DeleteSet, yrs::encoding::read::Error>)
    requires
        ds_v1_safe(data@),
    ensures
        data@ == seq![0u8] ==> decodes_empty(r),
        r matches Ok(ds) ==> all_ordered(delete_set_ranges(ds)),
        data@.len() == 0 ==> r is Err,
        match r {
            Ok(ds) => delete_set_from_v1(data@) == Some(delete_set_ranges(ds))
                && delete_set_ranges(ds).dom().finite(),
            Err(_) => delete_set_from_v1(data@) is None,
        },
{
    yrs::DeleteSet::decode_v1(data)
}

/// Calls `yrs::DeleteSet::decode_v2`; its result is named by
/// `delete_set_from_v2`.
#[verifier::external_body]
fn ds_decode_v2(data: &[u8]) -> (r: Result<yrs::DeleteSet, yrs::encoding::read::Error>)
    requires
        ds_v2_safe(data@),
    ensures
        r matches Ok(ds) ==> all_ordered(delete_set_ranges(ds)),
        data@.len() == 0 ==> r is Err,
        match r {
            Ok(ds) => delete_set_from_v2(data@) == Some(delete_set_ranges(ds))
                && delete_set_ranges(ds).dom().finite(),
            Err(_) => delete_set_from_v2(data@) is None,
        },
{
    yrs::DeleteSet::decode_v2(data)
}

/// Calls `yrs::DeleteSet::len`, the number of clients.
#[verifier::external_body]
fn ds_len(ds: &yrs::DeleteSet) -> (r: usize)
    ensures
        r == delete_set_ranges(*ds).len(),
{
    ds.len()
}

/// Calls `yrs::DeleteSet::is_empty`: no client, or every client's ranges
/// empty as `IdRange::is_empty` counts it.
#[verifier::external_body]
fn ds_is_empty(ds: &yrs::DeleteSet) -> (r: bool)
    ensures
        r == ranges_empty(delete_set_ranges(*ds)),
{
    ds.is_empty()
}

/// Calls `yrs::DeleteSet::is_deleted` on the identifier `(client, clock)`:
/// whether one of the client's ranges covers the clock.
#[verifier::external_body]
fn ds_is_deleted(ds: &yrs::DeleteSet, client: u64, clock: u32) -> (r: bool)
    ensures
        r == is_deleted_in(delete_set_ranges(*ds), client, clock),
{
    ds.is_deleted(&yrs::ID::new(client, clock))
}

/// Calls the derived `PartialEq::eq` of `yrs::DeleteSet`, which compares the
/// clients and their ranges, the way each is kept included.
#[verifier::external_body]
fn ds_eq(a: &yrs::DeleteSet, b: &yrs::DeleteSet) -> (r: bool)
    ensures
        r == (delete_set_ranges(*a) == delete_set_ranges(*b)),
{
    a.eq(b)
}

/// Calls `yrs::DeleteSet::squash`, which squashes the ranges of each client
/// with `IdRange::squash`: the clients and the deleted clocks stay as they
/// were; a continuous span and an empty list are left alone; a non-empty list
/// is sorted by start, ranges that overlap or touch are joined, and a single
/// range left becomes a continuous span.
#[verifier::external_body]
fn ds_squash(ds: &mut yrs::DeleteSet)
    ensures
        same_deletions(delete_set_ranges(*old(ds)), delete_set_ranges(*final(ds))),
        squashed_layout(delete_set_ranges(*old(ds)), delete_set_ranges(*final(ds))),
{
    ds.squash()
}

/// Calls `yrs::DeleteSet::merge` with a clone of `other`: the clients and
/// deleted clocks of both are combined, and the result squashed. How the
/// ranges are laid out afterwards is left unsaid.
#[verifier::external_body]
fn ds_merge(ds: &mut yrs::DeleteSet, other: &yrs::DeleteSet)
    ensures
        all_ordered(delete_set_ranges(*old(ds))) && all_ordered(delete_set_ranges(*other))
            ==> all_ordered(delete_set_ranges(*final(ds))),
        merged_deletions(
            delete_set_ranges(*old(ds)),
            delete_set_ranges(*other),
            delete_set_ranges(*final(ds)),
        ),
{
    ds.merge(other.clone())
}

/// Calls `Encode::encode_v1` of `yrs::DeleteSet`: the number of clients,
/// then each client with its number of ranges and each range as its start and
/// length (`end - start`, which underflows on a range that ends before it
/// starts), a client's ranges squashed first where `IdRange::is_squashed`
/// says they are not. The order of the clients is that of the hash map inside
/// and is left unsaid. Where the counts fit the decoder, `Decode::decode_v1`
/// reads the bytes without overflow, back to the same clients and deleted
/// clocks; a stable client comes back as it was, since a count of one is read
/// as a continuous span and any other count as a list.
#[verifier::external_body]
fn ds_encode_v1(ds: &yrs::DeleteSet) -> (r: Vec<u8>)
    requires
        all_ordered(delete_set_ranges(*ds)),
    ensures
        starts_with_count(r@, delete_set_ranges(*ds).len()),
        ds_fits_decoder(delete_set_ranges(*ds)) ==> ds_v1_safe(r@) && reads_back_ds_v1(r@, delete_set_ranges(*ds)),
{
    ds.encode_v1()
}

/// Calls `Encode::encode_v2` of `yrs::DeleteSet`: the number of clients,
/// then each client with its ranges, squashed first where they are not yet,
/// as differences of clocks and lengths less one (`write_ds_len` asserts that
/// a length is not zero). The order of the clients is that of the hash map
/// inside and is left unsaid. Where the counts fit the decoder,
/// `Decode::decode_v2` reads the bytes (a feature byte, nine empty column
/// buffers, then the rest) without panicking, back to the same clients and
/// deleted clocks, and a stable client as it was.
#[verifier::external_body]
fn ds_encode_v2(ds: &yrs::DeleteSet) -> (r: Vec<u8>)
    requires
        nonempty_ranges(delete_set_ranges(*ds)),
    ensures
        ds_fits_decoder(delete_set_ranges(*ds)) ==> ds_v2_safe(r@) && reads_back_ds_v2(r@, delete_set_ranges(*ds)),
{
    ds.encode_v2()
}

/// Calls `yrs::DeleteSet::iter` and hands out each client with the ranges
/// that `IdRange::iter` walks: the one span of a continuous entry, or the
/// list of a fragmented one, in order. The clients come in the order of the
/// hash map inside, each once.
#[verifier::external_body]
fn ds_entries(ds: &yrs::DeleteSet) -> (r: Vec<(u64, Vec<(u32, u32)>)>)
    ensures
        lists_entries(r@, delete_set_ranges(*ds)),
{
    ds.iter().map(|(c, ranges)| (*c, ranges.iter().map(|x| (x.start, x.end)).collect())).collect()
}

/// Calls the derived `Clone::clone` of `yrs::DeleteSet`.
#[verifier::external_body]
fn ds_clone(ds: &yrs::DeleteSet) -> (r: yrs::DeleteSet)
    ensures
        delete_set_ranges(r) == delete_set_ranges(*ds),
{
    ds.clone()
}

/// Calls `yrs::Snapshot::decode_v1` and hands out its two fields; the result
/// is named by `snapshot_from_v1`.
#[verifier::external_body]
fn snapshot_decode_v1(data: &[u8]) -> (r: Result<(yrs::StateVector, yrs::DeleteSet), yrs::encoding::read::Error>)
    requires
        ds_v1_safe(data@),
    ensures
        r matches Ok((_, ds)) ==> all_ordered(delete_set_ranges(ds)),
        data@.len() == 0 ==> r is Err,
        match r {
            Ok((sv, ds)) => snapshot_from_v1(data@) == Some(
                (state_vector_clocks(sv), delete_set_ranges(ds)),
            ),
            Err(_) => snapshot_from_v1(data@) is None,
        },
{
    yrs::Snapshot::decode_v1(data).map(|s| (s.state_map, s.delete_set))
}

/// Calls `yrs::Snapshot::decode_v2` and hands out its two fields; the result
/// is named by `snapshot_from_v2`.
#[verifier::external_body]
fn snapshot_decode_v2(data: &[u8]) -> (r: Result<(yrs::StateVector, yrs::DeleteSet), yrs::encoding::read::Error>)
    requires
        ds_v2_safe(data@),
    ensures
        r matches Ok((_, ds)) ==> all_ordered(delete_set_ranges(ds)),
        data@.len() == 0 ==> r is Err,
        match r {
            Ok((sv, ds)) => snapshot_from_v2(data@) == Some(
                (state_vector_clocks(sv), delete_set_ranges(ds)),
            ),
            Err(_) => snapshot_from_v2(data@) is None,
        },
{
    yrs::Snapshot::decode_v2(data).map(|s| (s.state_map, s.delete_set))
}

/// Builds a `yrs::Snapshot` with `yrs::Snapshot::new` from clones of the two
/// parts and calls its `Encode::encode_v1`: the delete set's encoding (which
/// starts with its number of clients), then the state vector's; the decoder
/// reads them back as it reads each alone.
#[verifier::external_body]
fn snapshot_encode_v1(sv: &yrs::StateVector, ds: &yrs::DeleteSet) -> (r: Vec<u8>)
    requires
        all_ordered(delete_set_ranges(*ds)),
    ensures
        ds_fits_decoder(delete_set_ranges(*ds)) && state_vector_clocks(*sv).len() <= u32::MAX
            ==> ds_v1_safe(r@) && reads_back_snapshot_v1(r@, state_vector_clocks(*sv), delete_set_ranges(*ds)),
        is_snapshot_v1(r@, delete_set_ranges(*ds).len(), state_vector_clocks(*sv)),
{
    yrs::Snapshot::new(sv.clone(), ds.clone()).encode_v1()
}

/// Builds a `yrs::Snapshot` from clones of the two parts and calls its
/// `Encode::encode_v2`, which writes the delete set, then the state vector,
/// into one encoder; `Decode::decode_v2` reads them in that order. Where the
/// counts fit the decoder, the decoding holds the same clocks and reads the
/// delete set back as `ds_encode_v2` says. The bytes themselves follow the
/// order of the hash maps inside and are left unsaid.
#[verifier::external_body]
fn snapshot_encode_v2(sv: &yrs::StateVector, ds: &yrs::DeleteSet) -> (r: Vec<u8>)
    requires
        nonempty_ranges(delete_set_ranges(*ds)),
    ensures
        ds_fits_decoder(delete_set_ranges(*ds)) && state_vector_clocks(*sv).len() <= u32::MAX
            ==> ds_v2_safe(r@) && reads_back_snapshot_v2(r@, state_vector_clocks(*sv), delete_set_ranges(*ds)),
{
    yrs::Snapshot::new(sv.clone(), ds.clone()).encode_v2()
}

/// The message that the `Display` of `yrs::encoding::read::Error` writes for
/// an error.
pub uninterp spec fn read_error_text(e: yrs::encoding::read::Error) -> Seq<char>;

/// Calls the `Display` of `yrs::encoding::read::Error`; its text is named by
/// `read_error_text`.
#[verifier::external_body]
pub(crate) fn read_error_message(e: &yrs::encoding::read::Error) -> (r: String)
    ensures
        r@ == read_error_text(*e),
{
    format!("{}", e)
}

/// The library's error for a failed decoding: the message of the CRDT
/// library's error.
pub(crate) fn decoding_error(e: yrs::encoding::read::Error) -> (r: Error)
    ensures
        r matches Error::Other(m) && m@ == read_error_text(e),
{
    Error::Other(read_error_message(&e))
}

// ---------------------------------------------------------------------------
// StateVector
// ---------------------------------------------------------------------------

/// The clocks that a document has seen from each client.
pub struct StateVector {
    inner: yrs::StateVector,
}

impl View for StateVector {
    type V = Map<u64, u32>;

    closed spec fn view(&self) -> Map<u64, u32> {
        state_vector_clocks(self.inner)
    }
}

impl StateVector {
    /// Wraps a decoding result of `yrs::StateVector`: its clocks, or the
    /// library's decoding error.
    pub fn from_decoded(r: Result<yrs::StateVector, yrs::encoding::read::Error>) -> (out: Result<StateVector, Error>)
        ensures
            match r {
                Ok(sv) => out matches Ok(o) && o@ == state_vector_clocks(sv),
                Err(_) => out matches Err(Error::Other(_)),
            },
    {
        match r {
            Ok(sv) => Ok(StateVector { inner: sv }),
            Err(e) => Err(decoding_error(e)),
        }
    }

    /// Reads a state vector in the version 1 encoding; what `encode_v1`
    /// wrote it reads back.
    pub fn decode_v1(data: &[u8]) -> (r: Result<StateVector, Error>)
        ensures
            data@.len() == 0 ==> r is Err,
            match state_vector_from_v1(data@) {
                Some(clocks) => r matches Ok(sv) && sv@ == clocks,
                None => r matches Err(Error::Other(_)),
            },
            forall|clocks: Map<u64, u32>|
                #[trigger] is_state_vector_v1(data@, clocks) && clocks.len() <= u32::MAX ==> (r matches Ok(
                    sv,
                ) && sv@ == clocks),
    {
        Self::from_decoded(sv_decode_v1(data))
    }

    /// Reads a state vector in the version 2 encoding, from bytes that
    /// `scan::check_v2_header` accepts (the decoder panics on the others);
    /// empty bytes are refused.
    pub fn decode_v2(data: &[u8]) -> (r: Result<StateVector, Error>)
        requires
            v2_prefix_safe(data@),
        ensures
            data@.len() == 0 ==> r is Err,
            match state_vector_from_v2(data@) {
                Some(clocks) => r matches Ok(sv) && sv@ == clocks,
                None => r matches Err(Error::Other(_)),
            },
    {
        Self::from_decoded(sv_decode_v2(data))
    }

    /// `decode_v2` for any bytes: bytes on which the decoder would panic
    /// are refused with `Unreadable`.
    pub fn try_decode_v2(data: &[u8]) -> (r: Result<StateVector, Error>)
        ensures
            !v2_prefix_safe(data@) ==> r matches Err(Error::Unreadable),
            v2_prefix_safe(data@) ==> match state_vector_from_v2(data@) {
                Some(v) => r matches Ok(x) && x@ == v,
                None => r matches Err(Error::Other(_)),
            },
            data@.len() == 0 ==> r is Err,
    {
        if !check_v2_header(data) {
            return Err(Error::Unreadable);
        }
        Self::decode_v2(data)
    }

    /// Whether no client is recorded.
    pub fn is_empty(&self) -> (r: bool)
        ensures
            r == (self@.len() == 0),
    {
        sv_is_empty(&self.inner)
    }

    /// The number of clients recorded.
    pub fn len(&self) -> (r: usize)
        ensures
            r == self@.len(),
    {
        sv_len(&self.inner)
    }

    /// Whether a clock is recorded for `client_id`.
    pub fn contains_client(&self, client_id: u64) -> (r: bool)
        ensures
            r == self@.contains_key(client_id),
    {
        sv_contains_client(&self.inner, client_id)
    }

    /// Whether both record the same clients with the same clocks.
    pub fn equal(&self, other: &Self) -> (r: bool)
        ensures
            r == (self@ == other@),
    {
        sv_eq(&self.inner, &other.inner)
    }

    /// The negation of `equal`.
    pub fn not_equal(&self, other: &Self) -> (r: bool)
        ensures
            r == (self@ != other@),
    {
        !sv_eq(&self.inner, &other.inner)
    }

    /// Whether every clock is at most the other's and one is smaller.
    pub fn less_than(&self, other: &Self) -> (r: bool)
        ensures
            r == clocks_lt(self@, other@),
    {
        match sv_order(&self.inner, &other.inner) {
            Some(Ordering::Less) => true,
            _ => false,
        }
    }

    /// Whether every clock is at most the other's.
    pub fn less_than_equal(&self, other: &Self) -> (r: bool)
        ensures
            r == clocks_le(self@, other@),
    {
        match sv_order(&self.inner, &other.inner) {
            Some(Ordering::Less) => true,
            Some(Ordering::Equal) => true,
            _ => false,
        }
    }

    /// Whether every clock is at least the other's and one is greater.
    pub fn greater_than(&self, other: &Self) -> (r: bool)
        ensures
            r == clocks_gt(self@, other@),
    {
        match sv_order(&self.inner, &other.inner) {
            Some(Ordering::Greater) => true,
            _ => false,
        }
    }

    /// Whether every clock is at least the other's.
    pub fn greater_than_equal(&self, other: &Self) -> (r: bool)
        ensures
            r == clocks_ge(self@, other@),
    {
        match sv_order(&self.inner, &other.inner) {
            Some(Ordering::Greater) => true,
            Some(Ordering::Equal) => true,
            _ => false,
        }
    }

    /// The version 1 encoding: the number of clients, then each client and
    /// its clock, in an order that is left open.
    pub fn encode_v1(&self) -> (r: Vec<u8>)
        ensures
            is_state_vector_v1(r@, self@),
    {
        sv_encode_v1(&self.inner)
    }

    /// The version 2 encoding: where the number of clients fits a `u32`,
    /// `decode_v2` reads back the same clocks.
    pub fn encode_v2(&self) -> (r: Vec<u8>)
        ensures
            self@.len() <= u32::MAX ==> v2_prefix_safe(r@) && state_vector_from_v2(r@) == Some(self@),
    {
        sv_encode_v2(&self.inner)
    }

    /// A copy with the same clocks.
    pub fn duplicate(&self) -> (r: StateVector)
        ensures
            r@ == self@,
    {
        StateVector { inner: sv_clone(&self.inner) }
    }

    /// The state vector of the CRDT library inside.
    pub fn as_yrs(&self) -> (r: &yrs::StateVector)
        ensures
            state_vector_clocks(*r) == self@,
    {
        &self.inner
    }

    /// Wraps a state vector of the CRDT library.
    pub fn from_yrs(inner: yrs::StateVector) -> (r: StateVector)
        ensures
            r@ == state_vector_clocks(inner),
    {
        StateVector { inner }
    }
}

// ---------------------------------------------------------------------------
// DeleteSet
// ---------------------------------------------------------------------------

/// The clock ranges of the blocks that a document has deleted, per client.
pub struct DeleteSet {
    inner: yrs::DeleteSet,
}

impl View for DeleteSet {
    type V = Map<u64, (bool, Seq<(u32, u32)>)>;

    closed spec fn view(&self) -> Map<u64, (bool, Seq<(u32, u32)>)> {
        delete_set_ranges(self.inner)
    }
}

impl DeleteSet {
    /// Every range starts no later than it ends.
    #[verifier::type_invariant]
    spec fn ordered(self) -> bool {
        all_ordered(delete_set_ranges(self.inner))
    }

    /// Wraps a decoding result of `yrs::DeleteSet`: its ranges, or the
    /// library's decoding error. Its ranges must be ordered, as those of a
    /// decoding are.
    fn from_decoded(r: Result<yrs::DeleteSet, yrs::encoding::read::Error>) -> (out: Result<DeleteSet, Error>)
        requires
            r matches Ok(ds) ==> all_ordered(delete_set_ranges(ds)),
        ensures
            match r {
                Ok(ds) => out matches Ok(o) && o@ == delete_set_ranges(ds),
                Err(_) => out matches Err(Error::Other(_)),
            },
    {
        match r {
            Ok(ds) => Ok(DeleteSet { inner: ds }),
            Err(e) => Err(decoding_error(e)),
        }
    }

    /// Reads a delete set in the version 1 encoding, from bytes that
    /// `scan::check_ds_v1` accepts (the decoder panics on the others); empty
    /// bytes are refused, and the single byte 0 is the empty delete set.
    pub fn decode_v1(data: &[u8]) -> (r: Result<DeleteSet, Error>)
        requires
            ds_v1_safe(data@),
        ensures
            data@.len() == 0 ==> r is Err,
            data@ == seq![0u8] ==> (r matches Ok(ds) && ds@ =~= Map::empty()),
            match delete_set_from_v1(data@) {
                Some(ranges) => r matches Ok(ds) && ds@ == ranges,
                None => r matches Err(Error::Other(_)),
            },
    {
        Self::from_decoded(ds_decode_v1(data))
    }

    /// `decode_v1` for any bytes: bytes on which the decoder would panic
    /// are refused with `Unreadable`.
    pub fn try_decode_v1(data: &[u8]) -> (r: Result<DeleteSet, Error>)
        ensures
            !ds_v1_safe(data@) ==> r matches Err(Error::Unreadable),
            ds_v1_safe(data@) ==> match delete_set_from_v1(data@) {
                Some(v) => r matches Ok(x) && x@ == v,
                None => r matches Err(Error::Other(_)),
            },
            data@.len() == 0 ==> r is Err,
    {
        if !check_ds_v1(data) {
            return Err(Error::Unreadable);
        }
        Self::decode_v1(data)
    }

    /// Reads a delete set in the version 2 encoding, from bytes that
    /// `scan::check_ds_v2` accepts (the decoder panics on the others); empty
    /// bytes are refused.
    pub fn decode_v2(data: &[u8]) -> (r: Result<DeleteSet, Error>)
        requires
            ds_v2_safe(data@),
        ensures
            data@.len() == 0 ==> r is Err,
            match delete_set_from_v2(data@) {
                Some(ranges) => r matches Ok(ds) && ds@ == ranges,
                None => r matches Err(Error::Other(_)),
            },
    {
        Self::from_decoded(ds_decode_v2(data))
    }

    /// `decode_v2` for any bytes: bytes on which the decoder would panic
    /// are refused with `Unreadable`.
    pub fn try_decode_v2(data: &[u8]) -> (r: Result<DeleteSet, Error>)
        ensures
            !ds_v2_safe(data@) ==> r matches Err(Error::Unreadable),
            ds_v2_safe(data@) ==> match delete_set_from_v2(data@) {
                Some(v) => r matches Ok(x) && x@ == v,
                None => r matches Err(Error::Other(_)),
            },
            data@.len() == 0 ==> r is Err,
    {
        if !check_ds_v2(data) {
            return Err(Error::Unreadable);
        }
        Self::decode_v2(data)
    }

    /// A delete set that holds no client.
    pub fn new() -> (r: DeleteSet)
        ensures
            r@ == Map::<u64, (bool, Seq<(u32, u32)>)>::empty(),
    {
        DeleteSet { inner: ds_new() }
    }

    /// Whether no client holds a non-empty range.
    pub fn is_empty(&self) -> (r: bool)
        ensures
            r == ranges_empty(self@),
    {
        ds_is_empty(&self.inner)
    }

    /// The number of clients.
    pub fn len(&self) -> (r: usize)
        ensures
            r == self@.len(),
    {
        ds_len(&self.inner)
    }

    /// Whether the block of `client` at `clock` is deleted.
    pub fn is_deleted(&self, client: u64, clock: u32) -> (r: bool)
        ensures
            r == is_deleted_in(self@, client, clock),
    {
        ds_is_deleted(&self.inner, client, clock)
    }

    /// Whether both hold the same clients with the same ranges.
    pub fn equal(&self, other: &Self) -> (r: bool)
        ensures
            r == (self@ == other@),
    {
        ds_eq(&self.inner, &other.inner)
    }

    /// The negation of `equal`.
    pub fn not_equal(&self, other: &Self) -> (r: bool)
        ensures
            r == (self@ != other@),
    {
        !ds_eq(&self.inner, &other.inner)
    }

    /// The version 1 encoding; it starts with the number of clients. Where the
    /// counts fit the decoder, `decode_v1` reads back the same clients and
    /// deleted blocks, and exactly these ranges where they are stable (as
    /// after `squash`).
    pub fn encode_v1(&self) -> (r: Vec<u8>)
        ensures
            starts_with_count(r@, self@.len()),
            ds_fits_decoder(self@) ==> ds_v1_safe(r@) && reads_back_ds_v1(r@, self@),
    {
        proof {
            use_type_invariant(self);
        }
        ds_encode_v1(&self.inner)
    }

    /// The version 2 encoding, of a delete set whose ranges are all
    /// non-empty (the encoder writes each length less one, and asserts that it
    /// is not zero): where the counts fit the decoder, `decode_v2` reads back
    /// the same clients and deleted blocks, and exactly these ranges where
    /// they are stable.
    pub fn encode_v2(&self) -> (r: Vec<u8>)
        requires
            nonempty_ranges(self@),
        ensures
            ds_fits_decoder(self@) ==> ds_v2_safe(r@) && reads_back_ds_v2(r@, self@),
    {
        proof {
            use_type_invariant(self);
        }
        ds_encode_v2(&self.inner)
    }

    /// `encode_v2` for any delete set: one with a range that covers no clock
    /// is refused with `EmptyRange`.
    pub fn try_encode_v2(&self) -> (r: Result<Vec<u8>, Error>)
        ensures
            match r {
                Ok(bytes) => nonempty_ranges(self@) && (ds_fits_decoder(self@) ==> ds_v2_safe(bytes@)
                    && reads_back_ds_v2(bytes@, self@)),
                Err(e) => !nonempty_ranges(self@) && e is EmptyRange,
            },
    {
        if !self.ranges_nonempty() {
            return Err(Error::EmptyRange);
        }
        Ok(self.encode_v2())
    }

    /// Compacts the ranges; the clients and the deleted blocks stay as they
    /// were, and each client's ordered ranges are sorted and joined.
    pub fn squash(&mut self)
        ensures
            same_deletions(old(self)@, final(self)@),
            squashed_layout(old(self)@, final(self)@),
            all_ordered(old(self)@),
    {
        proof {
            use_type_invariant(&*self);
        }
        let mut inner = ds_new();
        std::mem::swap(&mut inner, &mut self.inner);
        ds_squash(&mut inner);
        self.inner = inner;
    }

    /// Adds the deletions of `other`: afterwards a block is deleted where it
    /// was deleted in either.
    pub fn merge(&mut self, other: &Self)
        ensures
            merged_deletions(old(self)@, other@, final(self)@),
    {
        proof {
            use_type_invariant(&*self);
            use_type_invariant(other);
        }
        let mut inner = ds_new();
        std::mem::swap(&mut inner, &mut self.inner);
        ds_merge(&mut inner, &other.inner);
        self.inner = inner;
    }

    /// Whether every range covers at least one clock, as `encode_v2` asks.
    pub fn ranges_nonempty(&self) -> (r: bool)
        ensures
            r == nonempty_ranges(self@),
    {
        let entries = ds_entries(&self.inner);
        let mut i: usize = 0;
        while i < entries.len()
            invariant
                i <= entries.len(),
                lists_entries(entries@, self@),
                forall|k: int, j: int|
                    0 <= k < i && 0 <= j < entries@[k].1@.len() ==> #[trigger] entries@[k].1@[j].0
                        < entries@[k].1@[j].1,
            decreases entries.len() - i,
        {
            let ranges = &entries[i].1;
            let mut j: usize = 0;
            while j < ranges.len()
                invariant
                    i < entries.len(),
                    lists_entries(entries@, self@),
                    ranges@ == entries@[i as int].1@,
                    j <= ranges.len(),
                    forall|m: int| 0 <= m < j ==> #[trigger] ranges@[m].0 < ranges@[m].1,
                decreases ranges.len() - j,
            {
                if ranges[j].0 >= ranges[j].1 {
                    assert(self@.contains_key(entries@[i as int].0));
                    assert(self@[entries@[i as int].0].1[j as int] == ranges@[j as int]);
                    return false;
                }
                j = j + 1;
            }
            i = i + 1;
        }
        assert forall|c: u64, m: int|
            self@.contains_key(c) && 0 <= m < self@[c].1.len() implies #[trigger] self@[c].1[m].0
            < self@[c].1[m].1 by {
            let k = choose|k: int| 0 <= k < entries@.len() && entries@[k].0 == c;
            assert(entries@[k].1@[m] == self@[c].1[m]);
        }
        true
    }

    /// A copy with the same ranges.
    pub fn duplicate(&self) -> (r: DeleteSet)
        ensures
            r@ == self@,
    {
        proof {
            use_type_invariant(self);
        }
        DeleteSet { inner: ds_clone(&self.inner) }
    }
}

// ---------------------------------------------------------------------------
// Snapshot
// ---------------------------------------------------------------------------

/// A state vector and a delete set taken together: the state of a document
/// at one logical time.
pub struct Snapshot {
    state_map: StateVector,
    delete_set: DeleteSet,
}

impl View for Snapshot {
    type V = (Map<u64, u32>, Map<u64, (bool, Seq<(u32, u32)>)>);

    closed spec fn view(&self) -> (Map<u64, u32>, Map<u64, (bool, Seq<(u32, u32)>)>) {
        (self.state_map@, self.delete_set@)
    }
}

impl Snapshot {
    /// A snapshot of copies of the two parts.
    pub fn new(state_map: &StateVector, delete_set: &DeleteSet) -> (r: Snapshot)
        ensures
            r@ == (state_map@, delete_set@),
    {
        Snapshot { state_map: state_map.duplicate(), delete_set: delete_set.duplicate() }
    }

    /// Wraps a decoding result of `yrs::Snapshot` split into its two parts.
    fn from_decoded(r: Result<(yrs::StateVector, yrs::DeleteSet), yrs::encoding::read::Error>) -> (out: Result<Snapshot, Error>)
        requires
            r matches Ok((_, ds)) ==> all_ordered(delete_set_ranges(ds)),
        ensures
            match r {
                Ok((sv, ds)) => out matches Ok(o) && o@ == (
                    state_vector_clocks(sv),
                    delete_set_ranges(ds),
                ),
                Err(_) => out matches Err(Error::Other(_)),
            },
    {
        match r {
            Ok((sv, ds)) => Ok(
                Snapshot { state_map: StateVector { inner: sv }, delete_set: DeleteSet { inner: ds } },
            ),
            Err(e) => Err(decoding_error(e)),
        }
    }

    /// Reads a snapshot in the version 1 encoding, from bytes that
    /// `scan::check_ds_v1` accepts (the decoder panics on the others); empty
    /// bytes are refused.
    pub fn decode_v1(data: &[u8]) -> (r: Result<Snapshot, Error>)
        requires
            ds_v1_safe(data@),
        ensures
            data@.len() == 0 ==> r is Err,
            match snapshot_from_v1(data@) {
                Some(parts) => r matches Ok(s) && s@ == parts,
                None => r matches Err(Error::Other(_)),
            },
    {
        Self::from_decoded(snapshot_decode_v1(data))
    }

    /// `decode_v1` for any bytes: bytes on which the decoder would panic
    /// are refused with `Unreadable`.
    pub fn try_decode_v1(data: &[u8]) -> (r: Result<Snapshot, Error>)
        ensures
            !ds_v1_safe(data@) ==> r matches Err(Error::Unreadable),
            ds_v1_safe(data@) ==> match snapshot_from_v1(data@) {
                Some(v) => r matches Ok(x) && x@ == v,
                None => r matches Err(Error::Other(_)),
            },
            data@.len() == 0 ==> r is Err,
    {
        if !check_ds_v1(data) {
            return Err(Error::Unreadable);
        }
        Self::decode_v1(data)
    }

    /// Reads a snapshot in the version 2 encoding, from bytes that
    /// `scan::check_ds_v2` accepts (the decoder panics on the others); empty
    /// bytes are refused.
    pub fn decode_v2(data: &[u8]) -> (r: Result<Snapshot, Error>)
        requires
            ds_v2_safe(data@),
        ensures
            data@.len() == 0 ==> r is Err,
            match snapshot_from_v2(data@) {
                Some(parts) => r matches Ok(s) && s@ == parts,
                None => r matches Err(Error::Other(_)),
            },
    {
        Self::from_decoded(snapshot_decode_v2(data))
    }

    /// `decode_v2` for any bytes: bytes on which the decoder would panic
    /// are refused with `Unreadable`.
    pub fn try_decode_v2(data: &[u8]) -> (r: Result<Snapshot, Error>)
        ensures
            !ds_v2_safe(data@) ==> r matches Err(Error::Unreadable),
            ds_v2_safe(data@) ==> match snapshot_from_v2(data@) {
                Some(v) => r matches Ok(x) && x@ == v,
                None => r matches Err(Error::Other(_)),
            },
            data@.len() == 0 ==> r is Err,
    {
        if !check_ds_v2(data) {
            return Err(Error::Unreadable);
        }
        Self::decode_v2(data)
    }

    /// The version 1 encoding: the delete set's encoding, then the state
    /// vector's. Where the counts fit the decoders, `decode_v1` reads back the
    /// same clocks and the delete set as `DeleteSet::encode_v1` says.
    pub fn encode_v1(&self) -> (r: Vec<u8>)
        ensures
            is_snapshot_v1(r@, self@.1.len(), self@.0),
            ds_fits_decoder(self@.1) && self@.0.len() <= u32::MAX ==> ds_v1_safe(r@)
                && reads_back_snapshot_v1(r@, self@.0, self@.1),
    {
        proof {
            use_type_invariant(&self.delete_set);
        }
        snapshot_encode_v1(&self.state_map.inner, &self.delete_set.inner)
    }

    /// The version 2 encoding, of a snapshot whose delete set has only
    /// non-empty ranges: where the counts fit the decoders, `decode_v2` reads
    /// back the same clocks and a delete set with the same clients and deleted
    /// blocks, exactly these ranges where they are stable.
    pub fn encode_v2(&self) -> (r: Vec<u8>)
        requires
            nonempty_ranges(self@.1),
        ensures
            ds_fits_decoder(self@.1) && self@.0.len() <= u32::MAX ==> ds_v2_safe(r@)
                && reads_back_snapshot_v2(r@, self@.0, self@.1),
    {
        snapshot_encode_v2(&self.state_map.inner, &self.delete_set.inner)
    }

    /// `encode_v2` for any snapshot: one whose delete set has a range that
    /// covers no clock is refused with `EmptyRange`.
    pub fn try_encode_v2(&self) -> (r: Result<Vec<u8>, Error>)
        ensures
            match r {
                Ok(bytes) => nonempty_ranges(self@.1) && (ds_fits_decoder(self@.1) && self@.0.len()
                    <= u32::MAX ==> ds_v2_safe(bytes@) && reads_back_snapshot_v2(bytes@, self@.0, self@.1)),
                Err(e) => !nonempty_ranges(self@.1) && e is EmptyRange,
            },
    {
        if !self.delete_set.ranges_nonempty() {
            return Err(Error::EmptyRange);
        }
        Ok(self.encode_v2())
    }

    /// Whether both parts are equal.
    pub fn equal(&self, other: &Self) -> (r: bool)
        ensures
            r == (self@ == other@),
    {
        let a = self.state_map.equal(&other.state_map);
        let b = self.delete_set.equal(&other.delete_set);
        a && b
    }

    /// The negation of `equal`.
    pub fn not_equal(&self, other: &Self) -> (r: bool)
        ensures
            r == (self@ != other@),
    {
        !self.equal(other)
    }

    /// The state vector.
    pub fn state_map(&self) -> (r: &StateVector)
        ensures
            r@ == self@.0,
    {
        &self.state_map
    }

    /// The delete set.
    pub fn delete_set(&self) -> (r: &DeleteSet)
        ensures
            r@ == self@.1,
    {
        &self.delete_set
    }
}

// ---------------------------------------------------------------------------
// Laws
// ---------------------------------------------------------------------------

/// `less_than` holds exactly where `less_than_equal` holds and
/// `greater_than_equal` does not.
pub proof fn lemma_lt_is_le_and_not_ge(a: Map<u64, u32>, b: Map<u64, u32>)
    ensures
        clocks_lt(a, b) == (clocks_le(a, b) && !clocks_ge(a, b)),
{
}

/// `greater_than` and `greater_than_equal` are `less_than` and
/// `less_than_equal` with the operands swapped.
pub proof fn lemma_gt_is_swapped_lt(a: Map<u64, u32>, b: Map<u64, u32>)
    ensures
        clocks_gt(a, b) == clocks_lt(b, a),
        clocks_ge(a, b) == clocks_le(b, a),
{
}

/// `less_than_equal` holds exactly where every client's clock in the first
/// vector is at most its clock in the second.
pub proof fn lemma_le_is_pointwise(a: Map<u64, u32>, b: Map<u64, u32>)
    ensures
        clocks_le(a, b) == dominates(b, a),
{
}

/// Every state vector is level with itself and not strictly before itself.
pub proof fn lemma_le_reflexive(a: Map<u64, u32>)
    ensures
        clocks_le(a, a),
        clocks_ge(a, a),
        !clocks_lt(a, a),
        !clocks_gt(a, a),
{
}

/// `less_than_equal` is transitive.
pub proof fn lemma_le_transitive(a: Map<u64, u32>, b: Map<u64, u32>, c: Map<u64, u32>)
    requires
        clocks_le(a, b),
        clocks_le(b, c),
    ensures
        clocks_le(a, c),
{
    assert(dominates(c, a)) by {
        assert forall|x: u64| clock_of(a, x) <= clock_of(c, x) by {
            assert(clock_of(a, x) <= clock_of(b, x));
            assert(clock_of(b, x) <= clock_of(c, x));
        }
    }
}

/// `less_than` is transitive.
pub proof fn lemma_lt_transitive(a: Map<u64, u32>, b: Map<u64, u32>, c: Map<u64, u32>)
    requires
        clocks_lt(a, b),
        clocks_lt(b, c),
    ensures
        clocks_lt(a, c),
{
    lemma_le_transitive(a, b, c);
    if dominates(a, c) {
        assert(dominates(a, b)) by {
            assert forall|x: u64| clock_of(b, x) <= clock_of(a, x) by {
                assert(clock_of(b, x) <= clock_of(c, x));
                assert(clock_of(c, x) <= clock_of(a, x));
            }
        }
    }
}

/// Two state vectors are level both ways exactly where every client has the
/// same clock in both, a missing client counting as clock 0.
pub proof fn lemma_level_iff_same_clocks(a: Map<u64, u32>, b: Map<u64, u32>)
    ensures
        (clocks_le(a, b) && clocks_le(b, a)) == (forall|x: u64|
            #![trigger clock_of(a, x)]
            #![trigger clock_of(b, x)]
            clock_of(a, x) == clock_of(b, x)),
{
}

/// Equal state vectors are level: each is at most and at least the other,
/// and neither is strictly before the other.
pub proof fn lemma_equal_is_level(a: Map<u64, u32>, b: Map<u64, u32>)
    requires
        a == b,
    ensures
        clocks_le(a, b),
        clocks_ge(a, b),
        !clocks_lt(a, b),
        !clocks_gt(a, b),
{
}

/// Level is not equal: a client recorded with clock 0 is level with no
/// record at all.
pub proof fn lemma_level_not_equal(client: u64)
    ensures
        clocks_le(map![client => 0u32], Map::empty()),
        clocks_le(Map::empty(), map![client => 0u32]),
        map![client => 0u32] != Map::<u64, u32>::empty(),
{
    assert(map![client => 0u32].contains_key(client));
}

/// A state vector that records a client is not empty.
pub proof fn lemma_contains_client_not_empty(a: Map<u64, u32>, client: u64)
    requires
        a.dom().finite(),
        a.contains_key(client),
    ensures
        a.len() > 0,
{
    vstd::set_lib::lemma_set_empty_equivalency_len(a.dom());
}

/// A version 1 state vector encoding starts with the number of clients.
pub proof fn lemma_state_vector_v1_count(bytes: Seq<u8>, clocks: Map<u64, u32>)
    requires
        is_state_vector_v1(bytes, clocks),
    ensures
        starts_with_count(bytes, clocks.len()),
{
    let clients = choose|clients: Seq<u64>|
        #![trigger clock_entries(clients, clocks)]
        clients.no_duplicates() && clients.to_set() == clocks.dom() && bytes == var_uint(
            clients.len(),
        ) + clock_entries(clients, clocks);
    clients.unique_seq_to_set();
    assert(bytes.take(var_uint(clocks.len()).len() as int) =~= var_uint(clocks.len()));
}

/// The version 1 encoding of a state vector with no client is the single
/// byte 0.
pub proof fn lemma_empty_state_vector_v1(bytes: Seq<u8>)
    ensures
        is_state_vector_v1(bytes, Map::empty()) == (bytes == seq![0u8]),
{
    let empty = Map::<u64, u32>::empty();
    if is_state_vector_v1(bytes, empty) {
        let clients = choose|clients: Seq<u64>|
            #![trigger clock_entries(clients, empty)]
            clients.no_duplicates() && clients.to_set() == empty.dom() && bytes == var_uint(
                clients.len(),
            ) + clock_entries(clients, empty);
        clients.lemma_cardinality_of_empty_set_is_0();
        assert(bytes =~= seq![0u8]);
    }
    if bytes == seq![0u8] {
        let clients = Seq::<u64>::empty();
        assert(clients.to_set() =~= empty.dom());
        assert(bytes =~= var_uint(clients.len()) + clock_entries(clients, empty));
    }
}

/// A new delete set deletes nothing and is empty.
pub proof fn lemma_new_delete_set_deletes_nothing(client: u64, clock: u32)
    ensures
        !is_deleted_in(Map::empty(), client, clock),
        ranges_empty(Map::empty()),
{
}

/// A delete set with no client is empty.
pub proof fn lemma_no_client_is_empty(ranges: Map<u64, (bool, Seq<(u32, u32)>)>)
    requires
        ranges.dom().finite(),
        ranges.len() == 0,
    ensures
        ranges_empty(ranges),
{
    vstd::set_lib::lemma_set_empty_equivalency_len(ranges.dom());
    assert forall|c: u64| #[trigger] ranges.contains_key(c) implies entry_is_empty(ranges[c]) by {
        assert(ranges.dom().contains(c));
    }
}

/// Merging is commutative as far as deletions go: `a` merged with `b` and
/// `b` merged with `a` hold the same clients and delete the same blocks.
pub proof fn lemma_merge_commutes(
    a: Map<u64, (bool, Seq<(u32, u32)>)>,
    b: Map<u64, (bool, Seq<(u32, u32)>)>,
    ab: Map<u64, (bool, Seq<(u32, u32)>)>,
    ba: Map<u64, (bool, Seq<(u32, u32)>)>,
)
    requires
        merged_deletions(a, b, ab),
        merged_deletions(b, a, ba),
    ensures
        same_deletions(ab, ba),
{
    assert(ab.dom() =~= ba.dom());
}

/// Merging a delete set with one that deletes the same blocks changes no
/// deletion.
pub proof fn lemma_merge_idempotent(
    a: Map<u64, (bool, Seq<(u32, u32)>)>,
    b: Map<u64, (bool, Seq<(u32, u32)>)>,
    merged: Map<u64, (bool, Seq<(u32, u32)>)>,
)
    requires
        same_deletions(a, b),
        merged_deletions(a, b, merged),
    ensures
        same_deletions(a, merged),
{
    assert(merged.dom() =~= a.dom());
}

/// Merging keeps every deletion of both sides.
pub proof fn lemma_merge_keeps_deletions(
    a: Map<u64, (bool, Seq<(u32, u32)>)>,
    b: Map<u64, (bool, Seq<(u32, u32)>)>,
    merged: Map<u64, (bool, Seq<(u32, u32)>)>,
    client: u64,
    clock: u32,
)
    requires
        merged_deletions(a, b, merged),
        is_deleted_in(a, client, clock) || is_deleted_in(b, client, clock),
    ensures
        is_deleted_in(merged, client, clock),
{
}

/// Squashing twice deletes what squashing once does: the relation kept by
/// `squash` is transitive.
pub proof fn lemma_same_deletions_transitive(
    a: Map<u64, (bool, Seq<(u32, u32)>)>,
    b: Map<u64, (bool, Seq<(u32, u32)>)>,
    c: Map<u64, (bool, Seq<(u32, u32)>)>,
)
    requires
        same_deletions(a, b),
        same_deletions(b, c),
    ensures
        same_deletions(a, c),
{
    assert forall|client: u64, clock: u32|
        #[trigger] is_deleted_in(c, client, clock) == is_deleted_in(a, client, clock) by {
        assert(is_deleted_in(c, client, clock) == is_deleted_in(b, client, clock));
        assert(is_deleted_in(b, client, clock) == is_deleted_in(a, client, clock));
    }
}


/// Squashing twice lays the ranges out as squashing once: a delete set whose
/// ranges are ordered, squashed into `once` and then into `twice`, gives
/// `twice == once`.
pub proof fn lemma_squash_idempotent(
    before: Map<u64, (bool, Seq<(u32, u32)>)>,
    once: Map<u64, (bool, Seq<(u32, u32)>)>,
    twice: Map<u64, (bool, Seq<(u32, u32)>)>,
)
    requires
        all_ordered(before),
        same_deletions(before, once),
        squashed_layout(before, once),
        same_deletions(once, twice),
        squashed_layout(once, twice),
    ensures
        twice == once,
{
    assert forall|c: u64| #[trigger] twice.contains_key(c) implies twice[c] == once[c] by {
        assert(once.contains_key(c));
        assert(before.contains_key(c));
        assert(squashed_entry(before[c], once[c]));
        assert(squashed_entry(once[c], twice[c]));
        assert(ranges_ordered(before[c]));
    }
    assert(twice =~= once);
}

/// A squashed delete set whose ranges were ordered is stable: its encodings
/// decode back to exactly its ranges.
pub proof fn lemma_squashed_is_stable(
    before: Map<u64, (bool, Seq<(u32, u32)>)>,
    after: Map<u64, (bool, Seq<(u32, u32)>)>,
)
    requires
        all_ordered(before),
        same_deletions(before, after),
        squashed_layout(before, after),
    ensures
        all_stable(after),
{
    assert forall|c: u64| #[trigger] after.contains_key(c) implies stable_entry(after[c]) by {
        assert(before.contains_key(c));
        assert(squashed_entry(before[c], after[c]));
        assert(ranges_ordered(before[c]));
        let e = after[c];
        if e.0 && compact_entry(e) {
            assert forall|i: int| 1 <= i < e.1.len() implies #[trigger] e.1[i].0 >= e.1[i - 1].1 by {
                assert(e.1[i - 1].1 < e.1[i].0);
            }
        }
    }
}

} // verus!
