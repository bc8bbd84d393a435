//! The messages of the synchronisation protocol: the three steps of a sync
//! exchange, and the outer message that carries one of them or something
//! this library does not support.
use crate::error::Error;
use crate::scan::{check_message_v1, check_message_v2, check_v2_header, message_v1_safe, message_v2_safe, v2_prefix_safe};
use crate::state::{is_state_vector_v1, StateVector};
use crate::wire::{var_buf, var_uint};
use vstd::prelude::*;
use vstd::string::StringExecFns;
use yrs::encoding::read::Error as ReadError;
use yrs::sync::Message as YMessage;
use yrs::sync::SyncMessage as YSyncMessage;
use yrs::updates::decoder::Decode;
use yrs::updates::encoder::Encode;

verus! {

// ---------------------------------------------------------------------------
// Models
// ---------------------------------------------------------------------------

/// What a sync message holds: the sender's state vector as clocks, or the
/// bytes of an update.
pub enum SyncView {
    SyncStep1(Map<u64, u32>),
    SyncStep2(Seq<u8>),
    Update(Seq<u8>),
}

/// What a decoded protocol message holds, as far as this library reads it.
pub enum MessageKindView {
    Sync(SyncView),
    Auth(Option<Seq<char>>),
    AwarenessQuery,
    Awareness,
    Custom(u8, Seq<u8>),
}

/// What a message of this library holds.
pub enum MessageView {
    Sync(SyncView),
    Unsupported,
}

/// The sync message that `yrs::sync::SyncMessage::decode_v1` reads from
/// `bytes`, or `None` where it fails.
pub uninterp spec fn sync_message_from_v1(bytes: Seq<u8>) -> Option<SyncView>;

/// The sync message that `yrs::sync::SyncMessage::decode_v2` reads from
/// `bytes`, or `None` where it fails.
pub uninterp spec fn sync_message_from_v2(bytes: Seq<u8>) -> Option<SyncView>;

/// The protocol message that `yrs::sync::Message::decode_v1` reads from
/// `bytes`, or `None` where it fails.
pub uninterp spec fn message_from_v1(bytes: Seq<u8>) -> Option<MessageKindView>;

/// The protocol message that `yrs::sync::Message::decode_v2` reads from
/// `bytes`, or `None` where it fails.
pub uninterp spec fn message_from_v2(bytes: Seq<u8>) -> Option<MessageKindView>;

/// The header that `EncoderV2::to_vec` writes where no column was used: the
/// feature byte 0, then the nine column buffers, each empty but the string
/// column, which holds an empty string.
pub open spec fn empty_v2_header() -> Seq<u8> {
    seq![0u8, 0u8, 0u8, 0u8, 0u8, 0u8, 1u8, 0u8, 0u8, 0u8, 0u8]
}

/// The version 2 encoding of a sync step with tag `tag` and payload `data`:
/// the header, then the tag, then the payload's length twice (the encoder's
/// `write_buf` writes it, and its `write_all` writes it again) and the
/// payload.
pub open spec fn sync_frame_v2(tag: nat, data: Seq<u8>) -> Seq<u8> {
    empty_v2_header() + var_uint(tag) + var_uint(data.len()) + var_buf(data)
}

/// The version 2 encoding of a protocol message carrying that sync step: as
/// `sync_frame_v2`, with the message tag 0 before the step's tag.
pub open spec fn message_frame_v2(tag: nat, data: Seq<u8>) -> Seq<u8> {
    empty_v2_header() + var_uint(0) + var_uint(tag) + var_uint(data.len()) + var_buf(data)
}

/// `bytes` is the version 2 encoding of the sync message `v`; a first step's
/// payload is a version 1 encoding of its state vector.
pub open spec fn is_sync_v2(bytes: Seq<u8>, v: SyncView) -> bool {
    match v {
        SyncView::SyncStep1(clocks) => exists|sv_bytes: Seq<u8>|
            #[trigger] is_state_vector_v1(sv_bytes, clocks) && bytes == sync_frame_v2(0, sv_bytes),
        SyncView::SyncStep2(data) => bytes == sync_frame_v2(1, data),
        SyncView::Update(data) => bytes == sync_frame_v2(2, data),
    }
}

/// `bytes` is the version 2 encoding of a protocol message carrying `v`.
pub open spec fn is_message_v2(bytes: Seq<u8>, v: SyncView) -> bool {
    match v {
        SyncView::SyncStep1(clocks) => exists|sv_bytes: Seq<u8>|
            #[trigger] is_state_vector_v1(sv_bytes, clocks) && bytes == message_frame_v2(0, sv_bytes),
        SyncView::SyncStep2(data) => bytes == message_frame_v2(1, data),
        SyncView::Update(data) => bytes == message_frame_v2(2, data),
    }
}

/// The tag that the sync protocol gives each step.
pub open spec fn sync_tag(v: SyncView) -> nat {
    match v {
        SyncView::SyncStep1(_) => 0,
        SyncView::SyncStep2(_) => 1,
        SyncView::Update(_) => 2,
    }
}

/// The name of a step.
pub open spec fn step_name(v: SyncView) -> Seq<char> {
    match v {
        SyncView::SyncStep1(_) => "sync_step1"@,
        SyncView::SyncStep2(_) => "sync_step2"@,
        SyncView::Update(_) => "update"@,
    }
}

/// The state vector that a first step carries.
pub open spec fn sync_state(v: SyncView) -> Option<Map<u64, u32>> {
    match v {
        SyncView::SyncStep1(clocks) => Some(clocks),
        _ => None,
    }
}

/// The update bytes that a second step or an update carries.
pub open spec fn sync_data(v: SyncView) -> Option<Seq<u8>> {
    match v {
        SyncView::SyncStep2(data) => Some(data),
        SyncView::Update(data) => Some(data),
        _ => None,
    }
}

/// The message asked for where a state vector is read from another step.
pub open spec fn state_vector_error(v: SyncView) -> Seq<char> {
    "Expected step to be 'sync_step1', got "@ + step_name(v)
}

/// The message asked for where update bytes are read from a first step.
pub open spec fn data_error(v: SyncView) -> Seq<char> {
    "Expected step to be 'sync_step2' or 'update`, got "@ + step_name(v)
}

/// `bytes` is a version 1 encoding of a sync message: its tag as a
/// variable-length integer, then its payload as a length-prefixed buffer,
/// the payload of a first step being a version 1 encoding of its state vector.
pub open spec fn is_sync_v1(bytes: Seq<u8>, v: SyncView) -> bool {
    match v {
        SyncView::SyncStep1(clocks) => exists|sv_bytes: Seq<u8>|
            #[trigger] is_state_vector_v1(sv_bytes, clocks) && bytes == var_uint(0) + var_buf(
                sv_bytes,
            ),
        SyncView::SyncStep2(data) => bytes == var_uint(1) + var_buf(data),
        SyncView::Update(data) => bytes == var_uint(2) + var_buf(data),
    }
}

/// The counts of a version 1 encoding fit the `u32`s that the decoder reads
/// them into.
pub open spec fn fits_decoder(bytes: Seq<u8>, v: SyncView) -> bool {
    &&& bytes.len() <= u32::MAX
    &&& sync_state(v) matches Some(clocks) ==> clocks.len() <= u32::MAX
}

/// Every sync message that `bytes` is a version 1 encoding of, with counts
/// that fit the decoder, is what the decoding `r` of `bytes` holds.
pub open spec fn sync_reads_back_v1(bytes: Seq<u8>, r: Result<SyncMessage, ReadError>) -> bool {
    forall|v: SyncView|
        #[trigger] is_sync_v1(bytes, v) && fits_decoder(bytes, v) ==> (r matches Ok(m) && m@ == v)
}

/// The decoding is an awareness query.
pub open spec fn is_query(r: Result<MessageKind, ReadError>) -> bool {
    r matches Ok(k) && k@ == MessageKindView::AwarenessQuery
}

/// Every protocol message carrying a sync message that `bytes` is a version 1
/// encoding of, with counts that fit the decoder, is what the decoding `r`
/// of `bytes` holds.
pub open spec fn message_reads_back_v1(bytes: Seq<u8>, r: Result<MessageKind, ReadError>) -> bool {
    forall|v: SyncView|
        #[trigger] is_message_v1(bytes, v) && fits_decoder(bytes, v) ==> (r matches Ok(k) && k@
            == MessageKindView::Sync(v))
}

/// `bytes` is a version 1 encoding of a protocol message that carries the
/// sync message `v`: the tag 0, then the sync message.
pub open spec fn is_message_v1(bytes: Seq<u8>, v: SyncView) -> bool {
    exists|sync_bytes: Seq<u8>|
        #[trigger] is_sync_v1(sync_bytes, v) && bytes == var_uint(0) + sync_bytes
}

/// The message of this library for a decoded protocol message: a sync
/// message is kept, every other kind is unsupported.
pub open spec fn message_of(k: MessageKindView) -> MessageView {
    match k {
        MessageKindView::Sync(v) => MessageView::Sync(v),
        _ => MessageView::Unsupported,
    }
}

// ---------------------------------------------------------------------------
// Types
// ---------------------------------------------------------------------------

/// A message of the sync exchange.
pub enum SyncMessage {
    /// The sender's state vector, asking for what it has not seen.
    SyncStep1(StateVector),
    /// An encoded update answering a first step.
    SyncStep2(Vec<u8>),
    /// An encoded update sent as it happens.
    Update(Vec<u8>),
}

impl View for SyncMessage {
    type V = SyncView;

    open spec fn view(&self) -> SyncView {
        match self {
            SyncMessage::SyncStep1(sv) => SyncView::SyncStep1(sv@),
            SyncMessage::SyncStep2(data) => SyncView::SyncStep2(data@),
            SyncMessage::Update(data) => SyncView::Update(data@),
        }
    }
}

/// A decoded protocol message, with the kinds that this library does not
/// support kept apart.
pub enum MessageKind {
    Sync(SyncMessage),
    Auth(Option<String>),
    AwarenessQuery,
    Awareness,
    Custom(u8, Vec<u8>),
}

impl View for MessageKind {
    type V = MessageKindView;

    open spec fn view(&self) -> MessageKindView {
        match self {
            MessageKind::Sync(m) => MessageKindView::Sync(m@),
            MessageKind::Auth(reason) => MessageKindView::Auth(
                match reason {
                    Some(r) => Some(r@),
                    None => None,
                },
            ),
            MessageKind::AwarenessQuery => MessageKindView::AwarenessQuery,
            MessageKind::Awareness => MessageKindView::Awareness,
            MessageKind::Custom(tag, data) => MessageKindView::Custom(*tag, data@),
        }
    }
}

/// A protocol message: a sync message, or a kind this library does not
/// support.
pub enum Message {
    Sync(SyncMessage),
    Unsupported,
}

impl View for Message {
    type V = MessageView;

    open spec fn view(&self) -> MessageView {
        match self {
            Message::Sync(m) => MessageView::Sync(m@),
            Message::Unsupported => MessageView::Unsupported,
        }
    }
}

// ---------------------------------------------------------------------------
// Calls into yrs
// ---------------------------------------------------------------------------

/// Calls `yrs::sync::SyncMessage::decode_v1` and moves the variant found into
/// the library's type; the result is named by `sync_message_from_v1`. The
/// decoder reads back what `Encode::encode_v1` writes: the tag, then the
/// payload with its length read into a `u32`, a first step's payload read as
/// a state vector.
#[verifier::external_body]
fn sync_decode_v1(data: &[u8]) -> (r: Result<SyncMessage, ReadError>)
    ensures
        data@.len() == 0 ==> r is Err,
        match r {
            Ok(m) => sync_message_from_v1(data@) == Some(m@),
            Err(_) => sync_message_from_v1(data@) is None,
        },
        sync_reads_back_v1(data@, r),
{
    YSyncMessage::decode_v1(data).map(|m| match m {
        YSyncMessage::SyncStep1(sv) => SyncMessage::SyncStep1(StateVector::from_yrs(sv)),
        YSyncMessage::SyncStep2(d) => SyncMessage::SyncStep2(d),
        YSyncMessage::Update(d) => SyncMessage::Update(d),
    })
}

/// Calls `yrs::sync::SyncMessage::decode_v2` and moves the variant found into
/// the library's type; the result is named by `sync_message_from_v2`.
#[verifier::external_body]
fn sync_decode_v2(data: &[u8]) -> (r: Result<SyncMessage, ReadError>)
    requires
        v2_prefix_safe(data@),
    ensures
        data@.len() == 0 ==> r is Err,
        match r {
            Ok(m) => sync_message_from_v2(data@) == Some(m@),
            Err(_) => sync_message_from_v2(data@) is None,
        },
{
    YSyncMessage::decode_v2(data).map(|m| match m {
        YSyncMessage::SyncStep1(sv) => SyncMessage::SyncStep1(StateVector::from_yrs(sv)),
        YSyncMessage::SyncStep2(d) => SyncMessage::SyncStep2(d),
        YSyncMessage::Update(d) => SyncMessage::Update(d),
    })
}

/// Builds the `yrs::sync::SyncMessage` of the same variant from copies of the
/// payload and calls its `Encode::encode_v1`: the tag, then the payload as a
/// length-prefixed buffer.
#[verifier::external_body]
fn sync_encode_v1(m: &SyncMessage) -> (r: Vec<u8>)
    ensures
        is_sync_v1(r@, m@),
{
    match m {
        SyncMessage::SyncStep1(sv) => YSyncMessage::SyncStep1(sv.as_yrs().clone()),
        SyncMessage::SyncStep2(d) => YSyncMessage::SyncStep2(d.clone()),
        SyncMessage::Update(d) => YSyncMessage::Update(d.clone()),
    }.encode_v1()
}

/// Builds the `yrs::sync::SyncMessage` of the same variant and calls its
/// `Encode::encode_v2`: the empty column header, then the tag and the payload
/// as `sync_frame_v2` lays them out; a first step's payload is the state
/// vector's `encode_v1`, whose client order is left unsaid.
#[verifier::external_body]
fn sync_encode_v2(m: &SyncMessage) -> (r: Vec<u8>)
    ensures
        is_sync_v2(r@, m@),
{
    match m {
        SyncMessage::SyncStep1(sv) => YSyncMessage::SyncStep1(sv.as_yrs().clone()),
        SyncMessage::SyncStep2(d) => YSyncMessage::SyncStep2(d.clone()),
        SyncMessage::Update(d) => YSyncMessage::Update(d.clone()),
    }.encode_v2()
}

/// Calls `yrs::sync::Message::decode_v1` and moves the variant found into
/// `MessageKind` (the payload of an awareness update is not kept); the result
/// is named by `message_from_v1`. The decoder reads back what
/// `Encode::encode_v1` writes for a sync message: the tag 0, then the sync
/// message.
#[verifier::external_body]
fn message_decode_v1(data: &[u8]) -> (r: Result<MessageKind, ReadError>)
    requires
        message_v1_safe(data@),
    ensures
        data@.len() == 0 ==> r is Err,
        data@.len() > 0 && data@[0] == 3 ==> is_query(r),
        match r {
            Ok(k) => message_from_v1(data@) == Some(k@),
            Err(_) => message_from_v1(data@) is None,
        },
        message_reads_back_v1(data@, r),
{
    YMessage::decode_v1(data).map(|m| match m {
        YMessage::Sync(YSyncMessage::SyncStep1(sv)) => MessageKind::Sync(SyncMessage::SyncStep1(StateVector::from_yrs(sv))),
        YMessage::Sync(YSyncMessage::SyncStep2(d)) => MessageKind::Sync(SyncMessage::SyncStep2(d)),
        YMessage::Sync(YSyncMessage::Update(d)) => MessageKind::Sync(SyncMessage::Update(d)),
        YMessage::Auth(reason) => MessageKind::Auth(reason),
        YMessage::AwarenessQuery => MessageKind::AwarenessQuery,
        YMessage::Awareness(_) => MessageKind::Awareness,
        YMessage::Custom(tag, d) => MessageKind::Custom(tag, d),
    })
}

/// Calls `yrs::sync::Message::decode_v2` and moves the variant found into
/// `MessageKind`; the result is named by `message_from_v2`.
#[verifier::external_body]
fn message_decode_v2(data: &[u8]) -> (r: Result<MessageKind, ReadError>)
    requires
        message_v2_safe(data@),
    ensures
        data@.len() == 0 ==> r is Err,
        match r {
            Ok(k) => message_from_v2(data@) == Some(k@),
            Err(_) => message_from_v2(data@) is None,
        },
{
    YMessage::decode_v2(data).map(|m| match m {
        YMessage::Sync(YSyncMessage::SyncStep1(sv)) => MessageKind::Sync(SyncMessage::SyncStep1(StateVector::from_yrs(sv))),
        YMessage::Sync(YSyncMessage::SyncStep2(d)) => MessageKind::Sync(SyncMessage::SyncStep2(d)),
        YMessage::Sync(YSyncMessage::Update(d)) => MessageKind::Sync(SyncMessage::Update(d)),
        YMessage::Auth(reason) => MessageKind::Auth(reason),
        YMessage::AwarenessQuery => MessageKind::AwarenessQuery,
        YMessage::Awareness(_) => MessageKind::Awareness,
        YMessage::Custom(tag, d) => MessageKind::Custom(tag, d),
    })
}

/// Wraps a copy of the sync message in `yrs::sync::Message::Sync` and calls
/// its `Encode::encode_v1`: the tag 0, then the sync message.
#[verifier::external_body]
fn message_encode_v1(m: &SyncMessage) -> (r: Vec<u8>)
    ensures
        is_message_v1(r@, m@),
{
    YMessage::Sync(match m {
        SyncMessage::SyncStep1(sv) => YSyncMessage::SyncStep1(sv.as_yrs().clone()),
        SyncMessage::SyncStep2(d) => YSyncMessage::SyncStep2(d.clone()),
        SyncMessage::Update(d) => YSyncMessage::Update(d.clone()),
    }).encode_v1()
}

/// Wraps a copy of the sync message in `yrs::sync::Message::Sync` and calls
/// its `Encode::encode_v2`: the empty column header, the message tag 0, then
/// the step as `message_frame_v2` lays it out; a first step's payload is the
/// state vector's `encode_v1`, whose client order is left unsaid.
#[verifier::external_body]
fn message_encode_v2(m: &SyncMessage) -> (r: Vec<u8>)
    ensures
        is_message_v2(r@, m@),
{
    YMessage::Sync(match m {
        SyncMessage::SyncStep1(sv) => YSyncMessage::SyncStep1(sv.as_yrs().clone()),
        SyncMessage::SyncStep2(d) => YSyncMessage::SyncStep2(d.clone()),
        SyncMessage::Update(d) => YSyncMessage::Update(d.clone()),
    }).encode_v2()
}

// ---------------------------------------------------------------------------
// Helpers
// ---------------------------------------------------------------------------

/// Whether two byte vectors hold the same bytes.
fn bytes_equal(a: &Vec<u8>, b: &Vec<u8>) -> (r: bool)
    ensures
        r == (a@ == b@),
{
    if a.len() != b.len() {
        return false;
    }
    let mut i: usize = 0;
    while i < a.len()
        invariant
            a.len() == b.len(),
            i <= a.len(),
            forall|j: int| 0 <= j < i ==> a@[j] == b@[j],
        decreases a.len() - i,
    {
        if a[i] != b[i] {
            return false;
        }
        i = i + 1;
    }
    assert(a@ =~= b@);
    true
}

/// A copy of a byte slice.
fn copy_bytes(data: &[u8]) -> (r: Vec<u8>)
    ensures
        r@ == data@,
{
    let mut out: Vec<u8> = Vec::new();
    let mut i: usize = 0;
    while i < data.len()
        invariant
            i <= data.len(),
            out@ == data@.take(i as int),
        decreases data.len() - i,
    {
        out.push(data[i]);
        i = i + 1;
        assert(out@ =~= data@.take(i as int));
    }
    assert(data@.take(data.len() as int) =~= data@);
    out
}

// ---------------------------------------------------------------------------
// SyncMessage
// ---------------------------------------------------------------------------

impl SyncMessage {
    /// Wraps a decoding result: the message, or the library's decoding error.
    pub fn from_decoded(r: Result<SyncMessage, ReadError>) -> (out: Result<SyncMessage, Error>)
        ensures
            match r {
                Ok(m) => out matches Ok(o) && o@ == m@,
                Err(_) => out matches Err(Error::Other(_)),
            },
    {
        match r {
            Ok(m) => Ok(m),
            Err(e) => Err(crate::state::decoding_error(e)),
        }
    }

    /// Reads a sync message in the version 1 encoding; what `encode_v1`
    /// wrote it reads back.
    pub fn decode_v1_ec(data: &[u8]) -> (r: Result<SyncMessage, Error>)
        ensures
            data@.len() == 0 ==> r is Err,
            match sync_message_from_v1(data@) {
                Some(v) => r matches Ok(m) && m@ == v,
                None => r matches Err(Error::Other(_)),
            },
            forall|v: SyncView|
                #[trigger] is_sync_v1(data@, v) && fits_decoder(data@, v) ==> (r matches Ok(m) && m@
                    == v),
    {
        Self::from_decoded(sync_decode_v1(data))
    }

    /// Reads a sync message in the version 2 encoding, from bytes that
    /// `scan::check_v2_header` accepts (the decoder panics on the others);
    /// empty bytes are refused.
    pub fn decode_v2_ec(data: &[u8]) -> (r: Result<SyncMessage, Error>)
        requires
            v2_prefix_safe(data@),
        ensures
            data@.len() == 0 ==> r is Err,
            match sync_message_from_v2(data@) {
                Some(v) => r matches Ok(m) && m@ == v,
                None => r matches Err(Error::Other(_)),
            },
    {
        Self::from_decoded(sync_decode_v2(data))
    }

    /// `decode_v2_ec` for any bytes: bytes on which the decoder would panic
    /// are refused with `Unreadable`.
    pub fn try_decode_v2_ec(data: &[u8]) -> (r: Result<SyncMessage, Error>)
        ensures
            !v2_prefix_safe(data@) ==> r matches Err(Error::Unreadable),
            v2_prefix_safe(data@) ==> match sync_message_from_v2(data@) {
                Some(v) => r matches Ok(m) && m@ == v,
                None => r matches Err(Error::Other(_)),
            },
            data@.len() == 0 ==> r is Err,
    {
        if !check_v2_header(data) {
            return Err(Error::Unreadable);
        }
        Self::decode_v2_ec(data)
    }

    /// A first step carrying a copy of `state_vector`.
    pub fn from_sync_step1_ec(state_vector: &StateVector) -> (r: Result<SyncMessage, Error>)
        ensures
            r matches Ok(m) && m@ == SyncView::SyncStep1(state_vector@),
    {
        Ok(SyncMessage::SyncStep1(state_vector.duplicate()))
    }

    /// A second step carrying a copy of `data`.
    pub fn from_sync_step2_ec(data: &[u8]) -> (r: Result<SyncMessage, Error>)
        ensures
            r matches Ok(m) && m@ == SyncView::SyncStep2(data@),
    {
        Ok(SyncMessage::SyncStep2(copy_bytes(data)))
    }

    /// An update carrying a copy of `data`.
    pub fn from_update_ec(data: &[u8]) -> (r: Result<SyncMessage, Error>)
        ensures
            r matches Ok(m) && m@ == SyncView::Update(data@),
    {
        Ok(SyncMessage::Update(copy_bytes(data)))
    }

    /// Whether both are the same step with the same payload.
    pub fn equal(&self, other: &Self) -> (r: bool)
        ensures
            r == (self@ == other@),
    {
        match (self, other) {
            (SyncMessage::SyncStep1(a), SyncMessage::SyncStep1(b)) => a.equal(b),
            (SyncMessage::SyncStep2(a), SyncMessage::SyncStep2(b)) => bytes_equal(a, b),
            (SyncMessage::Update(a), SyncMessage::Update(b)) => bytes_equal(a, b),
            _ => false,
        }
    }

    /// The negation of `equal`.
    pub fn not_equal(&self, other: &Self) -> (r: bool)
        ensures
            r == (self@ != other@),
    {
        !self.equal(other)
    }

    /// The version 1 encoding: the tag of the step, then its payload as a
    /// length-prefixed buffer.
    pub fn encode_v1(&self) -> (r: Vec<u8>)
        ensures
            is_sync_v1(r@, self@),
    {
        sync_encode_v1(self)
    }

    /// The version 2 encoding: the empty column header, the tag, then the
    /// payload's length twice and the payload (a first step's payload being
    /// the version 1 encoding of its state vector). Its decoder reads the
    /// length once, so it does not read this back.
    pub fn encode_v2(&self) -> (r: Vec<u8>)
        ensures
            is_sync_v2(r@, self@),
    {
        sync_encode_v2(self)
    }

    /// The name of the step: `sync_step1`, `sync_step2` or `update`.
    pub fn step(&self) -> (r: &'static str)
        ensures
            r@ == step_name(self@),
    {
        match self {
            SyncMessage::SyncStep1(_) => "sync_step1",
            SyncMessage::SyncStep2(_) => "sync_step2",
            SyncMessage::Update(_) => "update",
        }
    }

    /// Whether this is a first step.
    pub fn is_sync_step1(&self) -> (r: bool)
        ensures
            r == (self@ is SyncStep1),
    {
        match self {
            SyncMessage::SyncStep1(_) => true,
            _ => false,
        }
    }

    /// Whether this is a second step.
    pub fn is_sync_step2(&self) -> (r: bool)
        ensures
            r == (self@ is SyncStep2),
    {
        match self {
            SyncMessage::SyncStep2(_) => true,
            _ => false,
        }
    }

    /// Whether this is an update.
    pub fn is_update(&self) -> (r: bool)
        ensures
            r == (self@ is Update),
    {
        match self {
            SyncMessage::Update(_) => true,
            _ => false,
        }
    }

    /// The state vector of a first step; for another step, an error naming
    /// the step found.
    pub fn state_vector_ec(&self) -> (r: Result<StateVector, Error>)
        ensures
            match sync_state(self@) {
                Some(clocks) => r matches Ok(sv) && sv@ == clocks,
                None => r matches Err(Error::Other(msg)) && msg@ == state_vector_error(self@),
            },
    {
        match self {
            SyncMessage::SyncStep1(sv) => Ok(sv.duplicate()),
            _ => {
                let mut msg = String::from_str("Expected step to be 'sync_step1', got ");
                msg.append(self.step());
                Err(Error::Other(msg))
            },
        }
    }

    /// The update bytes of a second step or an update; for a first step, an
    /// error naming the step found.
    pub fn data_ec(&self) -> (r: Result<Vec<u8>, Error>)
        ensures
            match sync_data(self@) {
                Some(data) => r matches Ok(d) && d@ == data,
                None => r matches Err(Error::Other(msg)) && msg@ == data_error(self@),
            },
    {
        match self {
            SyncMessage::SyncStep2(d) => Ok(copy_bytes(d.as_slice())),
            SyncMessage::Update(d) => Ok(copy_bytes(d.as_slice())),
            _ => {
                let mut msg = String::from_str("Expected step to be 'sync_step2' or 'update`, got ");
                msg.append(self.step());
                Err(Error::Other(msg))
            },
        }
    }

    /// A copy of this message.
    pub fn duplicate(&self) -> (r: SyncMessage)
        ensures
            r@ == self@,
    {
        match self {
            SyncMessage::SyncStep1(sv) => SyncMessage::SyncStep1(sv.duplicate()),
            SyncMessage::SyncStep2(d) => SyncMessage::SyncStep2(copy_bytes(d.as_slice())),
            SyncMessage::Update(d) => SyncMessage::Update(copy_bytes(d.as_slice())),
        }
    }
}

// ---------------------------------------------------------------------------
// Message
// ---------------------------------------------------------------------------

impl Message {
    /// The message for a decoded protocol message: a sync message is kept,
    /// every other kind becomes `Unsupported`.
    pub fn from_ymessage(k: MessageKind) -> (r: Message)
        ensures
            r@ == message_of(k@),
    {
        match k {
            MessageKind::Sync(m) => Message::Sync(m),
            _ => Message::Unsupported,
        }
    }

    /// Wraps a decoding result: the message, or the library's decoding error.
    pub fn from_decoded(r: Result<MessageKind, ReadError>) -> (out: Result<Message, Error>)
        ensures
            match r {
                Ok(k) => out matches Ok(o) && o@ == message_of(k@),
                Err(_) => out matches Err(Error::Other(_)),
            },
    {
        match r {
            Ok(k) => Ok(Self::from_ymessage(k)),
            Err(e) => Err(crate::state::decoding_error(e)),
        }
    }

    /// Reads a protocol message in the version 1 encoding, from bytes that
    /// `scan::check_message_v1` accepts (the decoder panics on the others);
    /// what `encode_v1` wrote it reads back, empty bytes are refused, and the
    /// tag 3 (an awareness query) is unsupported.
    pub fn decode_v1_ec(data: &[u8]) -> (r: Result<Message, Error>)
        requires
            message_v1_safe(data@),
        ensures
            data@.len() == 0 ==> r is Err,
            data@.len() > 0 && data@[0] == 3 ==> (r matches Ok(m) && m@ == MessageView::Unsupported),
            match message_from_v1(data@) {
                Some(k) => r matches Ok(m) && m@ == message_of(k),
                None => r matches Err(Error::Other(_)),
            },
            forall|v: SyncView|
                #[trigger] is_message_v1(data@, v) && fits_decoder(data@, v) ==> (r matches Ok(m)
                    && m@ == MessageView::Sync(v)),
    {
        Self::from_decoded(message_decode_v1(data))
    }

    /// `decode_v1_ec` for any bytes: bytes on which the decoder would panic
    /// are refused with `Unreadable`.
    pub fn try_decode_v1_ec(data: &[u8]) -> (r: Result<Message, Error>)
        ensures
            !message_v1_safe(data@) ==> r matches Err(Error::Unreadable),
            message_v1_safe(data@) ==> match message_from_v1(data@) {
                Some(k) => r matches Ok(m) && m@ == message_of(k),
                None => r matches Err(Error::Other(_)),
            },
            data@.len() == 0 ==> r is Err,
    {
        if !check_message_v1(data) {
            return Err(Error::Unreadable);
        }
        Self::decode_v1_ec(data)
    }

    /// Reads a protocol message in the version 2 encoding, from bytes that
    /// `scan::check_message_v2` accepts (the decoder panics on the others);
    /// empty bytes are refused.
    pub fn decode_v2_ec(data: &[u8]) -> (r: Result<Message, Error>)
        requires
            message_v2_safe(data@),
        ensures
            data@.len() == 0 ==> r is Err,
            match message_from_v2(data@) {
                Some(k) => r matches Ok(m) && m@ == message_of(k),
                None => r matches Err(Error::Other(_)),
            },
    {
        Self::from_decoded(message_decode_v2(data))
    }

    /// `decode_v2_ec` for any bytes: bytes on which the decoder would panic
    /// are refused with `Unreadable`.
    pub fn try_decode_v2_ec(data: &[u8]) -> (r: Result<Message, Error>)
        ensures
            !message_v2_safe(data@) ==> r matches Err(Error::Unreadable),
            message_v2_safe(data@) ==> match message_from_v2(data@) {
                Some(k) => r matches Ok(m) && m@ == message_of(k),
                None => r matches Err(Error::Other(_)),
            },
            data@.len() == 0 ==> r is Err,
    {
        if !check_message_v2(data) {
            return Err(Error::Unreadable);
        }
        Self::decode_v2_ec(data)
    }

    /// A message carrying `sync`.
    pub fn from_sync_message(sync: SyncMessage) -> (r: Message)
        ensures
            r@ == MessageView::Sync(sync@),
    {
        Message::Sync(sync)
    }

    /// Whether the message carries a sync message.
    pub fn is_sync_message(&self) -> (r: bool)
        ensures
            r == (self@ is Sync),
    {
        match self {
            Message::Sync(_) => true,
            Message::Unsupported => false,
        }
    }

    /// The sync message carried, if any.
    pub fn inner(&self) -> (r: Option<&SyncMessage>)
        ensures
            match self@ {
                MessageView::Sync(v) => r matches Some(m) && m@ == v,
                MessageView::Unsupported => r is None,
            },
    {
        match self {
            Message::Sync(m) => Some(m),
            Message::Unsupported => None,
        }
    }

    /// The version 1 encoding of a message carrying a sync message: the tag
    /// 0, then the sync message.
    pub fn encode_v1(&self) -> (r: Vec<u8>)
        requires
            self@ is Sync,
        ensures
            match self@ {
                MessageView::Sync(v) => is_message_v1(r@, v),
                MessageView::Unsupported => false,
            },
    {
        match self {
            Message::Sync(m) => message_encode_v1(m),
            Message::Unsupported => {
                assert(false);
                Vec::new()
            },
        }
    }

    /// The version 2 encoding of a message carrying a sync message: the empty
    /// column header, the message tag 0, then the step as in
    /// `SyncMessage::encode_v2`.
    pub fn encode_v2(&self) -> (r: Vec<u8>)
        requires
            self@ is Sync,
        ensures
            match self@ {
                MessageView::Sync(v) => is_message_v2(r@, v),
                MessageView::Unsupported => false,
            },
    {
        match self {
            Message::Sync(m) => message_encode_v2(m),
            Message::Unsupported => {
                assert(false);
                Vec::new()
            },
        }
    }
}

// ---------------------------------------------------------------------------
// Laws
// ---------------------------------------------------------------------------

/// A sync message is exactly one of the three steps, and `step` names the
/// one that the predicates report.
pub proof fn lemma_one_step(v: SyncView)
    ensures
        (v is SyncStep1) || (v is SyncStep2) || (v is Update),
        !((v is SyncStep1) && (v is SyncStep2)),
        !((v is SyncStep1) && (v is Update)),
        !((v is SyncStep2) && (v is Update)),
        (step_name(v) == "sync_step1"@) == (v is SyncStep1),
        (step_name(v) == "sync_step2"@) == (v is SyncStep2),
        (step_name(v) == "update"@) == (v is Update),
{
    reveal_strlit("sync_step1");
    reveal_strlit("sync_step2");
    reveal_strlit("update");
    assert("sync_step1"@[9] != "sync_step2"@[9]);
    assert("sync_step1"@.len() != "update"@.len());
    assert("sync_step2"@.len() != "update"@.len());
}

/// Exactly one of `state_vector_ec` and `data_ec` succeeds: the first on a
/// first step, the second on the two other steps.
pub proof fn lemma_state_or_data(v: SyncView)
    ensures
        (sync_state(v) is Some) == (v is SyncStep1),
        (sync_data(v) is Some) == !(v is SyncStep1),
{
}

/// What a constructor puts into a message is what the matching reader gives
/// back: the state vector of `from_sync_step1_ec`, the bytes of
/// `from_sync_step2_ec` and of `from_update_ec`.
pub proof fn lemma_read_back(clocks: Map<u64, u32>, data: Seq<u8>)
    ensures
        sync_state(SyncView::SyncStep1(clocks)) == Some(clocks),
        sync_data(SyncView::SyncStep2(data)) == Some(data),
        sync_data(SyncView::Update(data)) == Some(data),
        step_name(SyncView::SyncStep1(clocks)) == "sync_step1"@,
        step_name(SyncView::SyncStep2(data)) == "sync_step2"@,
        step_name(SyncView::Update(data)) == "update"@,
{
}

/// A version 1 sync message starts with the tag of its step, followed by at
/// least one byte of length.
pub proof fn lemma_sync_v1_tag(bytes: Seq<u8>, v: SyncView)
    requires
        is_sync_v1(bytes, v),
    ensures
        bytes.len() >= 2,
        bytes[0] == sync_tag(v),
{
    crate::wire::lemma_var_uint_small(sync_tag(v));
    match v {
        SyncView::SyncStep1(clocks) => {
            let sv_bytes = choose|sv_bytes: Seq<u8>|
                #[trigger] is_state_vector_v1(sv_bytes, clocks) && bytes == var_uint(0) + var_buf(
                    sv_bytes,
                );
            crate::wire::lemma_var_uint_nonempty(sv_bytes.len());
        },
        SyncView::SyncStep2(data) => {
            crate::wire::lemma_var_uint_nonempty(data.len());
        },
        SyncView::Update(data) => {
            crate::wire::lemma_var_uint_nonempty(data.len());
        },
    }
}

/// The bytes of a second step or an update are the last bytes of its version
/// 1 encoding, after the tag and the length.
pub proof fn lemma_sync_v1_payload(bytes: Seq<u8>, v: SyncView)
    requires
        is_sync_v1(bytes, v),
        sync_data(v) is Some,
    ensures
        bytes.skip(1 + var_uint(sync_data(v)->0.len()).len() as int) == sync_data(v)->0,
{
    let data = sync_data(v)->0;
    crate::wire::lemma_var_uint_small(sync_tag(v));
    assert(bytes.skip(1 + var_uint(data.len()).len() as int) =~= data);
}

/// A version 1 protocol message that carries a sync message starts with the
/// tag 0 and then the tag of the step.
pub proof fn lemma_message_v1_prefix(bytes: Seq<u8>, v: SyncView)
    requires
        is_message_v1(bytes, v),
    ensures
        bytes.len() >= 3,
        bytes[0] == 0,
        bytes[1] == sync_tag(v),
{
    let sync_bytes = choose|sync_bytes: Seq<u8>|
        #[trigger] is_sync_v1(sync_bytes, v) && bytes == var_uint(0) + sync_bytes;
    lemma_sync_v1_tag(sync_bytes, v);
    crate::wire::lemma_var_uint_small(0);
}

/// A decoded protocol message is kept exactly where it is a sync message,
/// and then as that sync message; every other kind (an awareness update, an
/// awareness query, an authentication, a custom message) is unsupported.
pub proof fn lemma_only_sync_messages_kept(k: MessageKindView)
    ensures
        (message_of(k) is Sync) == (k is Sync),
        k matches MessageKindView::Sync(v) ==> message_of(k) == MessageView::Sync(v),
        !(k is Sync) ==> message_of(k) == MessageView::Unsupported,
{
}

} // verus!
