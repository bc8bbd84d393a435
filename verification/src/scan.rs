//! Checks made on encoded bytes before they reach the decoders of the CRDT
//! library: each says whether a decoder reads the bytes to a result or to an
//! error without panicking, following the decoder step by step.
use vstd::prelude::*;
use vstd::utf8::valid_utf8;

verus! {

// ---------------------------------------------------------------------------
// Variable-length integers as the decoders read them
// ---------------------------------------------------------------------------

/// What `read_var::<u32>` reads from byte `pos + k` on, with the low groups
/// already gathered in `acc`: each byte's low seven bits shifted by seven per
/// byte (the shift taken modulo 32), up to eleven bytes; `None` where the
/// bytes end first or the eleventh byte still asks for more.
pub open spec fn var_u32_from(bytes: Seq<u8>, pos: int, k: nat, acc: u32) -> Option<(u32, int)>
    decreases 11 - k,
{
    if k > 10 || pos < 0 || pos + k >= bytes.len() {
        None
    } else {
        let b = bytes[pos + k];
        let acc2 = acc | (((b & 127u8) as u32) << (((7 * k) % 32) as u32));
        if b < 128 {
            Some((acc2, pos + k + 1))
        } else if k == 10 {
            None
        } else {
            var_u32_from(bytes, pos, k + 1, acc2)
        }
    }
}

/// The `u32` that `read_var::<u32>` reads at `pos`, with the position after it.
pub open spec fn var_u32_at(bytes: Seq<u8>, pos: int) -> Option<(u32, int)> {
    var_u32_from(bytes, pos, 0, 0)
}

/// What `read_var::<u64>` reads from byte `pos + k` on, as `var_u32_from`
/// with shifts taken modulo 64.
pub open spec fn var_u64_from(bytes: Seq<u8>, pos: int, k: nat, acc: u64) -> Option<(u64, int)>
    decreases 11 - k,
{
    if k > 10 || pos < 0 || pos + k >= bytes.len() {
        None
    } else {
        let b = bytes[pos + k];
        let acc2 = acc | (((b & 127u8) as u64) << (((7 * k) % 64) as u64));
        if b < 128 {
            Some((acc2, pos + k + 1))
        } else if k == 10 {
            None
        } else {
            var_u64_from(bytes, pos, k + 1, acc2)
        }
    }
}

/// The `u64` that `read_var::<u64>` reads at `pos`, with the position after it.
pub open spec fn var_u64_at(bytes: Seq<u8>, pos: int) -> Option<(u64, int)> {
    var_u64_from(bytes, pos, 0, 0)
}

/// The bytes that `read_buf` reads at `pos`: a `u32` length, then that many
/// bytes; `None` where either is missing.
pub open spec fn var_buf_at(bytes: Seq<u8>, pos: int) -> Option<(int, int)> {
    match var_u32_at(bytes, pos) {
        None => None,
        Some((n, p)) => if p + n > bytes.len() {
            None
        } else {
            Some((p, p + n))
        },
    }
}

/// Reads `read_var::<u32>` at `pos`.
pub fn read_var_u32(bytes: &[u8], pos: usize) -> (r: Option<(u32, usize)>)
    ensures
        match r {
            Some((v, p)) => var_u32_at(bytes@, pos as int) == Some((v, p as int)) && pos < p
                <= bytes.len(),
            None => var_u32_at(bytes@, pos as int) is None,
        },
{
    let mut k: usize = 0;
    let mut acc: u32 = 0;
    loop
        invariant
            k <= 10,
            var_u32_at(bytes@, pos as int) == var_u32_from(bytes@, pos as int, k as nat, acc),
        decreases 10 - k,
    {
        if pos >= bytes.len() || k >= bytes.len() - pos {
            return None;
        }
        let b: u8 = bytes[pos + k];
        let acc2: u32 = acc | (((b & 127u8) as u32) << (((7 * k) % 32) as u32));
        if b < 128 {
            return Some((acc2, pos + k + 1));
        }
        if k == 10 {
            return None;
        }
        k = k + 1;
        acc = acc2;
    }
}

/// Reads `read_var::<u64>` at `pos`.
pub fn read_var_u64(bytes: &[u8], pos: usize) -> (r: Option<(u64, usize)>)
    ensures
        match r {
            Some((v, p)) => var_u64_at(bytes@, pos as int) == Some((v, p as int)) && pos < p
                <= bytes.len(),
            None => var_u64_at(bytes@, pos as int) is None,
        },
{
    let mut k: usize = 0;
    let mut acc: u64 = 0;
    loop
        invariant
            k <= 10,
            var_u64_at(bytes@, pos as int) == var_u64_from(bytes@, pos as int, k as nat, acc),
        decreases 10 - k,
    {
        if pos >= bytes.len() || k >= bytes.len() - pos {
            return None;
        }
        let b: u8 = bytes[pos + k];
        let acc2: u64 = acc | (((b & 127u8) as u64) << (((7 * k) % 64) as u64));
        if b < 128 {
            return Some((acc2, pos + k + 1));
        }
        if k == 10 {
            return None;
        }
        k = k + 1;
        acc = acc2;
    }
}

/// Reads `read_buf` at `pos`: the start and end of the bytes.
pub fn read_var_buf(bytes: &[u8], pos: usize) -> (r: Option<(usize, usize)>)
    ensures
        match r {
            Some((s, e)) => var_buf_at(bytes@, pos as int) == Some((s as int, e as int)) && pos < s
                <= e <= bytes.len(),
            None => var_buf_at(bytes@, pos as int) is None,
        },
{
    match read_var_u32(bytes, pos) {
        None => None,
        Some((n, p)) => {
            if n as usize > bytes.len() - p {
                None
            } else {
                Some((p, p + n as usize))
            }
        },
    }
}

/// Calls `std::str::from_utf8` and tells whether it succeeds: whether the
/// bytes are well-formed UTF-8.
#[verifier::external_body]
fn utf8_valid(bytes: &[u8]) -> (r: bool)
    ensures
        r == valid_utf8(bytes@),
{
    std::str::from_utf8(bytes).is_ok()
}

// ---------------------------------------------------------------------------
// Delete sets
// ---------------------------------------------------------------------------

/// The version 1 delete-set decoder, from `pos` on, with `clients` clients
/// and `ranges` ranges of the current client still to read, panics nowhere:
/// no range it reads has a clock and a length whose sum passes `u32::MAX`
/// before it stops.
pub open spec fn ds_v1_scan(bytes: Seq<u8>, pos: int, clients: nat, ranges: nat) -> bool
    decreases clients, ranges,
{
    if ranges > 0 {
        match var_u32_at(bytes, pos) {
            None => true,
            Some((clock, p1)) => match var_u32_at(bytes, p1) {
                None => true,
                Some((len, p2)) => clock + len <= u32::MAX && ds_v1_scan(
                    bytes,
                    p2,
                    clients,
                    (ranges - 1) as nat,
                ),
            },
        }
    } else if clients == 0 {
        true
    } else {
        match var_u32_at(bytes, pos) {
            None => true,
            Some((_, p1)) => match var_u32_at(bytes, p1) {
                None => true,
                Some((n, p2)) => ds_v1_scan(bytes, p2, (clients - 1) as nat, n as nat),
            },
        }
    }
}

/// `DeleteSet::decode_v1` (and the delete-set part of `Snapshot::decode_v1`)
/// reads `bytes` without panicking: it reads the number of clients, then
/// each client, its number of ranges and the ranges, and panics only where a
/// range's end passes `u32::MAX`.
pub open spec fn ds_v1_safe(bytes: Seq<u8>) -> bool {
    match var_u32_at(bytes, 0) {
        None => true,
        Some((count, p)) => ds_v1_scan(bytes, p, count as nat, 0),
    }
}

/// Whether `ds_v1_safe` holds of `data`.
pub fn check_ds_v1(data: &[u8]) -> (r: bool)
    ensures
        r == ds_v1_safe(data@),
{
    let (count, start) = match read_var_u32(data, 0) {
        None => return true,
        Some(x) => x,
    };
    let mut pos: usize = start;
    let mut clients: u32 = count;
    let mut ranges: u32 = 0;
    while pos <= data.len()
        invariant
            ds_v1_safe(data@) == ds_v1_scan(data@, pos as int, clients as nat, ranges as nat),
        decreases data.len() + 1 - pos,
    {
        if ranges > 0 {
            let (clock, p1) = match read_var_u32(data, pos) {
                None => return true,
                Some(x) => x,
            };
            let (len, p2) = match read_var_u32(data, p1) {
                None => return true,
                Some(x) => x,
            };
            if clock as u64 + len as u64 > u32::MAX as u64 {
                return false;
            }
            pos = p2;
            ranges = ranges - 1;
        } else if clients == 0 {
            return true;
        } else {
            let (_, p1) = match read_var_u32(data, pos) {
                None => return true,
                Some(x) => x,
            };
            let (n, p2) = match read_var_u32(data, p1) {
                None => return true,
                Some(x) => x,
            };
            pos = p2;
            clients = clients - 1;
            ranges = n;
        }
    }
    true
}

/// The version 2 delete-set decoder, reading the rest of the bytes from `pos`
/// on, with `clients` clients and `ranges` ranges still to read and `cur` the
/// running clock of the current client, panics nowhere: no clock difference
/// or length (read less one) carries the running clock past `u32::MAX`, and
/// no length read is `u32::MAX`.
pub open spec fn ds_v2_scan(bytes: Seq<u8>, pos: int, clients: nat, ranges: nat, cur: u32) -> bool
    decreases clients, ranges,
{
    if ranges > 0 {
        match var_u32_at(bytes, pos) {
            None => true,
            Some((diff, p1)) => cur + diff <= u32::MAX && match var_u32_at(bytes, p1) {
                None => true,
                Some((len, p2)) => len < u32::MAX && cur + diff + len + 1 <= u32::MAX
                    && ds_v2_scan(
                    bytes,
                    p2,
                    clients,
                    (ranges - 1) as nat,
                    (cur + diff + len + 1) as u32,
                ),
            },
        }
    } else if clients == 0 {
        true
    } else {
        match var_u32_at(bytes, pos) {
            None => true,
            Some((_, p1)) => match var_u32_at(bytes, p1) {
                None => true,
                Some((n, p2)) => ds_v2_scan(bytes, p2, (clients - 1) as nat, n as nat, 0),
            },
        }
    }
}

/// The version 2 delete-set decoder reads the rest of its input, `rest`,
/// without panicking.
pub open spec fn ds_v2_body_safe(rest: Seq<u8>) -> bool {
    match var_u32_at(rest, 0) {
        None => true,
        Some((count, p)) => ds_v2_scan(rest, p, count as nat, 0, 0),
    }
}

/// Whether `ds_v2_body_safe` holds of `rest`.
fn check_ds_v2_body(rest: &[u8]) -> (r: bool)
    ensures
        r == ds_v2_body_safe(rest@),
{
    let (count, start) = match read_var_u32(rest, 0) {
        None => return true,
        Some(x) => x,
    };
    let mut pos: usize = start;
    let mut clients: u32 = count;
    let mut ranges: u32 = 0;
    let mut cur: u32 = 0;
    while pos <= rest.len()
        invariant
            ds_v2_body_safe(rest@) == ds_v2_scan(rest@, pos as int, clients as nat, ranges as nat, cur),
        decreases rest.len() + 1 - pos,
    {
        if ranges > 0 {
            let (diff, p1) = match read_var_u32(rest, pos) {
                None => return true,
                Some(x) => x,
            };
            if cur as u64 + diff as u64 > u32::MAX as u64 {
                return false;
            }
            let (len, p2) = match read_var_u32(rest, p1) {
                None => return true,
                Some(x) => x,
            };
            if len == u32::MAX || cur as u64 + diff as u64 + len as u64 + 1 > u32::MAX as u64 {
                return false;
            }
            pos = p2;
            ranges = ranges - 1;
            cur = cur + diff + len + 1;
        } else if clients == 0 {
            return true;
        } else {
            let (_, p1) = match read_var_u32(rest, pos) {
                None => return true,
                Some(x) => x,
            };
            let (n, p2) = match read_var_u32(rest, p1) {
                None => return true,
                Some(x) => x,
            };
            pos = p2;
            clients = clients - 1;
            ranges = n;
            cur = 0;
        }
    }
    true
}

// ---------------------------------------------------------------------------
// The header of the version 2 encoding
// ---------------------------------------------------------------------------

/// What `DecoderV2::read_usize` does from byte `pos + k` on, with the low
/// groups gathered in `acc`.
pub enum UsizeRead {
    /// It indexes past the bytes or shifts by the width of `usize` or more.
    Panics,
    /// It reads a value and stops before the given position.
    Value(usize, int),
}

/// `DecoderV2::read_usize` past its first byte: each byte's low seven bits
/// shifted by seven per byte, the index never checked against the end.
pub open spec fn usize_from(bytes: Seq<u8>, pos: int, k: nat, acc: usize) -> UsizeRead
    decreases 11 - k,
{
    if k > 10 || pos < 0 || pos + k >= bytes.len() || 7 * k >= usize::BITS {
        UsizeRead::Panics
    } else {
        let b = bytes[pos + k];
        let acc2 = acc | (((b & 127u8) as usize) << ((7 * k) as usize));
        if b < 128 {
            UsizeRead::Value(acc2, pos + k + 1)
        } else {
            usize_from(bytes, pos, k + 1, acc2)
        }
    }
}

/// What `DecoderV2::read_buf` does at `pos`.
pub enum BufRead {
    /// It panics: a length runs past the bytes or past the width of `usize`,
    /// or the end of the buffer passes `usize::MAX`.
    Panics,
    /// It returns an error.
    Fails,
    /// It reads the bytes from the first position up to the second.
    Slice(int, int),
}

/// `DecoderV2::read_buf` at `pos`: no byte left is an error; otherwise the
/// length is read with `read_usize`, and a buffer passing the end an error.
pub open spec fn v2_buf_at(bytes: Seq<u8>, pos: int) -> BufRead {
    if pos < 0 || pos >= bytes.len() {
        BufRead::Fails
    } else {
        match usize_from(bytes, pos, 0, 0) {
            UsizeRead::Panics => BufRead::Panics,
            UsizeRead::Value(n, st) => if st + n > usize::MAX {
                BufRead::Panics
            } else if st + n > bytes.len() {
                BufRead::Fails
            } else {
                BufRead::Slice(st, st + n)
            },
        }
    }
}

/// What `DecoderV2::new` makes of its nine column buffers from the `i`-th
/// on, read from `pos`, with the string column found so far.
pub enum V2Header {
    Panics,
    Fails,
    /// The string column's start and end, and where the rest begins.
    Parsed(int, int, int),
}

/// The nine column buffers of the version 2 header, from the `i`-th on.
pub open spec fn v2_columns(bytes: Seq<u8>, pos: int, i: nat, s_start: int, s_end: int) -> V2Header
    decreases 9 - i,
{
    if i >= 9 {
        V2Header::Parsed(s_start, s_end, pos)
    } else {
        match v2_buf_at(bytes, pos) {
            BufRead::Panics => V2Header::Panics,
            BufRead::Fails => V2Header::Fails,
            BufRead::Slice(st, en) => v2_columns(
                bytes,
                en,
                i + 1,
                if i == 5 {
                    st
                } else {
                    s_start
                },
                if i == 5 {
                    en
                } else {
                    s_end
                },
            ),
        }
    }
}

/// The header of a version 2 encoding: a feature byte where there is one,
/// then the nine column buffers.
pub open spec fn v2_header(bytes: Seq<u8>) -> V2Header {
    v2_columns(
        bytes,
        if bytes.len() > 0 {
            1
        } else {
            0
        },
        0,
        0,
        0,
    )
}

/// `DecoderV2::new` runs without panicking or handing invalid UTF-8 to
/// `from_utf8_unchecked`: the header reads to an error or to its end, and
/// then the string column's first buffer reads to an error or to well-formed
/// UTF-8.
pub open spec fn v2_prefix_safe(bytes: Seq<u8>) -> bool {
    match v2_header(bytes) {
        V2Header::Panics => false,
        V2Header::Fails => true,
        V2Header::Parsed(s, e, _) => match v2_buf_at(bytes.subrange(s, e), 0) {
            BufRead::Panics => false,
            BufRead::Fails => true,
            BufRead::Slice(a, b) => valid_utf8(bytes.subrange(s, e).subrange(a, b)),
        },
    }
}

/// The bytes that a version 2 decoder goes on to read after `DecoderV2::new`
/// succeeds; `None` where it fails.
pub open spec fn v2_rest(bytes: Seq<u8>) -> Option<Seq<u8>> {
    match v2_header(bytes) {
        V2Header::Parsed(s, e, rest) => match v2_buf_at(bytes.subrange(s, e), 0) {
            BufRead::Slice(_, _) => Some(bytes.skip(rest)),
            _ => None,
        },
        _ => None,
    }
}

/// Reads `DecoderV2::read_usize` from `pos`.
fn read_v2_usize(bytes: &[u8], pos: usize) -> (r: Option<(usize, usize)>)
    requires
        pos < bytes.len(),
    ensures
        match r {
            Some((v, p)) => usize_from(bytes@, pos as int, 0, 0) == UsizeRead::Value(v, p as int)
                && pos < p <= bytes.len(),
            None => usize_from(bytes@, pos as int, 0, 0) is Panics,
        },
{
    let mut k: usize = 0;
    let mut acc: usize = 0;
    loop
        invariant
            k <= 10,
            pos < bytes.len(),
            usize_from(bytes@, pos as int, 0, 0) == usize_from(bytes@, pos as int, k as nat, acc),
        decreases 10 - k,
    {
        if k >= bytes.len() - pos || 7 * k >= usize::BITS as usize {
            return None;
        }
        let b: u8 = bytes[pos + k];
        let acc2: usize = acc | (((b & 127u8) as usize) << (7 * k));
        if b < 128 {
            return Some((acc2, pos + k + 1));
        }
        if k == 10 {
            return None;
        }
        k = k + 1;
        acc = acc2;
    }
}

/// What `DecoderV2::read_buf` does at `pos`: `Err(true)` where it panics,
/// `Err(false)` where it fails, the bounds of the buffer otherwise.
fn read_v2_buf(bytes: &[u8], pos: usize) -> (r: Result<(usize, usize), bool>)
    ensures
        match r {
            Ok((s, e)) => v2_buf_at(bytes@, pos as int) == BufRead::Slice(s as int, e as int) && s
                <= e <= bytes.len(),
            Err(true) => v2_buf_at(bytes@, pos as int) is Panics,
            Err(false) => v2_buf_at(bytes@, pos as int) is Fails,
        },
{
    if pos >= bytes.len() {
        return Err(false);
    }
    match read_v2_usize(bytes, pos) {
        None => Err(true),
        Some((n, st)) => {
            if n > usize::MAX - st {
                Err(true)
            } else if st + n > bytes.len() {
                Err(false)
            } else {
                Ok((st, st + n))
            }
        },
    }
}

/// What `DecoderV2::new` does with `data`: `Err(true)` where it panics or
/// hands invalid UTF-8 on, `Err(false)` where it fails, where the rest
/// begins otherwise.
fn check_v2_prefix(data: &[u8]) -> (r: Result<usize, bool>)
    ensures
        match r {
            Ok(rest) => v2_prefix_safe(data@) && rest <= data.len() && v2_rest(data@) == Some(
                data@.skip(rest as int),
            ),
            Err(true) => !v2_prefix_safe(data@),
            Err(false) => v2_prefix_safe(data@) && v2_rest(data@) is None,
        },
{
    let mut pos: usize = if data.len() > 0 {
        1
    } else {
        0
    };
    let mut i: usize = 0;
    let mut s_start: usize = 0;
    let mut s_end: usize = 0;
    while i < 9
        invariant
            i <= 9,
            pos <= data.len(),
            s_start <= s_end <= data.len(),
            v2_header(data@) == v2_columns(data@, pos as int, i as nat, s_start as int, s_end as int),
        decreases 9 - i,
    {
        match read_v2_buf(data, pos) {
            Err(p) => {
                return Err(p);
            },
            Ok((st, en)) => {
                if i == 5 {
                    s_start = st;
                    s_end = en;
                }
                pos = en;
            },
        }
        i = i + 1;
    }
    let column = slice_of(data, s_start, s_end);
    match read_v2_buf(column.as_slice(), 0) {
        Err(p) => Err(p),
        Ok((a, b)) => {
            let text = slice_of(column.as_slice(), a, b);
            if utf8_valid(text.as_slice()) {
                Ok(pos)
            } else {
                Err(true)
            }
        },
    }
}

/// A copy of the bytes from `start` up to `end`.
fn slice_of(bytes: &[u8], start: usize, end: usize) -> (r: Vec<u8>)
    requires
        start <= end <= bytes.len(),
    ensures
        r@ == bytes@.subrange(start as int, end as int),
{
    let mut out: Vec<u8> = Vec::new();
    let mut i: usize = start;
    while i < end
        invariant
            start <= i <= end <= bytes.len(),
            out@ == bytes@.subrange(start as int, i as int),
        decreases end - i,
    {
        out.push(bytes[i]);
        i = i + 1;
        assert(out@ =~= bytes@.subrange(start as int, i as int));
    }
    out
}

/// `StateVector::decode_v2` (and `SyncMessage::decode_v2`, whose sync steps
/// read nothing more that can panic) reads `data` without panicking.
pub fn check_v2_header(data: &[u8]) -> (r: bool)
    ensures
        r == v2_prefix_safe(data@),
{
    match check_v2_prefix(data) {
        Err(true) => false,
        _ => true,
    }
}

/// `DeleteSet::decode_v2` and `Snapshot::decode_v2` read `bytes` without
/// panicking: the header, then the delete set in the rest.
pub open spec fn ds_v2_safe(bytes: Seq<u8>) -> bool {
    &&& v2_prefix_safe(bytes)
    &&& v2_rest(bytes) matches Some(rest) ==> ds_v2_body_safe(rest)
}

/// Whether `ds_v2_safe` holds of `data`.
pub fn check_ds_v2(data: &[u8]) -> (r: bool)
    ensures
        r == ds_v2_safe(data@),
{
    match check_v2_prefix(data) {
        Err(true) => false,
        Err(false) => true,
        Ok(rest) => {
            let tail = slice_of(data, rest, data.len());
            assert(tail@ =~= data@.skip(rest as int));
            check_ds_v2_body(tail.as_slice())
        },
    }
}

// ---------------------------------------------------------------------------
// Protocol messages
// ---------------------------------------------------------------------------

/// The awareness entries from `pos` on, `left` of them still to read, hand
/// only well-formed UTF-8 to `from_utf8_unchecked`.
pub open spec fn awareness_scan(bytes: Seq<u8>, pos: int, left: nat) -> bool
    decreases left,
{
    if left == 0 {
        true
    } else {
        match var_u64_at(bytes, pos) {
            None => true,
            Some((_, p1)) => match var_u32_at(bytes, p1) {
                None => true,
                Some((_, p2)) => match var_buf_at(bytes, p2) {
                    None => true,
                    Some((s, e)) => valid_utf8(bytes.subrange(s, e)) && awareness_scan(
                        bytes,
                        e,
                        (left - 1) as nat,
                    ),
                },
            },
        }
    }
}

/// `AwarenessUpdate::decode_v1` reads `payload` without panicking and without
/// invalid UTF-8: the number of entries, from which `HashMap::with_capacity`
/// sizes a table, is below `isize::MAX / 128` (from there on the table asks
/// for more than a quarter of the address space for its entries of at most
/// 32 bytes, so its size computation overflows, a panic, or its allocation
/// fails), and the JSON of every entry read before the decoder stops is
/// well-formed UTF-8.
pub open spec fn awareness_safe(payload: Seq<u8>) -> bool {
    match var_u64_at(payload, 0) {
        None => true,
        Some((count, p)) => (count as usize) <= isize::MAX / 128 && awareness_scan(
            payload,
            p,
            (count as usize) as nat,
        ),
    }
}

/// `Message::decode` reads `bytes` from `pos` on without panicking and
/// without invalid UTF-8. Awareness updates must be `awareness_safe`; a
/// refused authentication carries a reason string, which the version 1
/// decoder takes as it stands (so it must be well-formed UTF-8) and which
/// `v2` messages may not carry.
pub open spec fn message_scan(bytes: Seq<u8>, pos: int, v2: bool) -> bool {
    match var_u32_at(bytes, pos) {
        None => true,
        Some((tag, p)) => if tag == 1 {
            match var_buf_at(bytes, p) {
                None => true,
                Some((s, e)) => awareness_safe(bytes.subrange(s, e)),
            }
        } else if tag == 2 {
            match var_u32_at(bytes, p) {
                None => true,
                Some((t, p2)) => if t != 0 {
                    true
                } else if v2 {
                    false
                } else {
                    match var_buf_at(bytes, p2) {
                        None => true,
                        Some((s, e)) => valid_utf8(bytes.subrange(s, e)),
                    }
                },
            }
        } else {
            true
        },
    }
}

/// `Message::decode_v1` reads `bytes` without panicking.
pub open spec fn message_v1_safe(bytes: Seq<u8>) -> bool {
    message_scan(bytes, 0, false)
}

/// `Message::decode_v2` reads `bytes` without panicking.
pub open spec fn message_v2_safe(bytes: Seq<u8>) -> bool {
    &&& v2_prefix_safe(bytes)
    &&& v2_rest(bytes) matches Some(rest) ==> message_scan(rest, 0, true)
}

/// Whether `awareness_safe` holds of `payload`.
fn check_awareness(payload: &[u8]) -> (r: bool)
    ensures
        r == awareness_safe(payload@),
{
    let (count, start) = match read_var_u64(payload, 0) {
        None => return true,
        Some(x) => x,
    };
    if count as usize > (isize::MAX as usize) / 128 {
        return false;
    }
    let total: usize = count as usize;
    let mut left: usize = total;
    let mut pos: usize = start;
    while left > 0
        invariant
            pos <= payload.len(),
            awareness_safe(payload@) == awareness_scan(payload@, pos as int, left as nat),
        decreases left,
    {
        let (_, p1) = match read_var_u64(payload, pos) {
            None => return true,
            Some(x) => x,
        };
        let (_, p2) = match read_var_u32(payload, p1) {
            None => return true,
            Some(x) => x,
        };
        let (s, e) = match read_var_buf(payload, p2) {
            None => return true,
            Some(x) => x,
        };
        let text = slice_of(payload, s, e);
        if !utf8_valid(text.as_slice()) {
            return false;
        }
        pos = e;
        left = left - 1;
    }
    true
}

/// Whether `message_scan` holds of `bytes` from the start.
fn check_message_body(bytes: &[u8], v2: bool) -> (r: bool)
    ensures
        r == message_scan(bytes@, 0, v2),
{
    let (tag, p) = match read_var_u32(bytes, 0) {
        None => return true,
        Some(x) => x,
    };
    if tag == 1 {
        match read_var_buf(bytes, p) {
            None => true,
            Some((s, e)) => {
                let payload = slice_of(bytes, s, e);
                check_awareness(payload.as_slice())
            },
        }
    } else if tag == 2 {
        match read_var_u32(bytes, p) {
            None => true,
            Some((t, p2)) => {
                if t != 0 {
                    true
                } else if v2 {
                    false
                } else {
                    match read_var_buf(bytes, p2) {
                        None => true,
                        Some((s, e)) => {
                            let text = slice_of(bytes, s, e);
                            utf8_valid(text.as_slice())
                        },
                    }
                }
            },
        }
    } else {
        true
    }
}

/// Whether `message_v1_safe` holds of `data`.
pub fn check_message_v1(data: &[u8]) -> (r: bool)
    ensures
        r == message_v1_safe(data@),
{
    check_message_body(data, false)
}

/// Whether `message_v2_safe` holds of `data`.
pub fn check_message_v2(data: &[u8]) -> (r: bool)
    ensures
        r == message_v2_safe(data@),
{
    match check_v2_prefix(data) {
        Err(true) => false,
        Err(false) => true,
        Ok(rest) => {
            let tail = slice_of(data, rest, data.len());
            assert(tail@ =~= data@.skip(rest as int));
            check_message_body(tail.as_slice(), true)
        },
    }
}

// ---------------------------------------------------------------------------
// Laws
// ---------------------------------------------------------------------------

/// At `q` stand two integers as the decoder reads them, a clock and a
/// length, whose sum passes `u32::MAX`.
pub open spec fn range_overflows_at(bytes: Seq<u8>, q: int) -> bool {
    match var_u32_at(bytes, q) {
        None => false,
        Some((clock, p)) => match var_u32_at(bytes, p) {
            None => false,
            Some((len, _)) => clock + len > u32::MAX,
        },
    }
}

/// The version 1 delete-set check refuses bytes only where a range that the
/// decoder reads overflows: whatever the clients, the number of ranges and
/// the lengths of their encodings, bytes in which no clock and length read
/// together pass `u32::MAX` are accepted.
pub proof fn lemma_ds_v1_refused_only_on_overflow(bytes: Seq<u8>, pos: int, clients: nat, ranges: nat)
    requires
        !ds_v1_scan(bytes, pos, clients, ranges),
    ensures
        exists|q: int| #[trigger] range_overflows_at(bytes, q),
    decreases clients, ranges,
{
    if ranges > 0 {
        let (clock, p1) = var_u32_at(bytes, pos)->0;
        let (len, p2) = var_u32_at(bytes, p1)->0;
        if clock + len > u32::MAX {
            assert(range_overflows_at(bytes, pos));
        } else {
            lemma_ds_v1_refused_only_on_overflow(bytes, p2, clients, (ranges - 1) as nat);
        }
    } else {
        let (_, p1) = var_u32_at(bytes, pos)->0;
        let (n, p2) = var_u32_at(bytes, p1)->0;
        lemma_ds_v1_refused_only_on_overflow(bytes, p2, (clients - 1) as nat, n as nat);
    }
}

/// `check_ds_v1` refuses bytes only where a range that the decoder reads
/// overflows.
pub proof fn lemma_ds_v1_safe_unless_overflow(bytes: Seq<u8>)
    requires
        !ds_v1_safe(bytes),
    ensures
        exists|q: int| #[trigger] range_overflows_at(bytes, q),
{
    let (count, p) = var_u32_at(bytes, 0)->0;
    lemma_ds_v1_refused_only_on_overflow(bytes, p, count as nat, 0);
}

/// A range read at the decoder's position whose clock and length pass
/// `u32::MAX` together is refused, whatever follows it.
pub proof fn lemma_ds_v1_overflow_refused(bytes: Seq<u8>, pos: int, clients: nat, ranges: nat)
    requires
        ranges > 0,
        range_overflows_at(bytes, pos),
    ensures
        !ds_v1_scan(bytes, pos, clients, ranges),
{
}

} // verus!
