//! Byte-level wire primitives shared by the packet, result and
//! acknowledgement codecs.
//!
//! Every multi-byte structure on the wire is built from two primitives: a
//! 64-bit little-endian unsigned integer, and a block, that is an integer
//! length prefix followed by that many raw bytes. Readers take a buffer and
//! an offset and either yield the value with the offset just past it, or
//! reject the buffer; they never read past the announced end.

use crate::error::DecodeError;
use vstd::bytes::lemma_auto_spec_u64_to_from_le_bytes;
use vstd::bytes::spec_u64_from_le_bytes;
use vstd::bytes::spec_u64_to_le_bytes;
use vstd::bytes::u64_from_le_bytes;
use vstd::bytes::u64_to_le_bytes;
use vstd::prelude::*;
use vstd::slice::slice_subrange;
use vstd::slice::slice_to_vec;

verus! {

/// A length-prefixed block: the byte count as a 64-bit little-endian
/// integer, then the bytes themselves.
pub open spec fn spec_block(b: Seq<u8>) -> Seq<u8>
    recommends
        b.len() <= u64::MAX,
{
    spec_u64_to_le_bytes(b.len() as u64) + b
}

/// Reads a 64-bit little-endian integer at `i`; `None` when fewer than eight
/// bytes remain.
pub open spec fn spec_read_u64(b: Seq<u8>, i: int) -> Option<(u64, int)> {
    if 0 <= i && i + 8 <= b.len() {
        Some((spec_u64_from_le_bytes(b.subrange(i, i + 8)), i + 8))
    } else {
        None
    }
}

/// Reads one byte at `i`; `None` at the end of the buffer.
pub open spec fn spec_read_byte(b: Seq<u8>, i: int) -> Option<(u8, int)> {
    if 0 <= i && i + 1 <= b.len() {
        Some((b[i], i + 1))
    } else {
        None
    }
}

/// Reads a length-prefixed block at `i`; `None` when the length prefix or
/// the announced bytes run past the end of the buffer.
pub open spec fn spec_read_block(b: Seq<u8>, i: int) -> Option<(Seq<u8>, int)> {
    match spec_read_u64(b, i) {
        Some((n, j)) => {
            if j + n <= b.len() {
                Some((b.subrange(j, j + n), j + n))
            } else {
                None
            }
        },
        None => None,
    }
}

/// Appends the 64-bit little-endian encoding of `x`.
pub fn write_u64(out: &mut Vec<u8>, x: u64)
    ensures
        final(out)@ == old(out)@ + spec_u64_to_le_bytes(x),
{
    let b = u64_to_le_bytes(x);
    out.extend_from_slice(b.as_slice());
}

/// Appends `b` as a length-prefixed block.
pub fn write_block(out: &mut Vec<u8>, b: &[u8])
    ensures
        final(out)@ == old(out)@ + spec_block(b@),
{
    write_u64(out, b.len() as u64);
    out.extend_from_slice(b);
    proof {
        assert(final(out)@ =~= old(out)@ + spec_block(b@));
    }
}

/// Reads a 64-bit little-endian integer at offset `i`, exactly as
/// `spec_read_u64` does.
pub fn read_u64_at(bytes: &[u8], i: usize) -> (r: Result<(u64, usize), DecodeError>)
    requires
        i <= bytes@.len(),
    ensures
        match r {
            Ok((v, j)) => spec_read_u64(bytes@, i as int) == Some((v, j as int)),
            Err(e) => spec_read_u64(bytes@, i as int) is None && e == DecodeError::Truncated,
        },
{
    if bytes.len() - i >= 8 {
        let s = slice_subrange(bytes, i, i + 8);
        Ok((u64_from_le_bytes(s), i + 8))
    } else {
        Err(DecodeError::Truncated)
    }
}

/// Reads one byte at offset `i`, exactly as `spec_read_byte` does.
pub fn read_byte_at(bytes: &[u8], i: usize) -> (r: Result<(u8, usize), DecodeError>)
    requires
        i <= bytes@.len(),
    ensures
        match r {
            Ok((v, j)) => spec_read_byte(bytes@, i as int) == Some((v, j as int)),
            Err(e) => spec_read_byte(bytes@, i as int) is None && e == DecodeError::Truncated,
        },
{
    if bytes.len() - i >= 1 {
        Ok((bytes[i], i + 1))
    } else {
        Err(DecodeError::Truncated)
    }
}

/// Reads a length-prefixed block at offset `i`, exactly as `spec_read_block`
/// does.
pub fn read_block_at(bytes: &[u8], i: usize) -> (r: Result<(Vec<u8>, usize), DecodeError>)
    requires
        i <= bytes@.len(),
    ensures
        match r {
            Ok((b, j)) => spec_read_block(bytes@, i as int) == Some((b@, j as int)) && j
                <= bytes@.len(),
            Err(e) => spec_read_block(bytes@, i as int) is None && e == DecodeError::Truncated,
        },
{
    let (n, j) = read_u64_at(bytes, i)?;
    if n <= (bytes.len() - j) as u64 {
        let end = j + (n as usize);
        let s = slice_subrange(bytes, j, end);
        Ok((slice_to_vec(s), end))
    } else {
        Err(DecodeError::Truncated)
    }
}

/// Leading schema-version byte of every structure this crate puts on the
/// wire.
pub const WIRE_SCHEMA_VERSION: u8 = 1;

/// One item of a sequence on the wire: two blocks in a row.
pub open spec fn spec_enc_pair(p: (Seq<u8>, Seq<u8>)) -> Seq<u8> {
    spec_block(p.0) + spec_block(p.1)
}

/// A sequence of items, one pair after the other.
pub open spec fn spec_enc_pairs(items: Seq<(Seq<u8>, Seq<u8>)>) -> Seq<u8>
    decreases items.len(),
{
    if items.len() == 0 {
        Seq::empty()
    } else {
        spec_enc_pair(items[0]) + spec_enc_pairs(items.drop_first())
    }
}

/// Every component is short enough for its length prefix.
pub open spec fn pairs_wf(items: Seq<(Seq<u8>, Seq<u8>)>) -> bool {
    forall|i: int|
        0 <= i < items.len() ==> (#[trigger] items[i]).0.len() <= u64::MAX && items[i].1.len()
            <= u64::MAX
}

/// A complete wire message: the schema version, the item count, then the
/// items.
pub open spec fn spec_enc_pairs_message(items: Seq<(Seq<u8>, Seq<u8>)>) -> Seq<u8>
    recommends
        items.len() <= u64::MAX,
{
    seq![WIRE_SCHEMA_VERSION] + spec_u64_to_le_bytes(items.len() as u64) + spec_enc_pairs(items)
}

/// Reads `n` items one after the other starting at `i`.
pub open spec fn spec_read_pairs(b: Seq<u8>, i: int, n: nat) -> Option<
    (Seq<(Seq<u8>, Seq<u8>)>, int),
>
    decreases n,
{
    if n == 0 {
        Some((Seq::empty(), i))
    } else {
        match spec_read_block(b, i) {
            Some((first, j)) => match spec_read_block(b, j) {
                Some((second, k)) => match spec_read_pairs(b, k, (n - 1) as nat) {
                    Some((rest, m)) => Some((seq![(first, second)] + rest, m)),
                    None => None,
                },
                None => None,
            },
            None => None,
        }
    }
}

/// Decodes a complete wire message: version byte, item count, the items, and
/// nothing after them.
pub open spec fn spec_dec_pairs_message(b: Seq<u8>) -> Option<Seq<(Seq<u8>, Seq<u8>)>> {
    match spec_read_byte(b, 0) {
        Some((v, i1)) => if v == WIRE_SCHEMA_VERSION {
            match spec_read_u64(b, i1) {
                Some((n, i2)) => match spec_read_pairs(b, i2, n as nat) {
                    Some((items, m)) => if m == b.len() {
                        Some(items)
                    } else {
                        None
                    },
                    None => None,
                },
                None => None,
            }
        } else {
            None
        },
        None => None,
    }
}

/// Encoding one more item appends its encoding at the end.
pub proof fn lemma_enc_pairs_push(items: Seq<(Seq<u8>, Seq<u8>)>, it: (Seq<u8>, Seq<u8>))
    ensures
        spec_enc_pairs(items.push(it)) == spec_enc_pairs(items) + spec_enc_pair(it),
    decreases items.len(),
{
    if items.len() == 0 {
        assert(items.push(it)[0] == it);
        assert(items.push(it).drop_first() =~= Seq::<(Seq<u8>, Seq<u8>)>::empty());
        assert(spec_enc_pairs(items.push(it).drop_first()) == Seq::<u8>::empty());
        assert(spec_enc_pairs(items.push(it)) == spec_enc_pair(it) + Seq::<u8>::empty());
        assert(spec_enc_pairs(items) == Seq::<u8>::empty());
        assert(spec_enc_pair(it) + Seq::<u8>::empty() =~= Seq::<u8>::empty() + spec_enc_pair(it));
    } else {
        assert(items.push(it)[0] == items[0]);
        assert(items.push(it).drop_first() =~= items.drop_first().push(it));
        lemma_enc_pairs_push(items.drop_first(), it);
        let x = spec_enc_pair(items[0]);
        let y = spec_enc_pairs(items.drop_first());
        let z = spec_enc_pair(it);
        assert(spec_enc_pairs(items.push(it)) == x + (y + z));
        assert(x + (y + z) =~= (x + y) + z);
        assert(spec_enc_pairs(items) == x + y);
    }
}

/// A sequence of items written at `i` into a larger buffer reads back as
/// itself.
pub proof fn lemma_read_pairs_frame(buf: Seq<u8>, i: int, items: Seq<(Seq<u8>, Seq<u8>)>)
    requires
        pairs_wf(items),
        0 <= i,
        i + spec_enc_pairs(items).len() <= buf.len(),
        buf.subrange(i, i + spec_enc_pairs(items).len()) == spec_enc_pairs(items),
    ensures
        spec_read_pairs(buf, i, items.len()) == Some((items, i + spec_enc_pairs(items).len())),
    decreases items.len(),
{
    if items.len() == 0 {
        assert(items =~= Seq::<(Seq<u8>, Seq<u8>)>::empty());
    } else {
        let a = items[0].0;
        let d = items[0].1;
        let rest = items.drop_first();
        let la = spec_block(a).len() as int;
        let ld = spec_block(d).len() as int;
        let lrest = spec_enc_pairs(rest).len() as int;
        let total = spec_enc_pairs(items).len() as int;
        lemma_auto_spec_u64_to_from_le_bytes();
        assert(la == 8 + a.len());
        assert(ld == 8 + d.len());
        assert(spec_enc_pairs(items) == spec_enc_pair(items[0]) + spec_enc_pairs(rest));
        assert(spec_enc_pairs(items) =~= spec_block(a) + (spec_block(d) + spec_enc_pairs(rest)));
        assert forall|t: int| 0 <= t < la implies buf.subrange(i, i + la)[t] == spec_block(a)[t] by {
            assert(buf.subrange(i, i + total)[t] == spec_enc_pairs(items)[t]);
        }
        assert(buf.subrange(i, i + la) =~= spec_block(a));
        lemma_read_block_frame(buf, i, a);
        assert forall|t: int| 0 <= t < ld implies buf.subrange(i + la, i + la + ld)[t]
            == spec_block(d)[t] by {
            assert(buf.subrange(i, i + total)[la + t] == spec_enc_pairs(items)[la + t]);
        }
        assert(buf.subrange(i + la, i + la + ld) =~= spec_block(d));
        lemma_read_block_frame(buf, i + la, d);
        assert(pairs_wf(rest)) by {
            assert(forall|j: int|
                0 <= j < rest.len() ==> #[trigger] rest[j] == items[j + 1]);
        }
        assert forall|t: int| 0 <= t < lrest implies buf.subrange(
            i + la + ld,
            i + la + ld + lrest,
        )[t] == spec_enc_pairs(rest)[t] by {
            assert(buf.subrange(i, i + total)[la + ld + t] == spec_enc_pairs(items)[la + ld + t]);
        }
        assert(buf.subrange(i + la + ld, i + la + ld + lrest) =~= spec_enc_pairs(rest));
        lemma_read_pairs_frame(buf, i + la + ld, rest);
        assert(seq![(a, d)] + rest =~= items);
        assert(spec_read_block(buf, i) == Some((a, i + la)));
        assert(spec_read_block(buf, i + la) == Some((d, i + la + ld)));
        assert((items.len() - 1) as nat == rest.len());
        assert(spec_read_pairs(buf, i, items.len()) == Some((seq![(a, d)] + rest, i + la + ld
            + lrest)));
        assert(total == la + ld + lrest);
    }
}

/// Round trip of a complete wire message: decoding an encoding yields the
/// items that were encoded.
pub proof fn lemma_pairs_message_round_trip(items: Seq<(Seq<u8>, Seq<u8>)>)
    requires
        pairs_wf(items),
        items.len() <= u64::MAX,
    ensures
        spec_dec_pairs_message(spec_enc_pairs_message(items)) == Some(items),
{
    lemma_auto_spec_u64_to_from_le_bytes();
    let enc = spec_enc_pairs_message(items);
    assert(enc.len() == 9 + spec_enc_pairs(items).len());
    assert(enc[0] == WIRE_SCHEMA_VERSION);
    assert(enc.subrange(1, 9) =~= spec_u64_to_le_bytes(items.len() as u64));
    lemma_read_u64_frame(enc, 1, items.len() as u64);
    assert(enc.subrange(9, enc.len() as int) =~= spec_enc_pairs(items));
    lemma_read_pairs_frame(enc, 9, items);
}

/// What reading guarantees of the items it yields: as many as were asked
/// for, each component cut out of the buffer, so none longer than the buffer
/// itself.
proof fn lemma_read_pairs_items_wf(b: Seq<u8>, i: int, n: nat)
    requires
        b.len() <= u64::MAX,
        spec_read_pairs(b, i, n) is Some,
    ensures
        spec_read_pairs(b, i, n)->Some_0.0.len() == n,
        pairs_wf(spec_read_pairs(b, i, n)->Some_0.0),
    decreases n,
{
    if n != 0 {
        let (first, j) = spec_read_block(b, i)->Some_0;
        let (second, k) = spec_read_block(b, j)->Some_0;
        lemma_read_pairs_items_wf(b, k, (n - 1) as nat);
        let rest = spec_read_pairs(b, k, (n - 1) as nat)->Some_0.0;
        let items = spec_read_pairs(b, i, n)->Some_0.0;
        assert(items == seq![(first, second)] + rest);
        assert(first.len() <= b.len());
        assert(second.len() <= b.len());
        assert forall|t: int| 0 <= t < items.len() implies (#[trigger] items[t]).0.len()
            <= u64::MAX && items[t].1.len() <= u64::MAX by {
            if t > 0 {
                assert(items[t] == rest[t - 1]);
            }
        }
    }
}

/// Re-encoding law: encoding what a message decoded to reproduces a message
/// of the same length, items and order — the bytes themselves need not be
/// equal, their decoded content is.
pub proof fn lemma_pairs_message_reencode(b: Seq<u8>)
    requires
        b.len() <= u64::MAX,
        spec_dec_pairs_message(b) is Some,
    ensures
        spec_dec_pairs_message(spec_enc_pairs_message(spec_dec_pairs_message(b)->Some_0)) == Some(
            spec_dec_pairs_message(b)->Some_0,
        ),
{
    let (n, i2) = spec_read_u64(b, 1)->Some_0;
    lemma_read_pairs_items_wf(b, i2, n as nat);
    lemma_pairs_message_round_trip(spec_dec_pairs_message(b)->Some_0);
}

/// The item views of a decoded vector.
pub open spec fn pairs_view(s: Seq<(Vec<u8>, Vec<u8>)>) -> Seq<(Seq<u8>, Seq<u8>)> {
    Seq::new(s.len(), |i: int| (s[i].0@, s[i].1@))
}

/// Prepends already-read items to the outcome of reading the remainder.
pub open spec fn compose_pairs(acc: Seq<(Seq<u8>, Seq<u8>)>, rest: Option<
    (Seq<(Seq<u8>, Seq<u8>)>, int),
>) -> Option<(Seq<(Seq<u8>, Seq<u8>)>, int)> {
    match rest {
        Some((s, m)) => Some((acc + s, m)),
        None => None,
    }
}

/// Reading one item and then the remainder is reading the whole remainder.
proof fn lemma_read_pairs_step(
    b: Seq<u8>,
    acc: Seq<(Seq<u8>, Seq<u8>)>,
    off: int,
    rem: nat,
    a: Seq<u8>,
    d: Seq<u8>,
    ja: int,
    jd: int,
)
    requires
        rem > 0,
        spec_read_block(b, off) == Some((a, ja)),
        spec_read_block(b, ja) == Some((d, jd)),
    ensures
        compose_pairs(acc, spec_read_pairs(b, off, rem)) == compose_pairs(
            acc.push((a, d)),
            spec_read_pairs(b, jd, (rem - 1) as nat),
        ),
{
    match spec_read_pairs(b, jd, (rem - 1) as nat) {
        Some((s, m)) => {
            assert(acc + (seq![(a, d)] + s) =~= acc.push((a, d)) + s);
        },
        None => {},
    }
}

/// Decodes a complete wire message, exactly as `spec_dec_pairs_message`
/// does: succeeds if and only if the bytes are one well-formed message, and
/// then yields its items in order.
pub fn decode_pairs_message(bytes: &[u8]) -> (r: Result<Vec<(Vec<u8>, Vec<u8>)>, DecodeError>)
    ensures
        match r {
            Ok(items) => spec_dec_pairs_message(bytes@) == Some(pairs_view(items@)),
            Err(_) => spec_dec_pairs_message(bytes@) is None,
        },
{
    let (version, i1) = read_byte_at(bytes, 0)?;
    if version != WIRE_SCHEMA_VERSION {
        return Err(DecodeError::UnsupportedVersion);
    }
    let (count, i2) = read_u64_at(bytes, i1)?;
    let mut items: Vec<(Vec<u8>, Vec<u8>)> = Vec::new();
    let mut off: usize = i2;
    let mut k: u64 = 0;
    while k < count
        invariant
            k <= count,
            off <= bytes@.len(),
            items@.len() == k as nat,
            spec_read_byte(bytes@, 0) == Some((WIRE_SCHEMA_VERSION, 1int)),
            spec_read_u64(bytes@, 1) == Some((count, i2 as int)),
            spec_read_pairs(bytes@, i2 as int, count as nat) == compose_pairs(
                pairs_view(items@),
                spec_read_pairs(bytes@, off as int, (count - k) as nat),
            ),
        decreases count - k,
    {
        let ghost rem = (count - k) as nat;
        let (a, ja) = match read_block_at(bytes, off) {
            Ok(x) => x,
            Err(e) => {
                return Err(e);
            },
        };
        let (d, jd) = match read_block_at(bytes, ja) {
            Ok(x) => x,
            Err(e) => {
                return Err(e);
            },
        };
        proof {
            lemma_read_pairs_step(
                bytes@,
                pairs_view(items@),
                off as int,
                rem,
                a@,
                d@,
                ja as int,
                jd as int,
            );
        }
        items.push((a, d));
        proof {
            assert(pairs_view(items@) =~= pairs_view(items@.drop_last()).push((a@, d@)));
        }
        off = jd;
        k = k + 1;
    }
    if off == bytes.len() {
        proof {
            assert(spec_read_pairs(bytes@, off as int, 0) == Some((
                Seq::<(Seq<u8>, Seq<u8>)>::empty(),
                off as int,
            )));
            assert(pairs_view(items@) + Seq::<(Seq<u8>, Seq<u8>)>::empty() =~= pairs_view(
                items@,
            ));
        }
        Ok(items)
    } else {
        Err(DecodeError::TrailingBytes)
    }
}

/// A 64-bit integer written at `i` into a larger buffer reads back as
/// itself.
pub proof fn lemma_read_u64_frame(buf: Seq<u8>, i: int, x: u64)
    requires
        0 <= i,
        i + 8 <= buf.len(),
        buf.subrange(i, i + 8) == spec_u64_to_le_bytes(x),
    ensures
        spec_read_u64(buf, i) == Some((x, i + 8)),
{
    lemma_auto_spec_u64_to_from_le_bytes();
}

/// A block written at `i` into a larger buffer reads back as its bytes.
pub proof fn lemma_read_block_frame(buf: Seq<u8>, i: int, b: Seq<u8>)
    requires
        0 <= i,
        b.len() <= u64::MAX,
        i + spec_block(b).len() <= buf.len(),
        buf.subrange(i, i + spec_block(b).len()) == spec_block(b),
    ensures
        spec_read_block(buf, i) == Some((b, i + 8 + b.len())),
{
    lemma_auto_spec_u64_to_from_le_bytes();
    let blk = spec_block(b);
    assert(blk.len() == 8 + b.len());
    assert(buf.subrange(i, i + 8) =~= blk.subrange(0, 8));
    assert(blk.subrange(0, 8) =~= spec_u64_to_le_bytes(b.len() as u64));
    lemma_read_u64_frame(buf, i, b.len() as u64);
    assert(buf.subrange(i + 8, i + 8 + b.len()) =~= blk.subrange(8, blk.len() as int));
    assert(blk.subrange(8, blk.len() as int) =~= b);
}

} // verus!
