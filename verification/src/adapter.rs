//! Price-query builder adapter.
//!
//! Turns a high-level price request — pool id, input denomination, output
//! denomination, swap-fee flag — into a `StargateRequest` for the fixed
//! spot-price endpoint of the remote query engine. The payload is a fixed,
//! versioned binary schema with the four fields in order: the schema version
//! byte, the pool id as an unsigned 64-bit integer, the two denominations as
//! length-prefixed UTF-8 strings, and the flag as one byte. The adapter only
//! translates request shapes; it executes nothing.

use crate::codec::spec_flag;
use crate::error::DecodeError;
use crate::msg::IbcQueryRequestTwap;
use crate::msg::QueryMsg;
use crate::msg::StargateRequest;
use crate::wire::lemma_read_block_frame;
use crate::wire::lemma_read_u64_frame;
use crate::wire::read_block_at;
use crate::wire::read_byte_at;
use crate::wire::read_u64_at;
use crate::wire::spec_block;
use crate::wire::spec_read_block;
use crate::wire::spec_read_byte;
use crate::wire::spec_read_u64;
use crate::wire::write_block;
use crate::wire::write_u64;
use crate::wire::WIRE_SCHEMA_VERSION;
use vstd::bytes::lemma_auto_spec_u64_to_from_le_bytes;
use vstd::bytes::spec_u64_to_le_bytes;
use vstd::prelude::*;
use vstd::string::StrSliceExecFns;
use vstd::utf8::encode_utf8;

verus! {

/// UTF-8 bytes of the fixed spot-price endpoint path.
pub open spec fn spec_spot_price_path() -> Seq<u8> {
    encode_utf8("/osmosis.gamm.v2.Query/SpotPrice"@)
}

/// The fixed spot-price endpoint path, as bytes.
pub fn spot_price_path() -> (out: Vec<u8>)
    ensures
        out@ == spec_spot_price_path(),
{
    "/osmosis.gamm.v2.Query/SpotPrice".as_bytes_vec()
}

/// The spot-price payload: schema version, pool id, the two denominations as
/// blocks, the fee flag as one byte.
pub open spec fn spec_enc_spot_price(
    pool_id: u64,
    token_in_denom: Seq<u8>,
    token_out_denom: Seq<u8>,
    with_swap_fee: bool,
) -> Seq<u8>
    recommends
        token_in_denom.len() <= u64::MAX,
        token_out_denom.len() <= u64::MAX,
{
    seq![WIRE_SCHEMA_VERSION] + spec_u64_to_le_bytes(pool_id) + spec_block(token_in_denom)
        + spec_block(token_out_denom) + spec_flag(with_swap_fee)
}

/// Decodes a spot-price payload: the four fields in order and nothing after
/// them.
pub open spec fn spec_dec_spot_price(b: Seq<u8>) -> Option<(u64, Seq<u8>, Seq<u8>, bool)> {
    match spec_read_byte(b, 0) {
        Some((v, i1)) => if v == WIRE_SCHEMA_VERSION {
            match spec_read_u64(b, i1) {
                Some((pool_id, i2)) => match spec_read_block(b, i2) {
                    Some((tin, i3)) => match spec_read_block(b, i3) {
                        Some((tout, i4)) => match spec_read_byte(b, i4) {
                            Some((f, i5)) => if (f == 0 || f == 1) && i5 == b.len() {
                                Some((pool_id, tin, tout, f == 1))
                            } else {
                                None
                            },
                            None => None,
                        },
                        None => None,
                    },
                    None => None,
                },
                None => None,
            }
        } else {
            None
        },
        None => None,
    }
}

/// Encodes the four spot-price fields into the payload schema.
pub fn encode_spot_price_payload(
    pool_id: u64,
    token_in_denom: &str,
    token_out_denom: &str,
    with_swap_fee: bool,
) -> (out: Vec<u8>)
    ensures
        out@ == spec_enc_spot_price(
            pool_id,
            encode_utf8(token_in_denom@),
            encode_utf8(token_out_denom@),
            with_swap_fee,
        ),
{
    let mut out: Vec<u8> = Vec::new();
    out.push(WIRE_SCHEMA_VERSION);
    write_u64(&mut out, pool_id);
    write_block(&mut out, token_in_denom.as_bytes());
    write_block(&mut out, token_out_denom.as_bytes());
    out.push(
        if with_swap_fee {
            1
        } else {
            0
        },
    );
    proof {
        assert(out@ =~= spec_enc_spot_price(
            pool_id,
            encode_utf8(token_in_denom@),
            encode_utf8(token_out_denom@),
            with_swap_fee,
        ));
    }
    out
}

/// A decoded spot-price payload: the four fields of the schema, with the
/// denominations as UTF-8 bytes.
#[derive(Clone, Debug, PartialEq, Eq)]
pub struct SpotPricePayload {
    /// Liquidity pool to price.
    pub pool_id: u64,
    /// Denomination paid in, as UTF-8 bytes.
    pub token_in_denom: Vec<u8>,
    /// Denomination priced out, as UTF-8 bytes.
    pub token_out_denom: Vec<u8>,
    /// Whether the swap fee is included in the quote.
    pub with_swap_fee: bool,
}

/// Decodes a spot-price payload, exactly as `spec_dec_spot_price` does:
/// succeeds if and only if the bytes are one well-formed payload.
pub fn decode_spot_price_payload(bytes: &[u8]) -> (r: Result<SpotPricePayload, DecodeError>)
    ensures
        match r {
            Ok(p) => spec_dec_spot_price(bytes@) == Some(
                (p.pool_id, p.token_in_denom@, p.token_out_denom@, p.with_swap_fee),
            ),
            Err(_) => spec_dec_spot_price(bytes@) is None,
        },
{
    let (version, i1) = read_byte_at(bytes, 0)?;
    if version != WIRE_SCHEMA_VERSION {
        return Err(DecodeError::UnsupportedVersion);
    }
    let (pool_id, i2) = read_u64_at(bytes, i1)?;
    let (token_in_denom, i3) = read_block_at(bytes, i2)?;
    let (token_out_denom, i4) = read_block_at(bytes, i3)?;
    let (flag, i5) = read_byte_at(bytes, i4)?;
    if flag != 0 && flag != 1 {
        return Err(DecodeError::InvalidTag);
    }
    if i5 != bytes.len() {
        return Err(DecodeError::TrailingBytes);
    }
    Ok(SpotPricePayload { pool_id, token_in_denom, token_out_denom, with_swap_fee: flag == 1 })
}

/// Round-trip law of the payload schema: decoding an encoded payload yields
/// the same four field values.
pub proof fn lemma_spot_price_round_trip(
    pool_id: u64,
    token_in_denom: Seq<u8>,
    token_out_denom: Seq<u8>,
    with_swap_fee: bool,
)
    requires
        token_in_denom.len() <= u64::MAX,
        token_out_denom.len() <= u64::MAX,
    ensures
        spec_dec_spot_price(
            spec_enc_spot_price(pool_id, token_in_denom, token_out_denom, with_swap_fee),
        ) == Some((pool_id, token_in_denom, token_out_denom, with_swap_fee)),
{
    lemma_auto_spec_u64_to_from_le_bytes();
    let enc = spec_enc_spot_price(pool_id, token_in_denom, token_out_denom, with_swap_fee);
    let lin = spec_block(token_in_denom).len() as int;
    let lout = spec_block(token_out_denom).len() as int;
    assert(enc.len() == 9 + lin + lout + 1);
    assert(enc[0] == WIRE_SCHEMA_VERSION);
    assert(enc.subrange(1, 9) =~= spec_u64_to_le_bytes(pool_id));
    lemma_read_u64_frame(enc, 1, pool_id);
    assert(enc.subrange(9, 9 + lin) =~= spec_block(token_in_denom));
    lemma_read_block_frame(enc, 9, token_in_denom);
    assert(enc.subrange(9 + lin, 9 + lin + lout) =~= spec_block(token_out_denom));
    lemma_read_block_frame(enc, 9 + lin, token_out_denom);
    assert(enc[9 + lin + lout] == spec_flag(with_swap_fee)[0]);
}

/// A decimal digit in ASCII.
pub open spec fn is_dec_digit(b: u8) -> bool {
    48 <= b <= 57
}

/// Every byte is an ASCII decimal digit.
pub open spec fn all_dec_digits(s: Seq<u8>) -> bool {
    forall|i: int| 0 <= i < s.len() ==> is_dec_digit(#[trigger] s[i])
}

/// The number a sequence of ASCII decimal digits denotes.
pub open spec fn dec_val(s: Seq<u8>) -> nat
    recommends
        all_dec_digits(s),
    decreases s.len(),
{
    if s.len() == 0 {
        0
    } else {
        dec_val(s.drop_last()) * 10 + (s.last() - 48) as nat
    }
}

/// A longer digit string never denotes a smaller number.
proof fn lemma_dec_val_extend(s: Seq<u8>, i: int)
    requires
        0 <= i <= s.len(),
    ensures
        dec_val(s) >= dec_val(s.take(i)),
    decreases s.len() - i,
{
    if i == s.len() {
        assert(s.take(i) =~= s);
    } else {
        assert(s.take(i + 1).drop_last() =~= s.take(i));
        assert(dec_val(s.take(i + 1)) == dec_val(s.take(i)) * 10 + (s.take(i + 1).last()
            - 48) as nat);
        lemma_dec_val_extend(s, i + 1);
    }
}

/// Parses an unsigned 64-bit decimal number: succeeds if and only if the
/// bytes are non-empty, all decimal digits, and denote a value that fits,
/// and then yields that value.
pub fn parse_dec_u64(bytes: &[u8]) -> (r: Result<u64, DecodeError>)
    ensures
        r is Ok <==> bytes@.len() > 0 && all_dec_digits(bytes@) && dec_val(bytes@) <= u64::MAX,
        r is Ok ==> r->Ok_0 as nat == dec_val(bytes@),
        r is Err ==> r == Err::<u64, DecodeError>(DecodeError::InvalidPoolId),
{
    if bytes.len() == 0 {
        return Err(DecodeError::InvalidPoolId);
    }
    let mut acc: u64 = 0;
    let mut k: usize = 0;
    while k < bytes.len()
        invariant
            k <= bytes@.len(),
            all_dec_digits(bytes@.take(k as int)),
            acc as nat == dec_val(bytes@.take(k as int)),
        decreases bytes@.len() - k,
    {
        let b = bytes[k];
        if b < 48 || b > 57 {
            proof {
                assert(!is_dec_digit(bytes@[k as int]));
            }
            return Err(DecodeError::InvalidPoolId);
        }
        let d = b - 48;
        let wide: u128 = (acc as u128) * 10 + (d as u128);
        proof {
            assert(bytes@.take(k as int + 1).drop_last() =~= bytes@.take(k as int));
            assert(bytes@.take(k as int + 1).last() == bytes@[k as int]);
            assert(dec_val(bytes@.take(k as int + 1)) == wide as nat);
        }
        if wide > u64::MAX as u128 {
            proof {
                lemma_dec_val_extend(bytes@, k as int + 1);
            }
            return Err(DecodeError::InvalidPoolId);
        }
        acc = wide as u64;
        proof {
            assert(all_dec_digits(bytes@.take(k as int + 1)));
        }
        k = k + 1;
    }
    proof {
        assert(bytes@.take(bytes@.len() as int) =~= bytes@);
    }
    Ok(acc)
}

/// The bytes of a pool-id field denote a usable pool id.
pub open spec fn pool_id_parses(s: Seq<u8>) -> bool {
    s.len() > 0 && all_dec_digits(s) && dec_val(s) <= u64::MAX
}

/// Builds the spot-price request for the fixed endpoint: the destination
/// path names the spot-price endpoint and the payload encodes exactly the
/// four given field values.
pub fn build_spot_price_request(
    pool_id: u64,
    token_in_denom: &str,
    token_out_denom: &str,
    with_swap_fee: bool,
) -> (r: StargateRequest)
    ensures
        r.path@ == spec_spot_price_path(),
        r.data@ == spec_enc_spot_price(
            pool_id,
            encode_utf8(token_in_denom@),
            encode_utf8(token_out_denom@),
            with_swap_fee,
        ),
{
    let path = spot_price_path();
    let data = encode_spot_price_payload(pool_id, token_in_denom, token_out_denom, with_swap_fee);
    StargateRequest { path, data }
}

/// Builds the engine request a read-only query asks for: the local shortcut
/// path reuses the builder adapter directly against the local query engine,
/// bypassing packet encoding entirely.
pub fn query(msg: &QueryMsg) -> (r: StargateRequest)
    ensures
        *msg matches QueryMsg::QueryStargateTwap {
            pool_id,
            token_in_denom,
            token_out_denom,
            with_swap_fee,
        } ==> r.path@ == spec_spot_price_path() && r.data@ == spec_enc_spot_price(
            pool_id,
            encode_utf8(token_in_denom@),
            encode_utf8(token_out_denom@),
            with_swap_fee,
        ),
{
    match msg {
        QueryMsg::QueryStargateTwap { pool_id, token_in_denom, token_out_denom, with_swap_fee } => {
            build_spot_price_request(
                *pool_id,
                token_in_denom.as_str(),
                token_out_denom.as_str(),
                *with_swap_fee,
            )
        },
    }
}

/// Re-encodes a human-level price query that arrived inside a packet: parses
/// the decimal pool id — a non-numeric pool id rejects the whole request —
/// and builds the binary spot-price request, without the swap fee, as the
/// receive path always does.
pub fn twap_request_to_descriptor(req: &IbcQueryRequestTwap) -> (r: Result<
    StargateRequest,
    DecodeError,
>)
    ensures
        r is Ok <==> pool_id_parses(encode_utf8(req.pool_id@)),
        r is Err ==> r == Err::<StargateRequest, DecodeError>(DecodeError::InvalidPoolId),
        r is Ok ==> r->Ok_0.path@ == spec_spot_price_path() && r->Ok_0.data@
            == spec_enc_spot_price(
            (dec_val(encode_utf8(req.pool_id@)) as u64),
            encode_utf8(req.base_denom@),
            encode_utf8(req.quote_denom@),
            false,
        ),
{
    let pool_id = parse_dec_u64(req.pool_id.as_str().as_bytes())?;
    Ok(
        build_spot_price_request(
            pool_id,
            req.base_denom.as_str(),
            req.quote_denom.as_str(),
            false,
        ),
    )
}

} // verus!
