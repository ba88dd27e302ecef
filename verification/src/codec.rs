//! Byte layout of the upgradeable loader's two account shapes.
//!
//! A *Program* account payload is a fixed-size record: a four-byte
//! little-endian tag followed by the address of the associated ProgramData
//! account. A *ProgramData* account payload is a fixed-size header (tag,
//! deployment slot, optional upgrade authority) followed by the raw program
//! bytes. Decoding is the exact inverse of encoding; anything else is a
//! `MalformedLayout` error.

use vstd::prelude::*;

use crate::errors::LedgerError;

verus! {

/// Record tag of a Program account payload.
pub const PROGRAM_TAG: u32 = 2;

/// Record tag of a ProgramData account payload.
pub const PROGRAM_DATA_TAG: u32 = 3;

/// Size in bytes of an encoded Program record: tag plus data address.
pub const PROGRAM_RECORD_SIZE: usize = 12;

/// Size in bytes of the ProgramData header: tag, deployment slot, and the
/// authority option (a one-byte presence flag plus the authority address).
pub const PROGRAM_DATA_HEADER_SIZE: usize = 21;

/// The little-endian bytes of a 32-bit value.
pub open spec fn le_bytes_4(x: u32) -> Seq<u8> {
    seq![
        (x & 0xff) as u8,
        ((x >> 8) & 0xff) as u8,
        ((x >> 16) & 0xff) as u8,
        ((x >> 24) & 0xff) as u8,
    ]
}

/// The little-endian bytes of a 64-bit value.
pub open spec fn le_bytes_8(x: u64) -> Seq<u8> {
    seq![
        (x & 0xff) as u8,
        ((x >> 8) & 0xff) as u8,
        ((x >> 16) & 0xff) as u8,
        ((x >> 24) & 0xff) as u8,
        ((x >> 32) & 0xff) as u8,
        ((x >> 40) & 0xff) as u8,
        ((x >> 48) & 0xff) as u8,
        ((x >> 56) & 0xff) as u8,
    ]
}

/// The 64-bit value whose little-endian bytes are the first eight elements
/// of `s`.
pub open spec fn u64_of_le(s: Seq<u8>) -> u64
    recommends
        s.len() >= 8,
{
    (s[0] as u64) | ((s[1] as u64) << 8) | ((s[2] as u64) << 16) | ((s[3] as u64) << 24) | ((
    s[4] as u64) << 32) | ((s[5] as u64) << 40) | ((s[6] as u64) << 48) | ((s[7] as u64) << 56)
}

/// Reassembling the little-endian bytes of `x` gives back `x`.
pub proof fn lemma_le_bytes_8_roundtrip(x: u64)
    ensures
        u64_of_le(le_bytes_8(x)) == x,
{
    assert(((x & 0xff) as u8 as u64) | ((((x >> 8) & 0xff) as u8 as u64) << 8) | ((((x >> 16)
        & 0xff) as u8 as u64) << 16) | ((((x >> 24) & 0xff) as u8 as u64) << 24) | ((((x >> 32)
        & 0xff) as u8 as u64) << 32) | ((((x >> 40) & 0xff) as u8 as u64) << 40) | ((((x >> 48)
        & 0xff) as u8 as u64) << 48) | ((((x >> 56) & 0xff) as u8 as u64) << 56) == x)
        by (bit_vector);
}

/// Splitting a 64-bit value back into bytes gives the bytes one started from.
pub proof fn lemma_u64_of_le_roundtrip(s: Seq<u8>)
    requires
        s.len() == 8,
    ensures
        le_bytes_8(u64_of_le(s)) == s,
{
    let x = u64_of_le(s);
    let b0 = s[0];
    let b1 = s[1];
    let b2 = s[2];
    let b3 = s[3];
    let b4 = s[4];
    let b5 = s[5];
    let b6 = s[6];
    let b7 = s[7];
    assert({
        let y = (b0 as u64) | ((b1 as u64) << 8) | ((b2 as u64) << 16) | ((b3 as u64) << 24) | ((
        b4 as u64) << 32) | ((b5 as u64) << 40) | ((b6 as u64) << 48) | ((b7 as u64) << 56);
        (y & 0xff) as u8 == b0 && ((y >> 8) & 0xff) as u8 == b1 && ((y >> 16) & 0xff) as u8 == b2
            && ((y >> 24) & 0xff) as u8 == b3 && ((y >> 32) & 0xff) as u8 == b4 && ((y >> 40)
            & 0xff) as u8 == b5 && ((y >> 48) & 0xff) as u8 == b6 && ((y >> 56) & 0xff) as u8 == b7
    }) by (bit_vector);
    assert(le_bytes_8(x) =~= s);
}

/// Pushes the little-endian bytes of `x` onto `out`.
pub fn push_u64_le(out: &mut Vec<u8>, x: u64)
    ensures
        final(out)@ == old(out)@ + le_bytes_8(x),
{
    out.push((x & 0xff) as u8);
    out.push(((x >> 8) & 0xff) as u8);
    out.push(((x >> 16) & 0xff) as u8);
    out.push(((x >> 24) & 0xff) as u8);
    out.push(((x >> 32) & 0xff) as u8);
    out.push(((x >> 40) & 0xff) as u8);
    out.push(((x >> 48) & 0xff) as u8);
    out.push(((x >> 56) & 0xff) as u8);
    assert(out@ =~= old(out)@ + le_bytes_8(x));
}

/// Pushes the little-endian bytes of `x` onto `out`.
pub fn push_u32_le(out: &mut Vec<u8>, x: u32)
    ensures
        final(out)@ == old(out)@ + le_bytes_4(x),
{
    out.push((x & 0xff) as u8);
    out.push(((x >> 8) & 0xff) as u8);
    out.push(((x >> 16) & 0xff) as u8);
    out.push(((x >> 24) & 0xff) as u8);
    assert(out@ =~= old(out)@ + le_bytes_4(x));
}

/// The 32-bit value whose little-endian bytes are the first four elements
/// of `s`.
pub open spec fn u32_of_le(s: Seq<u8>) -> u32
    recommends
        s.len() >= 4,
{
    (s[0] as u32) | ((s[1] as u32) << 8) | ((s[2] as u32) << 16) | ((s[3] as u32) << 24)
}

/// Reassembling the little-endian bytes of `x` gives back `x`.
pub proof fn lemma_le_bytes_4_roundtrip(x: u32)
    ensures
        u32_of_le(le_bytes_4(x)) == x,
{
    assert(((x & 0xff) as u8 as u32) | ((((x >> 8) & 0xff) as u8 as u32) << 8) | ((((x >> 16)
        & 0xff) as u8 as u32) << 16) | ((((x >> 24) & 0xff) as u8 as u32) << 24) == x)
        by (bit_vector);
}

/// Splitting a 32-bit value back into bytes gives the bytes one started from.
pub proof fn lemma_u32_of_le_roundtrip(s: Seq<u8>)
    requires
        s.len() == 4,
    ensures
        le_bytes_4(u32_of_le(s)) == s,
{
    let b0 = s[0];
    let b1 = s[1];
    let b2 = s[2];
    let b3 = s[3];
    assert({
        let y = (b0 as u32) | ((b1 as u32) << 8) | ((b2 as u32) << 16) | ((b3 as u32) << 24);
        (y & 0xff) as u8 == b0 && ((y >> 8) & 0xff) as u8 == b1 && ((y >> 16) & 0xff) as u8 == b2
            && ((y >> 24) & 0xff) as u8 == b3
    }) by (bit_vector);
    assert(le_bytes_4(u32_of_le(s)) =~= s);
}

/// Reads the 64-bit little-endian value at `off`.
pub fn read_u64_le(bytes: &Vec<u8>, off: usize) -> (r: u64)
    requires
        off + 8 <= bytes@.len(),
    ensures
        r == u64_of_le(bytes@.subrange(off as int, off + 8)),
{
    let n: usize = bytes.len();
    assert(off + 8 <= n);
    let r = (bytes[off] as u64) | ((bytes[off + 1] as u64) << 8) | ((bytes[off + 2] as u64) << 16)
        | ((bytes[off + 3] as u64) << 24) | ((bytes[off + 4] as u64) << 32) | ((bytes[off
        + 5] as u64) << 40) | ((bytes[off + 6] as u64) << 48) | ((bytes[off + 7] as u64) << 56);
    assert(bytes@.subrange(off as int, off + 8)[0] == bytes@[off as int]);
    r
}

/// Reads the 32-bit little-endian value at `off`.
pub fn read_u32_le(bytes: &Vec<u8>, off: usize) -> (r: u32)
    requires
        off + 4 <= bytes@.len(),
    ensures
        r == u32_of_le(bytes@.subrange(off as int, off + 4)),
{
    let n: usize = bytes.len();
    assert(off + 4 <= n);
    let r = (bytes[off] as u32) | ((bytes[off + 1] as u32) << 8) | ((bytes[off + 2] as u32) << 16)
        | ((bytes[off + 3] as u32) << 24);
    assert(bytes@.subrange(off as int, off + 4)[0] == bytes@[off as int]);
    r
}

/// The encoded payload of a Program account: the record tag followed by the
/// address of the associated ProgramData account.
pub open spec fn program_record_bytes(data_address: u64) -> Seq<u8> {
    le_bytes_4(PROGRAM_TAG) + le_bytes_8(data_address)
}

/// The header of a ProgramData account payload: the record tag, the
/// deployment slot, and the optional upgrade authority (absence is a zero
/// flag byte followed by eight zero bytes).
pub open spec fn program_data_header_bytes(deployment_slot: u64, upgrade_authority: Option<u64>) -> Seq<u8> {
    le_bytes_4(PROGRAM_DATA_TAG) + le_bytes_8(deployment_slot) + (match upgrade_authority {
        Option::None => seq![0u8] + le_bytes_8(0),
        Option::Some(a) => seq![1u8] + le_bytes_8(a),
    })
}

/// The full payload of a ProgramData account: the header followed by the raw
/// program bytes, unmodified.
pub open spec fn program_data_bytes(
    deployment_slot: u64,
    upgrade_authority: Option<u64>,
    program: Seq<u8>,
) -> Seq<u8> {
    program_data_header_bytes(deployment_slot, upgrade_authority) + program
}

/// What decoding a Program account payload yields: the data address if the
/// payload is exactly an encoded Program record, a `MalformedLayout` error
/// otherwise.
pub open spec fn spec_decode_program(b: Seq<u8>) -> Result<u64, LedgerError> {
    if b.len() == PROGRAM_RECORD_SIZE && b.subrange(0, 4) == le_bytes_4(PROGRAM_TAG) {
        Result::Ok(u64_of_le(b.subrange(4, 12)))
    } else {
        Result::Err(LedgerError::MalformedLayout)
    }
}

/// What decoding a ProgramData account payload yields: the deployment slot,
/// the optional upgrade authority and the raw program bytes, if the payload
/// starts with a well-formed header; a `MalformedLayout` error otherwise.
pub open spec fn spec_decode_program_data(b: Seq<u8>) -> Result<(u64, Option<u64>, Seq<u8>), LedgerError> {
    if b.len() >= PROGRAM_DATA_HEADER_SIZE && b.subrange(0, 4) == le_bytes_4(PROGRAM_DATA_TAG) && (
    b[12] == 0 && b.subrange(13, 21) == le_bytes_8(0) || b[12] == 1) {
        Result::Ok(
            (
                u64_of_le(b.subrange(4, 12)),
                if b[12] == 0 {
                    Option::None
                } else {
                    Option::Some(u64_of_le(b.subrange(13, 21)))
                },
                b.subrange(PROGRAM_DATA_HEADER_SIZE as int, b.len() as int),
            ),
        )
    } else {
        Result::Err(LedgerError::MalformedLayout)
    }
}

/// Encodes the fixed-size Program record that points at `data_address`.
pub fn encode_program(data_address: u64) -> (r: Vec<u8>)
    ensures
        r@ == program_record_bytes(data_address),
        r@.len() == PROGRAM_RECORD_SIZE,
{
    let mut out: Vec<u8> = Vec::new();
    push_u32_le(&mut out, PROGRAM_TAG);
    push_u64_le(&mut out, data_address);
    proof {
        assert(out@ =~= program_record_bytes(data_address));
    }
    out
}

/// Encodes a ProgramData payload: the header for `deployment_slot` and
/// `upgrade_authority`, followed by `program` unmodified.
pub fn encode_program_data(
    deployment_slot: u64,
    upgrade_authority: Option<u64>,
    program: &Vec<u8>,
) -> (r: Vec<u8>)
    ensures
        r@ == program_data_bytes(deployment_slot, upgrade_authority, program@),
        r@.len() == PROGRAM_DATA_HEADER_SIZE + program@.len(),
{
    let mut out: Vec<u8> = Vec::new();
    push_u32_le(&mut out, PROGRAM_DATA_TAG);
    push_u64_le(&mut out, deployment_slot);
    match upgrade_authority {
        Option::None => {
            out.push(0u8);
            push_u64_le(&mut out, 0);
        },
        Option::Some(a) => {
            out.push(1u8);
            push_u64_le(&mut out, a);
        },
    }
    proof {
        assert(out@ =~= program_data_header_bytes(deployment_slot, upgrade_authority));
    }
    let mut i: usize = 0;
    while i < program.len()
        invariant
            i <= program@.len(),
            out@ == program_data_header_bytes(deployment_slot, upgrade_authority)
                + program@.subrange(0, i as int),
        decreases program@.len() - i,
    {
        out.push(program[i]);
        i = i + 1;
        proof {
            assert(out@ =~= program_data_header_bytes(deployment_slot, upgrade_authority)
                + program@.subrange(0, i as int));
        }
    }
    proof {
        assert(program@.subrange(0, program@.len() as int) =~= program@);
    }
    out
}

/// Decodes a Program account payload back into the data address it points
/// at; exactly the non-record payloads are rejected as `MalformedLayout`.
pub fn decode_program(payload: &Vec<u8>) -> (r: Result<u64, LedgerError>)
    ensures
        r == spec_decode_program(payload@),
{
    if payload.len() != PROGRAM_RECORD_SIZE {
        return Result::Err(LedgerError::MalformedLayout);
    }
    let tag = read_u32_le(payload, 0);
    proof {
        lemma_le_bytes_4_roundtrip(PROGRAM_TAG);
        lemma_u32_of_le_roundtrip(payload@.subrange(0, 4));
    }
    if tag != PROGRAM_TAG {
        return Result::Err(LedgerError::MalformedLayout);
    }
    Result::Ok(read_u64_le(payload, 4))
}

/// A Program record decodes back to the address it was encoded from.
pub proof fn lemma_program_record_roundtrip(data_address: u64)
    ensures
        spec_decode_program(program_record_bytes(data_address)) == Result::<
            u64,
            LedgerError,
        >::Ok(data_address),
{
    let b = program_record_bytes(data_address);
    assert(b.subrange(0, 4) =~= le_bytes_4(PROGRAM_TAG));
    assert(b.subrange(4, 12) =~= le_bytes_8(data_address));
    lemma_le_bytes_8_roundtrip(data_address);
}

/// A payload that decodes as a Program record is byte-for-byte the encoding
/// of the decoded address: decoding is the inverse of encoding.
pub proof fn lemma_program_record_exact(b: Seq<u8>, data_address: u64)
    requires
        spec_decode_program(b) == Result::<u64, LedgerError>::Ok(data_address),
    ensures
        b == program_record_bytes(data_address),
{
    lemma_u64_of_le_roundtrip(b.subrange(4, 12));
    assert(b =~= b.subrange(0, 4) + b.subrange(4, 12));
}

/// Decodes a ProgramData account payload back into its deployment slot,
/// upgrade authority, and raw program bytes; a payload whose header has the
/// wrong length, tag, or authority flag is rejected as `MalformedLayout`.
pub fn decode_program_data(payload: &Vec<u8>) -> (r: Result<
    (u64, Option<u64>, Vec<u8>),
    LedgerError,
>)
    ensures
        match r {
            Result::Ok((slot, authority, program)) => spec_decode_program_data(payload@)
                == Result::<(u64, Option<u64>, Seq<u8>), LedgerError>::Ok(
                (slot, authority, program@),
            ),
            Result::Err(e) => spec_decode_program_data(payload@) == Result::<
                (u64, Option<u64>, Seq<u8>),
                LedgerError,
            >::Err(e),
        },
{
    let n: usize = payload.len();
    if n < PROGRAM_DATA_HEADER_SIZE {
        return Result::Err(LedgerError::MalformedLayout);
    }
    let tag = read_u32_le(payload, 0);
    proof {
        lemma_le_bytes_4_roundtrip(PROGRAM_DATA_TAG);
        lemma_u32_of_le_roundtrip(payload@.subrange(0, 4));
    }
    if tag != PROGRAM_DATA_TAG {
        return Result::Err(LedgerError::MalformedLayout);
    }
    let slot = read_u64_le(payload, 4);
    let flag = payload[12];
    let auth_word = read_u64_le(payload, 13);
    proof {
        lemma_le_bytes_8_roundtrip(0u64);
        lemma_u64_of_le_roundtrip(payload@.subrange(13, 21));
    }
    let authority: Option<u64> = if flag == 0 {
        if auth_word != 0 {
            return Result::Err(LedgerError::MalformedLayout);
        }
        Option::None
    } else if flag == 1 {
        Option::Some(auth_word)
    } else {
        return Result::Err(LedgerError::MalformedLayout);
    };
    let mut program: Vec<u8> = Vec::new();
    let mut i: usize = PROGRAM_DATA_HEADER_SIZE;
    while i < n
        invariant
            PROGRAM_DATA_HEADER_SIZE <= i <= n,
            n == payload@.len(),
            program@ == payload@.subrange(PROGRAM_DATA_HEADER_SIZE as int, i as int),
        decreases n - i,
    {
        program.push(payload[i]);
        i = i + 1;
        proof {
            assert(program@ =~= payload@.subrange(PROGRAM_DATA_HEADER_SIZE as int, i as int));
        }
    }
    Result::Ok((slot, authority, program))
}

/// A ProgramData payload decodes back to the slot, authority, and program
/// bytes it was encoded from.
pub proof fn lemma_program_data_roundtrip(slot: u64, authority: Option<u64>, program: Seq<u8>)
    ensures
        spec_decode_program_data(program_data_bytes(slot, authority, program)) == Result::<
            (u64, Option<u64>, Seq<u8>),
            LedgerError,
        >::Ok((slot, authority, program)),
{
    let b = program_data_bytes(slot, authority, program);
    assert(b.subrange(0, 4) =~= le_bytes_4(PROGRAM_DATA_TAG));
    assert(b.subrange(4, 12) =~= le_bytes_8(slot));
    lemma_le_bytes_8_roundtrip(slot);
    match authority {
        Option::None => {
            assert(b[12] == 0);
            assert(b.subrange(13, 21) =~= le_bytes_8(0));
        },
        Option::Some(a) => {
            assert(b[12] == 1);
            assert(b.subrange(13, 21) =~= le_bytes_8(a));
            lemma_le_bytes_8_roundtrip(a);
        },
    }
    assert(b.subrange(PROGRAM_DATA_HEADER_SIZE as int, b.len() as int) =~= program);
}

/// A payload that decodes as a ProgramData record is byte-for-byte the
/// encoding of what it decodes to: decoding is the inverse of encoding.
pub proof fn lemma_program_data_exact(
    b: Seq<u8>,
    slot: u64,
    authority: Option<u64>,
    program: Seq<u8>,
)
    requires
        spec_decode_program_data(b) == Result::<(u64, Option<u64>, Seq<u8>), LedgerError>::Ok(
            (slot, authority, program),
        ),
    ensures
        b == program_data_bytes(slot, authority, program),
{
    lemma_u64_of_le_roundtrip(b.subrange(4, 12));
    lemma_u64_of_le_roundtrip(b.subrange(13, 21));
    lemma_le_bytes_8_roundtrip(0u64);
    assert(b.subrange(12, 13) =~= seq![b[12]]);
    assert(b =~= b.subrange(0, 4) + b.subrange(4, 12) + b.subrange(12, 13) + b.subrange(13, 21)
        + b.subrange(PROGRAM_DATA_HEADER_SIZE as int, b.len() as int));
}

} // verus!
