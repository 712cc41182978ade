use vstd::prelude::*;

verus! {

/// Why a value could not be turned into bytes.
#[derive(Clone, Copy, Debug, PartialEq, Eq, Structural)]
pub enum EncodeError {
    /// The value has no encoding.
    Unsupported,
}

/// Why bytes could not be read as a value.
#[derive(Clone, Copy, Debug, PartialEq, Eq, Structural)]
pub enum DecodeError {
    /// The bytes end before the value does.
    UnexpectedEnd,
    /// The bytes start with a marker that no integer of the expected width has.
    InvalidInteger,
}

/// The first byte of an integer that is its own encoding is at most this.
pub const SINGLE_BYTE_MAX: u8 = 250;

/// The marker of an integer that follows in two bytes.
pub const U16_BYTE: u8 = 251;

/// The marker of an integer that follows in four bytes.
pub const U32_BYTE: u8 = 252;

/// The marker of an integer that follows in eight bytes.
pub const U64_BYTE: u8 = 253;

/// The number of values that `width` bytes can tell apart.
pub open spec fn limit(width: nat) -> nat
    decreases width,
{
    if width == 0 {
        1
    } else {
        256 * limit((width - 1) as nat)
    }
}

/// The `width` low bytes of `value`, the lowest first.
pub open spec fn le_bytes(value: nat, width: nat) -> Seq<u8>
    decreases width,
{
    if width == 0 {
        Seq::empty()
    } else {
        seq![(value % 256) as u8] + le_bytes(value / 256, (width - 1) as nat)
    }
}

/// The number that `bytes` spell, the lowest byte first.
pub open spec fn le_value(bytes: Seq<u8>) -> nat
    decreases bytes.len(),
{
    if bytes.len() == 0 {
        0
    } else {
        bytes[0] as nat + 256 * le_value(bytes.drop_first())
    }
}

/// The variable-length encoding of an unsigned integer: a small value is one
/// byte, a larger one is a marker byte and then the value in the narrowest of
/// two, four or eight bytes, the lowest byte first.
pub open spec fn varint_bytes(value: u64) -> Seq<u8> {
    if value <= SINGLE_BYTE_MAX {
        seq![value as u8]
    } else if value <= u16::MAX {
        seq![U16_BYTE] + le_bytes(value as nat, 2)
    } else if value <= u32::MAX {
        seq![U32_BYTE] + le_bytes(value as nat, 4)
    } else {
        seq![U64_BYTE] + le_bytes(value as nat, 8)
    }
}

/// The integer that `bytes` start with and the number of bytes it takes, or
/// why there is none. Bytes after the integer are not looked at, and a value
/// in a wider form than it needs is read all the same.
pub open spec fn varint_read(bytes: Seq<u8>) -> Result<(u64, usize), DecodeError> {
    if bytes.len() == 0 {
        Err(DecodeError::UnexpectedEnd)
    } else if bytes[0] <= SINGLE_BYTE_MAX {
        Ok((bytes[0] as u64, 1))
    } else if bytes[0] == U16_BYTE {
        if bytes.len() >= 3 {
            Ok((le_value(bytes.subrange(1, 3)) as u64, 3))
        } else {
            Err(DecodeError::UnexpectedEnd)
        }
    } else if bytes[0] == U32_BYTE {
        if bytes.len() >= 5 {
            Ok((le_value(bytes.subrange(1, 5)) as u64, 5))
        } else {
            Err(DecodeError::UnexpectedEnd)
        }
    } else if bytes[0] == U64_BYTE {
        if bytes.len() >= 9 {
            Ok((le_value(bytes.subrange(1, 9)) as u64, 9))
        } else {
            Err(DecodeError::UnexpectedEnd)
        }
    } else {
        Err(DecodeError::InvalidInteger)
    }
}

/// `le_bytes` gives as many bytes as it is asked for.
pub proof fn lemma_le_bytes_len(value: nat, width: nat)
    ensures
        le_bytes(value, width).len() == width,
    decreases width,
{
    if width > 0 {
        lemma_le_bytes_len(value / 256, (width - 1) as nat);
    }
}

/// A value below the limit of a width is spelt back by its bytes of that width.
pub proof fn lemma_le_round_trip(value: nat, width: nat)
    requires
        value < limit(width),
    ensures
        le_value(le_bytes(value, width)) == value,
    decreases width,
{
    if width > 0 {
        let rest = le_bytes(value / 256, (width - 1) as nat);
        let all = le_bytes(value, width);
        lemma_le_round_trip(value / 256, (width - 1) as nat);
        assert(all.drop_first() =~= rest);
    }
}

/// The limits of the widths that the encoding uses.
pub proof fn lemma_limits()
    ensures
        limit(1) == 0x100,
        limit(2) == 0x1_0000,
        limit(4) == 0x1_0000_0000,
        limit(8) == 0x1_0000_0000_0000_0000,
{
    reveal_with_fuel(limit, 9);
}

/// Reading the encoding of an integer gives the integer back and the length of
/// the encoding, whatever follows it.
pub proof fn lemma_varint_round_trip(value: u64, rest: Seq<u8>)
    ensures
        varint_read(varint_bytes(value) + rest) == Ok::<(u64, usize), DecodeError>(
            (value, varint_bytes(value).len() as usize),
        ),
        1 <= varint_bytes(value).len() <= 9,
{
    let own = varint_bytes(value);
    let all = own + rest;
    lemma_limits();
    if value <= SINGLE_BYTE_MAX {
    } else if value <= u16::MAX {
        lemma_le_bytes_len(value as nat, 2);
        lemma_le_round_trip(value as nat, 2);
        assert(all.subrange(1, 3) =~= le_bytes(value as nat, 2));
    } else if value <= u32::MAX {
        lemma_le_bytes_len(value as nat, 4);
        lemma_le_round_trip(value as nat, 4);
        assert(all.subrange(1, 5) =~= le_bytes(value as nat, 4));
    } else {
        lemma_le_bytes_len(value as nat, 8);
        lemma_le_round_trip(value as nat, 8);
        assert(all.subrange(1, 9) =~= le_bytes(value as nat, 8));
    }
}

/// Encodes an integer with `bincode::encode_to_vec` under bincode's standard
/// configuration (little endian, variable-length integers, no size limit).
/// The contract states the bytes that bincode writes for a `u64`, and that
/// writing into a fresh vector does not fail.
#[verifier::external_body]
pub(crate) fn encode_varint(value: u64) -> (res: Result<Vec<u8>, EncodeError>)
    ensures
        res is Ok,
        res.unwrap()@ == varint_bytes(value),
{
    match bincode::encode_to_vec(value, bincode::config::standard()) {
        Ok(bytes) => Ok(bytes),
        Err(_) => Err(EncodeError::Unsupported),
    }
}

/// Reads an integer with `bincode::decode_from_slice` under bincode's standard
/// configuration. The contract states which integer bincode reads from the
/// start of the bytes and how many bytes it takes, that it fails with
/// `UnexpectedEnd` where the bytes end too early, and with `InvalidIntegerType`
/// where the first byte is no marker of a `u64`.
#[verifier::external_body]
pub(crate) fn decode_varint(bytes: &[u8]) -> (res: Result<(u64, usize), DecodeError>)
    ensures
        res == varint_read(bytes@),
{
    match bincode::decode_from_slice::<u64, _>(bytes, bincode::config::standard()) {
        Ok(read) => Ok(read),
        Err(bincode::error::DecodeError::UnexpectedEnd { .. }) => Err(DecodeError::UnexpectedEnd),
        Err(_) => Err(DecodeError::InvalidInteger),
    }
}

/// Appends the four bytes of `value`, the lowest first.
pub fn put_u32_le(out: &mut Vec<u8>, value: u32)
    ensures
        final(out)@ == old(out)@ + le_bytes(value as nat, 4),
{
    let b0: u8 = (value % 256) as u8;
    let b1: u8 = (value / 256 % 256) as u8;
    let b2: u8 = (value / 65536 % 256) as u8;
    let b3: u8 = (value / 16777216 % 256) as u8;
    out.push(b0);
    out.push(b1);
    out.push(b2);
    out.push(b3);
    proof {
        reveal_with_fuel(le_bytes, 5);
        assert(out@ =~= old(out)@ + le_bytes(value as nat, 4));
    }
}

/// Reads the four bytes at `at` as a number, the lowest byte first.
pub fn get_u32_le(bytes: &[u8], at: usize) -> (value: u32)
    requires
        at + 4 <= bytes@.len(),
    ensures
        value == le_value(bytes@.subrange(at as int, at + 4)),
{
    let b0: u32 = bytes[at] as u32;
    let b1: u32 = bytes[at + 1] as u32;
    let b2: u32 = bytes[at + 2] as u32;
    let b3: u32 = bytes[at + 3] as u32;
    proof {
        let part = bytes@.subrange(at as int, at + 4);
        let second = part.drop_first();
        let third = second.drop_first();
        let fourth = third.drop_first();
        assert(fourth.drop_first().len() == 0);
        reveal_with_fuel(le_value, 5);
        assert(le_value(part) == b0 + 256 * (b1 + 256 * (b2 + 256 * (b3 + 256 * 0))));
    }
    b0 + 256 * b1 + 65536 * b2 + 16777216 * b3
}

} // verus!
