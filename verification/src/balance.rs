//! Magnitude-and-sign encoding of the signed value balance.
//!
//! The balance is published as two independent facts: its unsigned magnitude
//! as eight little-endian bytes, and a single sign byte (1 when negative,
//! 0 otherwise). The most negative representable balance has no magnitude of
//! its own width and is rejected at construction time.

use vstd::prelude::*;

verus! {

/// The unsigned magnitude of a balance other than `i64::MIN`.
pub open spec fn balance_magnitude(v: i64) -> u64
    recommends
        v != i64::MIN,
{
    if v < 0 {
        (-(v as int)) as u64
    } else {
        v as u64
    }
}

/// The sign byte of a balance: 1 when negative, 0 otherwise.
pub open spec fn sign_byte(v: i64) -> u8 {
    if v < 0 {
        1
    } else {
        0
    }
}

/// The eight little-endian bytes of a 64-bit word.
pub open spec fn u64_le_bytes(m: u64) -> Seq<u8> {
    seq![
        (m & 0xff) as u8,
        ((m >> 8) & 0xff) as u8,
        ((m >> 16) & 0xff) as u8,
        ((m >> 24) & 0xff) as u8,
        ((m >> 32) & 0xff) as u8,
        ((m >> 40) & 0xff) as u8,
        ((m >> 48) & 0xff) as u8,
        ((m >> 56) & 0xff) as u8,
    ]
}

/// The 64-bit word read from eight little-endian bytes.
pub open spec fn u64_from_le_bytes(s: Seq<u8>) -> u64
    recommends
        s.len() == 8,
{
    (s[0] as u64)
        | ((s[1] as u64) << 8)
        | ((s[2] as u64) << 16)
        | ((s[3] as u64) << 24)
        | ((s[4] as u64) << 32)
        | ((s[5] as u64) << 40)
        | ((s[6] as u64) << 48)
        | ((s[7] as u64) << 56)
}

/// The balance named by a magnitude image and a sign byte.
pub open spec fn decoded_balance(magnitude: Seq<u8>, sign: u8) -> int
    recommends
        magnitude.len() == 8,
{
    if sign == 1 {
        -(u64_from_le_bytes(magnitude) as int)
    } else {
        u64_from_le_bytes(magnitude) as int
    }
}

/// Reading back the little-endian bytes of a word gives the word.
pub proof fn lemma_u64_le_bytes_roundtrip(m: u64)
    ensures
        u64_from_le_bytes(u64_le_bytes(m)) == m,
{
    assert(((m & 0xff) as u8 as u64)
        | ((((m >> 8) & 0xff) as u8 as u64) << 8)
        | ((((m >> 16) & 0xff) as u8 as u64) << 16)
        | ((((m >> 24) & 0xff) as u8 as u64) << 24)
        | ((((m >> 32) & 0xff) as u8 as u64) << 32)
        | ((((m >> 40) & 0xff) as u8 as u64) << 40)
        | ((((m >> 48) & 0xff) as u8 as u64) << 48)
        | ((((m >> 56) & 0xff) as u8 as u64) << 56) == m) by (bit_vector);
}

/// Magnitude-and-sign encoding recovers every balance it accepts.
pub proof fn lemma_balance_roundtrip(v: i64)
    requires
        v != i64::MIN,
    ensures
        decoded_balance(u64_le_bytes(balance_magnitude(v)), sign_byte(v)) == v as int,
{
    lemma_u64_le_bytes_roundtrip(balance_magnitude(v));
}

/// The eight little-endian bytes of a word.
pub fn u64_to_le_bytes_vec(m: u64) -> (r: Vec<u8>)
    ensures
        r@ == u64_le_bytes(m),
{
    let mut r: Vec<u8> = Vec::new();
    r.push((m & 0xff) as u8);
    r.push(((m >> 8) & 0xff) as u8);
    r.push(((m >> 16) & 0xff) as u8);
    r.push(((m >> 24) & 0xff) as u8);
    r.push(((m >> 32) & 0xff) as u8);
    r.push(((m >> 40) & 0xff) as u8);
    r.push(((m >> 48) & 0xff) as u8);
    r.push(((m >> 56) & 0xff) as u8);
    proof {
        assert(r@ =~= u64_le_bytes(m));
    }
    r
}

/// Encodes a balance as its magnitude image and sign byte.
pub fn encode_value_balance(v: i64) -> (r: (Vec<u8>, u8))
    requires
        v != i64::MIN,
    ensures
        r.0@ == u64_le_bytes(balance_magnitude(v)),
        r.1 == sign_byte(v),
{
    let m: u64 = if v < 0 {
        (-v) as u64
    } else {
        v as u64
    };
    assert(m == balance_magnitude(v));
    let magnitude = u64_to_le_bytes_vec(m);
    let sign: u8 = if v < 0 {
        1
    } else {
        0
    };
    (magnitude, sign)
}

/// Reads a balance back from its magnitude image and sign byte.
pub fn decode_value_balance(magnitude: &Vec<u8>, sign: u8) -> (r: i64)
    requires
        magnitude@.len() == 8,
        sign == 0 || sign == 1,
        u64_from_le_bytes(magnitude@) <= i64::MAX as u64,
    ensures
        r as int == decoded_balance(magnitude@, sign),
{
    let m: u64 = (magnitude[0] as u64)
        | ((magnitude[1] as u64) << 8)
        | ((magnitude[2] as u64) << 16)
        | ((magnitude[3] as u64) << 24)
        | ((magnitude[4] as u64) << 32)
        | ((magnitude[5] as u64) << 40)
        | ((magnitude[6] as u64) << 48)
        | ((magnitude[7] as u64) << 56);
    assert(m == u64_from_le_bytes(magnitude@));
    if sign == 1 {
        -(m as i64)
    } else {
        m as i64
    }
}

} // verus!
