//! Numbers as bytes, least significant byte first.

use vstd::arithmetic::div_mod::lemma_div_denominator;
use vstd::prelude::*;

verus! {

/// The two bytes of a 16-bit number, least significant first.
pub open spec fn le_bytes_u16(x: u16) -> Seq<u8> {
    seq![(x % 0x100) as u8, (x / 0x100) as u8]
}

/// The eight bytes of a 64-bit number, least significant first.
pub open spec fn le_bytes_u64(x: u64) -> Seq<u8> {
    seq![
        (x % 0x100) as u8,
        (x / 0x100 % 0x100) as u8,
        (x / 0x1_0000 % 0x100) as u8,
        (x / 0x100_0000 % 0x100) as u8,
        (x / 0x1_0000_0000 % 0x100) as u8,
        (x / 0x100_0000_0000 % 0x100) as u8,
        (x / 0x1_0000_0000_0000 % 0x100) as u8,
        (x / 0x100_0000_0000_0000) as u8,
    ]
}

/// The eight bytes of a signed 64-bit number in two's complement, least
/// significant first.
pub open spec fn le_bytes_i64(x: i64) -> Seq<u8> {
    le_bytes_u64(
        if x >= 0 {
            x as u64
        } else {
            (x + 0x1_0000_0000_0000_0000) as u64
        },
    )
}

/// The number that eight bytes spell, least significant first.
pub open spec fn le_value(bytes: Seq<u8>) -> int {
    bytes[0] + 0x100 * bytes[1] + 0x1_0000 * bytes[2] + 0x100_0000 * bytes[3] + 0x1_0000_0000
        * bytes[4] + 0x100_0000_0000 * bytes[5] + 0x1_0000_0000_0000 * bytes[6]
        + 0x100_0000_0000_0000 * bytes[7]
}

/// The number that the eight bytes of `bytes` from place `start` on spell, least
/// significant byte first.
pub open spec fn window_spec(bytes: Seq<u8>, start: int) -> int {
    le_value(bytes.subrange(start, start + 8))
}

/// Reading the bytes of a number gives the number back.
pub proof fn lemma_le_round_trip(x: u64)
    ensures
        le_bytes_u64(x).len() == 8,
        le_value(le_bytes_u64(x)) == x,
{
    let q1 = x as int / 0x100;
    let q2 = q1 / 0x100;
    let q3 = q2 / 0x100;
    let q4 = q3 / 0x100;
    let q5 = q4 / 0x100;
    let q6 = q5 / 0x100;
    let q7 = q6 / 0x100;
    lemma_div_denominator(x as int, 0x100, 0x100);
    lemma_div_denominator(x as int, 0x1_0000, 0x100);
    lemma_div_denominator(x as int, 0x100_0000, 0x100);
    lemma_div_denominator(x as int, 0x1_0000_0000, 0x100);
    lemma_div_denominator(x as int, 0x100_0000_0000, 0x100);
    lemma_div_denominator(x as int, 0x1_0000_0000_0000, 0x100);
    assert(q2 == x as int / 0x1_0000);
    assert(q3 == x as int / 0x100_0000);
    assert(q4 == x as int / 0x1_0000_0000);
    assert(q5 == x as int / 0x100_0000_0000);
    assert(q6 == x as int / 0x1_0000_0000_0000);
    assert(q7 == x as int / 0x100_0000_0000_0000);
    assert(x == x % 0x100 + 0x100 * q1);
    assert(q1 == q1 % 0x100 + 0x100 * q2);
    assert(q2 == q2 % 0x100 + 0x100 * q3);
    assert(q3 == q3 % 0x100 + 0x100 * q4);
    assert(q4 == q4 % 0x100 + 0x100 * q5);
    assert(q5 == q5 % 0x100 + 0x100 * q6);
    assert(q6 == q6 % 0x100 + 0x100 * q7);
    assert(q7 < 0x100);
}

/// Writes a 16-bit number as two bytes, least significant first.
pub fn u16_le_bytes(x: u16) -> (bytes: Vec<u8>)
    ensures
        bytes@ == le_bytes_u16(x),
{
    let bytes = vec![(x % 0x100) as u8, (x / 0x100) as u8];
    assert(bytes@ =~= le_bytes_u16(x));
    bytes
}

/// Writes a 64-bit number as eight bytes, least significant first.
pub fn u64_le_bytes(x: u64) -> (bytes: Vec<u8>)
    ensures
        bytes@ == le_bytes_u64(x),
{
    let bytes = vec![
        (x % 0x100) as u8,
        (x / 0x100 % 0x100) as u8,
        (x / 0x1_0000 % 0x100) as u8,
        (x / 0x100_0000 % 0x100) as u8,
        (x / 0x1_0000_0000 % 0x100) as u8,
        (x / 0x100_0000_0000 % 0x100) as u8,
        (x / 0x1_0000_0000_0000 % 0x100) as u8,
        (x / 0x100_0000_0000_0000) as u8,
    ];
    assert(bytes@ =~= le_bytes_u64(x));
    bytes
}

/// Writes a signed 64-bit number as its eight bytes in two's complement, least
/// significant first.
pub fn i64_le_bytes(x: i64) -> (bytes: Vec<u8>)
    ensures
        bytes@ == le_bytes_i64(x),
{
    let unsigned: u64 = if x >= 0 {
        x as u64
    } else {
        ((x as i128) + 0x1_0000_0000_0000_0000) as u64
    };
    u64_le_bytes(unsigned)
}

/// Reads eight bytes of `bytes` from place `start` on as a number, least
/// significant byte first.
pub fn read_u64_le(bytes: &[u8; 32], start: usize) -> (value: u64)
    requires
        start <= 24,
    ensures
        value == window_spec(bytes@, start as int),
{
    let value: u64 = (bytes[start] as u64) + 0x100 * (bytes[start + 1] as u64) + 0x1_0000 * (
    bytes[start + 2] as u64) + 0x100_0000 * (bytes[start + 3] as u64) + 0x1_0000_0000 * (bytes[start
        + 4] as u64) + 0x100_0000_0000 * (bytes[start + 5] as u64) + 0x1_0000_0000_0000 * (
    bytes[start + 6] as u64) + 0x100_0000_0000_0000 * (bytes[start + 7] as u64);
    value
}

} // verus!
