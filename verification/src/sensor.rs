//! Decoding of raw sensor notification bytes into signed rotation samples.
//!
//! The sensor reports each rotation-rate sample since the previous event as
//! a single byte in a signed-magnitude-like encoding: values below 128 stand
//! for themselves, larger values `v` stand for `-(255 - v)`, and 128 — the
//! minus zero of the encoding — is the at-rest sentinel and decodes to 0.
//! Every decoded sample therefore lies in `[-126, 127]`, within the
//! `[-127, 127]` range of the data model, and fits an `i8`.

use vstd::prelude::*;

verus! {

/// The decoded value of one raw sensor byte.
pub open spec fn decode_spec(v: u8) -> int {
    if v < 128 {
        v as int
    } else if v == 128 {
        0
    } else {
        -(255 - v as int)
    }
}

/// Decode one raw notification byte into a signed rotation sample.
///
/// Total over all 256 byte values; the result always lies in `[-126, 127]`.
/// Byte 128 decodes to 0, a sensor at rest, not to the two's-complement
/// minimum.
pub fn decode(v: u8) -> (d: i8)
    ensures
        d as int == decode_spec(v),
        -126 <= d as int <= 127,
{
    if v < 128 {
        v as i8
    } else if v == 128 {
        0
    } else {
        -((255 - v) as i8)
    }
}

/// The byte a notification payload carries: its first byte, or zero for an
/// empty payload — a sensor at rest.
pub fn payload_byte(payload: &Vec<u8>) -> (b: u8)
    ensures
        b == if payload@.len() == 0 {
            0u8
        } else {
            payload@[0]
        },
{
    if payload.len() == 0 {
        0
    } else {
        payload[0]
    }
}

/// The decode rule, case by case: a byte below 128 stands for itself, 128 —
/// the minus zero of the signed-magnitude encoding — stands for a sensor at
/// rest, and any larger byte `v` stands for `-(255 - v)`. The encoding is
/// defined for every byte value, and every decoded sample lies within the
/// data model's `[-127, 127]`.
pub proof fn lemma_decode_cases(v: u8)
    ensures
        v < 128 ==> decode_spec(v) == v as int,
        v == 128 ==> decode_spec(v) == 0,
        v > 128 ==> decode_spec(v) == -(255 - v as int),
        -127 <= decode_spec(v) <= 127,
{
}

} // verus!
