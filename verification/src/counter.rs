//! The moving factor: which time window a moment falls in, and the eight
//! bytes that stand for the window's number in the message to be signed.

use vstd::arithmetic::div_mod::lemma_fundamental_div_mod_converse;
use vstd::prelude::*;

verus! {

/// The number of the window of `timestep` seconds that `time` falls in,
/// counted from the Unix epoch: the quotient of `time` by `timestep`,
/// rounded down.
pub open spec fn window_counter(time: u64, timestep: u64) -> u64
    recommends
        timestep > 0,
{
    time / timestep
}

/// The eight bytes of `value`, most significant first.
pub open spec fn be_bytes(value: u64) -> Seq<u8> {
    seq![
        ((value / 0x100_0000_0000_0000) % 0x100) as u8,
        ((value / 0x1_0000_0000_0000) % 0x100) as u8,
        ((value / 0x100_0000_0000) % 0x100) as u8,
        ((value / 0x1_0000_0000) % 0x100) as u8,
        ((value / 0x100_0000) % 0x100) as u8,
        ((value / 0x1_0000) % 0x100) as u8,
        ((value / 0x100) % 0x100) as u8,
        (value % 0x100) as u8,
    ]
}

/// The number that eight bytes stand for when read as base-256 digits, most
/// significant first.
pub open spec fn be_value(bytes: Seq<u8>) -> nat
    recommends
        bytes.len() == 8,
{
    (bytes[0] * 0x100_0000_0000_0000
        + bytes[1] * 0x1_0000_0000_0000
        + bytes[2] * 0x100_0000_0000
        + bytes[3] * 0x1_0000_0000
        + bytes[4] * 0x100_0000
        + bytes[5] * 0x1_0000
        + bytes[6] * 0x100
        + bytes[7]) as nat
}

/// Reading the big-endian bytes of a number gives the number back.
pub proof fn lemma_be_bytes_round_trip(value: u64)
    ensures
        be_bytes(value).len() == 8,
        be_value(be_bytes(value)) == value,
{
    assert(value == ((value / 0x100_0000_0000_0000) % 0x100) * 0x100_0000_0000_0000
        + ((value / 0x1_0000_0000_0000) % 0x100) * 0x1_0000_0000_0000
        + ((value / 0x100_0000_0000) % 0x100) * 0x100_0000_0000
        + ((value / 0x1_0000_0000) % 0x100) * 0x1_0000_0000
        + ((value / 0x100_0000) % 0x100) * 0x100_0000
        + ((value / 0x1_0000) % 0x100) * 0x1_0000
        + ((value / 0x100) % 0x100) * 0x100
        + value % 0x100) by (bit_vector);
}

/// Different numbers have different big-endian bytes.
pub proof fn lemma_be_bytes_injective(a: u64, b: u64)
    requires
        be_bytes(a) == be_bytes(b),
    ensures
        a == b,
{
    lemma_be_bytes_round_trip(a);
    lemma_be_bytes_round_trip(b);
}

/// The window of a moment starts at or before the moment and ends after it:
/// window `k` runs from `k * timestep` up to, but not including,
/// `(k + 1) * timestep`.
pub proof fn lemma_window_bounds(time: u64, timestep: u64)
    requires
        timestep > 0,
    ensures
        window_counter(time, timestep) * timestep <= time,
        time < (window_counter(time, timestep) + 1) * timestep,
{
    assert(timestep * (time / timestep) <= time < timestep * (time / timestep) + timestep)
        by (nonlinear_arith)
        requires
            timestep > 0,
    ;
    assert((time / timestep + 1) * timestep == timestep * (time / timestep) + timestep)
        by (nonlinear_arith);
    assert((time / timestep) * timestep == timestep * (time / timestep)) by (nonlinear_arith);
}

/// A moment from the `k`-th multiple of `timestep` up to, but not including,
/// the next one lies in window `k`.
pub proof fn lemma_window_of_interval(time: u64, timestep: u64, k: nat)
    requires
        timestep > 0,
        k * timestep <= time < (k + 1) * timestep,
    ensures
        window_counter(time, timestep) == k,
{
    assert((k + 1) * timestep == k * timestep + timestep) by (nonlinear_arith);
    assert(k * timestep == timestep * k) by (nonlinear_arith);
    lemma_fundamental_div_mod_converse(
        time as int,
        timestep as int,
        k as int,
        time - k * timestep,
    );
}

/// Encodes a counter as the eight-byte message that is signed.
pub fn counter_message(value: u64) -> (bytes: Vec<u8>)
    ensures
        bytes@ == be_bytes(value),
{
    assert((value >> 56) & 0xff == (value / 0x100_0000_0000_0000) % 0x100) by (bit_vector);
    assert((value >> 48) & 0xff == (value / 0x1_0000_0000_0000) % 0x100) by (bit_vector);
    assert((value >> 40) & 0xff == (value / 0x100_0000_0000) % 0x100) by (bit_vector);
    assert((value >> 32) & 0xff == (value / 0x1_0000_0000) % 0x100) by (bit_vector);
    assert((value >> 24) & 0xff == (value / 0x100_0000) % 0x100) by (bit_vector);
    assert((value >> 16) & 0xff == (value / 0x1_0000) % 0x100) by (bit_vector);
    assert((value >> 8) & 0xff == (value / 0x100) % 0x100) by (bit_vector);
    assert(value & 0xff == value % 0x100) by (bit_vector);
    let mut bytes: Vec<u8> = Vec::new();
    bytes.push(((value >> 56) & 0xff) as u8);
    bytes.push(((value >> 48) & 0xff) as u8);
    bytes.push(((value >> 40) & 0xff) as u8);
    bytes.push(((value >> 32) & 0xff) as u8);
    bytes.push(((value >> 24) & 0xff) as u8);
    bytes.push(((value >> 16) & 0xff) as u8);
    bytes.push(((value >> 8) & 0xff) as u8);
    bytes.push((value & 0xff) as u8);
    bytes
}

} // verus!
