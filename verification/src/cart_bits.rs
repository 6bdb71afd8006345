//! Bits of bytes and addresses as numbers, for proofs about registers.
use vstd::prelude::*;

verus! {

/// The bits of a byte.
pub proof fn byte_bits(v: u8)
    by (bit_vector)
    ensures
        (v & 1 != 0) == (v % 2 == 1),
        (v & 1 == 0) == (v % 2 == 0),
        (v & 2 != 0) == (v / 2 % 2 == 1),
        (v & 4 != 0) == (v / 4 % 2 == 1),
        (v & 4 == 0) == (v / 4 % 2 == 0),
        (v & 8 != 0) == (v / 8 % 2 == 1),
        (v & 8 == 0) == (v / 8 % 2 == 0),
        (v & 0x10 != 0) == (v / 16 % 2 == 1),
        (v & 0x20 != 0) == (v / 32 % 2 == 1),
        (v & 0x40 != 0) == (v / 64 % 2 == 1),
        (v & 0x40 == 0) == (v / 64 % 2 == 0),
        (v & 0x80 != 0) == (v / 128 == 1),
        (v & 0x80 == 0) == (v / 128 == 0),
        (v & 0xC0 == 0x40) == (v / 64 == 1),
        v & 3 == v % 4,
        v & 0x3F == v % 64,
        v & 0x7F == v % 128,
        v & 0x1F == v % 32,
        (v >> 1) & 3 == v / 2 % 4,
        (v >> 2) & 3 == v / 4 % 4,
        v / 4 % 4 == v / 4 % 2 + v / 8 % 2 * 2,
        v / 2 % 4 == v / 2 % 2 + v / 4 % 2 * 2,
{
}

/// A bank register of which a write replaces some bits.
pub proof fn bank_bits(b: u8, v: u8)
    by (bit_vector)
    ensures
        (b & 0xFC) | (v & 3) == b - b % 4 + v % 4,
        ((b & 0xFC) | (v & 3)) & 0xF3 | (v & 0x0C) == b - b % 16 + v % 16,
        (b & 0xFC) | ((v >> 2) & 3) == b - b % 4 + v / 4 % 4,
        (b & 0xFC) | ((v >> 1) & 3) == b - b % 4 + v / 2 % 4,
        (b & 0xFE) | 1 == b - b % 2 + 1,
        (b & 0xFE) | 0 == b - b % 2,
        (b & 0xF8) | ((v >> 7) << 2) | ((v >> 3) & 3) == b - b % 8 + v / 128 * 4 + v / 8 % 4,
        (b & 0xFC) | (((v >> 4) & 1) << 1) | ((v >> 2) & 1) == b - b % 4 + v / 16 % 2 * 2 + v / 4
            % 2,
        ((b & 0xFC) | (((v >> 4) & 1) << 1) | ((v >> 2) & 1)) & 0xFB | (((v >> 5) & 1) << 2) == b
            - b % 8 + v / 32 % 2 * 4 + v / 16 % 2 * 2 + v / 4 % 2,
{
}

/// The bits of an address in `$DE00-$DFFF`.
pub proof fn io_bits(a: u16)
    by (bit_vector)
    requires
        0xDE00 <= a < 0xE000,
    ensures
        (a & 0x1FF) == a - 0xDE00,
        ((a & 0x1FF) & 0x100 == 0) == (a < 0xDF00),
        (a & 0x100 == 0) == (a < 0xDF00),
        ((a & 0x1FF) & 0x180 == 0x000) == (a < 0xDE80),
        ((a & 0x1FF) & 0x180 == 0x080) == (0xDE80 <= a < 0xDF00),
        ((a & 0x1FF) & 0x180 == 0x180) == (0xDF80 <= a),
        ((a & 0x1FF) & 0xF) == a % 16,
        ((a & 0x1FF) & 1 != 0) == (a % 2 == 1),
        ((a & 0x1FF) & 1 == 0) == (a % 2 == 0),
        ((a & 0x1FF) & 2 != 0) == (a / 2 % 2 == 1),
        ((a & 0x1FF) & 2 == 0) == (a / 2 % 2 == 0),
        ((a & 0x1FF) & 0x40 == 0) == (a / 64 % 2 == 0),
        ((a & 0x1FF) & 0x80 != 0) == (a / 128 % 2 == 1),
        ((a & 0x1FF) & 0x1FE == 0) == (a <= 0xDE01),
        (a & 0x1FE == 0) == (a <= 0xDE01),
        (a & 0x2000 == 0) == (a / 0x2000 % 2 == 0),
{
}

/// The bits of an address that choose between the halves of a bank.
pub proof fn rom_bits(a: u16)
    by (bit_vector)
    ensures
        (a & 0x2000 == 0) == (a / 0x2000 % 2 == 0),
        (a & 0x1000 != 0) == (a / 0x1000 % 2 == 1),
{
}

/// A type register: the type in the low five bits, the variant above.
pub proof fn type_bits(v: u8)
    by (bit_vector)
    ensures
        v & 0x1F == v % 32,
        v >> 5 == v / 32,
{
}

} // verus!
