use vstd::prelude::*;

verus! {

/// Bit `k` of `x`.
pub open spec fn bit(x: u16, k: u16) -> bool {
    (x >> k) & 1u16 == 1u16
}

/// Sign extension of an `n`-bit field to 16 bits: when the field's top bit
/// (bit `n - 1`) is set, every bit from `n` upward is set as well.
pub open spec fn sign_extended(x: u16, n: u16) -> u16 {
    if n < 16 && bit(x, (n - 1) as u16) {
        x | (0xFFFFu16 << n)
    } else {
        x
    }
}

/// Sign-extends the `bit_cnt`-bit value `x` to a 16-bit word.
pub fn extend_sign(x: u16, bit_cnt: u8) -> (r: u16)
    requires
        1 <= bit_cnt <= 16,
    ensures
        r == sign_extended(x, bit_cnt as u16),
        forall|k: u16| k < bit_cnt ==> (bit(r, k) == bit(x, k)),
        forall|k: u16|
            bit_cnt <= k < 16 ==> (bit(r, k) == (bit(x, k) || bit(x, (bit_cnt - 1) as u16))),
{
    let n = bit_cnt as u16;
    proof {
        assert(forall|k: u16| k < n ==> bit(sign_extended(x, n), k) == bit(x, k)) by (bit_vector)
            requires 1 <= n <= 16;
        assert(forall|k: u16|
            n <= k < 16 ==> (bit(sign_extended(x, n), k) == (bit(x, k) || bit(x, (n - 1) as u16))))
            by (bit_vector)
            requires 1 <= n <= 16;
    }
    if n < 16 && (x >> (n - 1)) & 1 == 1 {
        x | (0xFFFFu16 << n)
    } else {
        x
    }
}

/// Destination register field, bits 11 to 9.
pub open spec fn dr_field(instruction: u16) -> u16 {
    (instruction >> 9u16) & 7u16
}

/// First source register field, bits 8 to 6 (also the base register).
pub open spec fn sr1_field(instruction: u16) -> u16 {
    (instruction >> 6u16) & 7u16
}

/// Nine-bit PC-relative offset field, bits 8 to 0, before sign extension.
pub open spec fn offset9_field(instruction: u16) -> u16 {
    instruction & 0x1FFu16
}

/// Sign-extending an `n`-bit field keeps its low `n` bits and copies its top
/// bit (bit `n - 1`) into every higher bit.
pub proof fn lemma_sign_extend_field(x: u16, n: u16)
    requires
        1 <= n <= 16,
        x >> n == 0,
    ensures
        forall|k: u16| k < n ==> bit(#[trigger] sign_extended(x, n), k) == bit(x, k),
        forall|k: u16|
            n <= k < 16 ==> bit(#[trigger] sign_extended(x, n), k) == bit(x, (n - 1) as u16),
{
    assert(forall|k: u16| k < n ==> bit(sign_extended(x, n), k) == bit(x, k)) by (bit_vector)
        requires 1 <= n <= 16;
    assert(forall|k: u16| n <= k < 16 ==> bit(sign_extended(x, n), k) == bit(x, (n - 1) as u16))
        by (bit_vector)
        requires 1 <= n <= 16, x >> n == 0;
}

/// Extracts the destination register index from an instruction.
pub fn extract_dr(instruction: u16) -> (r: usize)
    ensures
        r == dr_field(instruction),
        r < 8,
{
    proof {
        assert((instruction >> 9u16) & 7u16 < 8) by (bit_vector);
    }
    ((instruction >> 9) & 0x7) as usize
}

/// Extracts the first source register index from an instruction.
pub fn extract_sr1(instruction: u16) -> (r: usize)
    ensures
        r == sr1_field(instruction),
        r < 8,
{
    proof {
        assert((instruction >> 6u16) & 7u16 < 8) by (bit_vector);
    }
    ((instruction >> 6) & 0x7) as usize
}

/// Extracts the raw nine-bit PC-relative offset from an instruction.
pub fn extract_offset9(instruction: u16) -> (r: u16)
    ensures
        r == offset9_field(instruction),
{
    instruction & 0x1FF
}

} // verus!
