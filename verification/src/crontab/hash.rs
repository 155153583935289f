use vstd::prelude::*;

verus! {

/// The value every hash starts from.
pub const DJB2_SEED: u64 = 5381;

/// One step of the hash: the state times 33, plus the byte, modulo 2^64.
pub open spec fn djb2_step(state: u64, byte: u8) -> u64 {
    ((state * 33 + byte) % 0x1_0000_0000_0000_0000) as u64
}

/// The hash of `bytes`, folded from the left starting at the seed.
pub open spec fn djb2_of(bytes: Seq<u8>) -> u64
    decreases bytes.len(),
{
    if bytes.len() == 0 {
        DJB2_SEED
    } else {
        djb2_step(djb2_of(bytes.drop_last()), bytes.last())
    }
}

/// `(state * 32 + state + byte) mod 2^64`, computed with a shift and two
/// wrapping additions, is one step of the hash.
proof fn lemma_shift_add_is_step(state: u64, byte: u8)
    ensures
        (state << 5).wrapping_add(state).wrapping_add(byte as u64) == djb2_step(state, byte),
{
    let shifted: u64 = state << 5;
    assert(shifted == (state * 32) % 0x1_0000_0000_0000_0000) by (bit_vector)
        requires
            shifted == state << 5,
    ;
    let m: int = 0x1_0000_0000_0000_0000;
    let once: u64 = shifted.wrapping_add(state);
    assert(once == (shifted + state) % m);
    vstd::arithmetic::div_mod::lemma_add_mod_noop((state * 32) as int, state as int, m);
    vstd::arithmetic::div_mod::lemma_small_mod(state as nat, m as nat);
    assert(once == (state * 33) % m);
    let twice: u64 = once.wrapping_add(byte as u64);
    assert(twice == (once + byte) % m);
    vstd::arithmetic::div_mod::lemma_add_mod_noop((state * 33) as int, byte as int, m);
    vstd::arithmetic::div_mod::lemma_small_mod(byte as nat, m as nat);
}

/// DJB2, Daniel J. Bernstein's multiplicative rolling hash: seed 5381,
/// multiplier 33, arithmetic modulo 2^64.
pub fn djb2(input: &[u8]) -> (hash: u64)
    ensures
        hash == djb2_of(input@),
{
    let mut hash: u64 = DJB2_SEED;
    let mut i: usize = 0;
    while i < input.len()
        invariant
            i <= input.len(),
            hash == djb2_of(input@.take(i as int)),
        decreases input.len() - i,
    {
        let byte: u8 = input[i];
        proof {
            lemma_shift_add_is_step(hash, byte);
            assert(input@.take(i + 1).drop_last() =~= input@.take(i as int));
        }
        hash = hash.wrapping_shl(5).wrapping_add(hash).wrapping_add(byte as u64);
        i += 1;
    }
    proof {
        assert(input@.take(i as int) =~= input@);
    }
    hash
}

} // verus!
