//! The pseudo-random source of the machine: a linear congruential generator
//! on 32-bit states whose top byte is handed out.

use vstd::arithmetic::div_mod::lemma_mod_multiples_vanish;
use vstd::prelude::*;

verus! {

/// Multiplier of the generator.
pub const MULTIPLIER: u32 = 1664525;

/// Increment of the generator.
pub const INCREMENT: u32 = 1013904223;

/// The state that follows `state`: `state * MULTIPLIER + INCREMENT`, reduced
/// modulo 2^32.
pub open spec fn next_state(state: u32) -> u32 {
    ((state as int * MULTIPLIER as int + INCREMENT as int) % 0x1_0000_0000) as u32
}

/// The byte that a state hands out: its most significant eight bits.
pub open spec fn output(state: u32) -> u8 {
    (state as int / 0x100_0000) as u8
}

/// Inverse of `MULTIPLIER` modulo 2^32.
pub const MULTIPLIER_INVERSE: u32 = 4276115653;

/// The state that `state` follows.
pub open spec fn previous_state(state: u32) -> u32 {
    (((state as int + 0x1_0000_0000 - INCREMENT as int) * MULTIPLIER_INVERSE as int)
        % 0x1_0000_0000) as u32
}

/// `MULTIPLIER_INVERSE` undoes a multiplication by `MULTIPLIER` modulo 2^32,
/// and the other way round.
proof fn lemma_inverse_cancels(x: int, k: int)
    ensures
        ((x * MULTIPLIER as int + k * 0x1_0000_0000) * MULTIPLIER_INVERSE as int) % 0x1_0000_0000
            == x % 0x1_0000_0000,
        ((x * MULTIPLIER_INVERSE as int + k * 0x1_0000_0000) * MULTIPLIER as int) % 0x1_0000_0000
            == x % 0x1_0000_0000,
{
    let m = 0x1_0000_0000int;
    assert(1664525 * 4276115653 == 1 + 1657219 * m);
    assert((x * 1664525 + k * m) * 4276115653 == m * (x * 1657219 + k * 4276115653) + x)
        by (nonlinear_arith)
        requires
            m == 0x1_0000_0000,
    ;
    assert((x * 4276115653 + k * m) * 1664525 == m * (x * 1657219 + k * 1664525) + x)
        by (nonlinear_arith)
        requires
            m == 0x1_0000_0000,
    ;
    lemma_mod_multiples_vanish(x * 1657219 + k * 4276115653, x, m);
    lemma_mod_multiples_vanish(x * 1657219 + k * 1664525, x, m);
}

/// The generator permutes the 32-bit states: every state follows exactly
/// one state, so no two runs of states ever merge.
pub proof fn lemma_next_state_is_a_permutation(state: u32)
    ensures
        previous_state(next_state(state)) == state,
        next_state(previous_state(state)) == state,
{
    let m = 0x1_0000_0000int;
    let forward = state as int * 1664525 + 1013904223;
    lemma_inverse_cancels(state as int, 1 - forward / m);
    assert(next_state(state) + m - 1013904223 == state * 1664525 + (1 - forward / m) * m);
    let backward = (state as int + m - 1013904223) * 4276115653;
    lemma_inverse_cancels(state as int + m - 1013904223, -(backward / m));
    lemma_mod_multiples_vanish(1, state as int, m);
    assert(previous_state(state) * 1664525 + 1013904223 == ((state + m - 1013904223) * 4276115653
        + (-(backward / m)) * m) * 1664525 + 1013904223) by (nonlinear_arith)
        requires
            previous_state(state) == backward - (backward / m) * m,
            backward == (state + m - 1013904223) * 4276115653,
    ;
}

/// Advances the generator by one step.
pub fn advance(state: u32) -> (next: u32)
    ensures
        next == next_state(state),
{
    assert(state as int * MULTIPLIER as int <= 0xFFFF_FFFF * 1664525) by (nonlinear_arith)
        requires
            state <= 0xFFFF_FFFF,
            MULTIPLIER == 1664525,
    ;
    let wide: u64 = state as u64 * MULTIPLIER as u64 + INCREMENT as u64;
    (wide % 0x1_0000_0000) as u32
}

/// The byte that `state` hands out.
pub fn sample(state: u32) -> (byte: u8)
    ensures
        byte == output(state),
{
    (state / 0x100_0000) as u8
}

} // verus!
