//! The locking strategies of a lock without its phase, packed into one byte.
//!
//! From the lowest bit up the byte holds two bits of the strategy for `Setup` and
//! two of that for `Cleanup`. A byte in which no strategy was packed stands for no
//! lock at all.

use crate::flags::{is_merged, lemma_merged, lemma_rest_unchanged};
use crate::locking::{Cleanup, Setup};
use vstd::prelude::*;

verus! {

/// The bits of the strategy for `Setup`.
pub const U8_TO_LOCKING_SETUP: u8 = 0b00_00_00_11u8;

/// The bits of the strategy for `Cleanup`.
pub const U8_TO_LOCKING_CLEANUP: u8 = 0b00_00_11_00u8;

/// `Setup::Unlock` in its place in the byte.
pub const LOCKING_SETUP_UNLOCK: u8 = 0b00_00_00_01u8;

/// `Setup::Blocking` in its place in the byte.
pub const LOCKING_SETUP_BLOCKING: u8 = 0b00_00_00_10u8;

/// `Setup::NonBlocking` in its place in the byte.
pub const LOCKING_SETUP_NON_BLOCKING: u8 = 0b00_00_00_11u8;

/// `Cleanup::Unlock` in its place in the byte.
pub const LOCKING_CLEANUP_UNLOCK: u8 = 0b00_00_01_00u8;

/// `Cleanup::Blocking` in its place in the byte.
pub const LOCKING_CLEANUP_BLOCKING: u8 = 0b00_00_10_00u8;

/// `Cleanup::NonBlocking` in its place in the byte.
pub const LOCKING_CLEANUP_NON_BLOCKING: u8 = 0b00_00_11_00u8;

/// The strategy for `Setup` that is packed into `bits`.
pub open spec fn setup_of_bits(bits: u8) -> Setup {
    if bits & U8_TO_LOCKING_SETUP == LOCKING_SETUP_BLOCKING {
        Setup::Blocking
    } else if bits & U8_TO_LOCKING_SETUP == LOCKING_SETUP_NON_BLOCKING {
        Setup::NonBlocking
    } else {
        Setup::Unlock
    }
}

/// Tells the strategy for `Setup` that is packed into `bits`.
pub fn u8_to_locking_of_setup(bits: u8) -> (locking: Setup)
    ensures
        locking == setup_of_bits(bits),
{
    let locking: u8 = bits & U8_TO_LOCKING_SETUP;
    match locking {
        LOCKING_SETUP_UNLOCK => Setup::Unlock,
        LOCKING_SETUP_BLOCKING => Setup::Blocking,
        LOCKING_SETUP_NON_BLOCKING => Setup::NonBlocking,
        _ => Setup::Unlock,
    }
}

/// Packs a strategy for `Setup` into `bits`.
pub fn set_locking_of_setup_to_u8(bits: u8, locking_of_setup: u8) -> (new_bits: u8)
    ensures
        is_merged(new_bits, bits, locking_of_setup, U8_TO_LOCKING_SETUP),
{
    proof {
        lemma_merged(bits, locking_of_setup, U8_TO_LOCKING_SETUP);
    }
    (bits & !U8_TO_LOCKING_SETUP) | (locking_of_setup & U8_TO_LOCKING_SETUP)
}

/// The strategy for `Cleanup` that is packed into `bits`.
pub open spec fn cleanup_of_bits(bits: u8) -> Cleanup {
    if bits & U8_TO_LOCKING_CLEANUP == LOCKING_CLEANUP_BLOCKING {
        Cleanup::Blocking
    } else if bits & U8_TO_LOCKING_CLEANUP == LOCKING_CLEANUP_NON_BLOCKING {
        Cleanup::NonBlocking
    } else {
        Cleanup::Unlock
    }
}

/// Tells the strategy for `Cleanup` that is packed into `bits`.
pub fn u8_to_locking_of_cleanup(bits: u8) -> (locking: Cleanup)
    ensures
        locking == cleanup_of_bits(bits),
{
    let locking: u8 = bits & U8_TO_LOCKING_CLEANUP;
    match locking {
        LOCKING_CLEANUP_UNLOCK => Cleanup::Unlock,
        LOCKING_CLEANUP_BLOCKING => Cleanup::Blocking,
        LOCKING_CLEANUP_NON_BLOCKING => Cleanup::NonBlocking,
        _ => Cleanup::Unlock,
    }
}

/// Packs a strategy for `Cleanup` into `bits`.
pub fn set_locking_of_cleanup_to_u8(bits: u8, locking_of_cleanup: u8) -> (new_bits: u8)
    ensures
        is_merged(new_bits, bits, locking_of_cleanup, U8_TO_LOCKING_CLEANUP),
{
    proof {
        lemma_merged(bits, locking_of_cleanup, U8_TO_LOCKING_CLEANUP);
    }
    (bits & !U8_TO_LOCKING_CLEANUP) | (locking_of_cleanup & U8_TO_LOCKING_CLEANUP)
}

/// A strategy for `Setup` that has been packed reads back, and that for `Cleanup`
/// is unchanged.
pub proof fn law_setup_reads_back(bits: u8, new_bits: u8, locking: u8)
    requires
        is_merged(new_bits, bits, locking, U8_TO_LOCKING_SETUP),
    ensures
        setup_of_bits(new_bits) == setup_of_bits(locking),
        cleanup_of_bits(new_bits) == cleanup_of_bits(bits),
{
    assert(U8_TO_LOCKING_SETUP & U8_TO_LOCKING_CLEANUP == 0) by (bit_vector);
    lemma_rest_unchanged(bits, new_bits, U8_TO_LOCKING_SETUP, U8_TO_LOCKING_CLEANUP);
}

/// A strategy for `Cleanup` that has been packed reads back, and that for `Setup`
/// is unchanged.
pub proof fn law_cleanup_reads_back(bits: u8, new_bits: u8, locking: u8)
    requires
        is_merged(new_bits, bits, locking, U8_TO_LOCKING_CLEANUP),
    ensures
        cleanup_of_bits(new_bits) == cleanup_of_bits(locking),
        setup_of_bits(new_bits) == setup_of_bits(bits),
{
    assert(U8_TO_LOCKING_CLEANUP & U8_TO_LOCKING_SETUP == 0) by (bit_vector);
    lemma_rest_unchanged(bits, new_bits, U8_TO_LOCKING_CLEANUP, U8_TO_LOCKING_SETUP);
}

} // verus!
