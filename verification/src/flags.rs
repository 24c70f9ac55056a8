//! The phase code and the locking strategies of a lock, packed into one byte.
//!
//! From the highest bit down the byte holds two bits of the strategy for `Setup`,
//! one of that for `Read`, two of that for `Cleanup`, and three of the phase code.

use crate::locking::{Cleanup, Read, Setup};
use crate::phase::{
    phase_of, Phase, PHASE_CLEANUP, PHASE_READ, PHASE_READ_TO_CLEANUP, PHASE_SETUP,
    PHASE_SETUP_TO_READ,
};
use vstd::prelude::*;

verus! {

/// The bits of the phase code.
pub const U8_TO_PHASE: u8 = 0b00_0_00_111u8;

/// The bits of the strategy for `Setup`.
pub const U8_TO_LOCKING_SETUP: u8 = 0b11_0_00_000u8;

/// The bits of the strategy for `Read`.
pub const U8_TO_LOCKING_READ: u8 = 0b00_1_00_000u8;

/// The bits of the strategy for `Cleanup`.
pub const U8_TO_LOCKING_CLEANUP: u8 = 0b00_0_11_000u8;

/// `Setup::Unlock` in its place in the byte.
pub const LOCKING_SETUP_UNLOCK: u8 = 0b00_0_00_000u8;

/// `Setup::Blocking` in its place in the byte.
pub const LOCKING_SETUP_BLOCKING: u8 = 0b01_0_00_000u8;

/// `Setup::NonBlocking` in its place in the byte.
pub const LOCKING_SETUP_NON_BLOCKING: u8 = 0b10_0_00_000u8;

/// `Read::Fast` in its place in the byte.
pub const LOCKING_READ_FAST: u8 = 0b00_0_00_000u8;

/// `Read::Graceful` in its place in the byte.
pub const LOCKING_READ_GRACEFUL: u8 = 0b00_1_00_000u8;

/// `Cleanup::Unlock` in its place in the byte.
pub const LOCKING_CLEANUP_UNLOCK: u8 = 0b00_0_00_000u8;

/// `Cleanup::Blocking` in its place in the byte.
pub const LOCKING_CLEANUP_BLOCKING: u8 = 0b00_0_01_000u8;

/// `Cleanup::NonBlocking` in its place in the byte.
pub const LOCKING_CLEANUP_NON_BLOCKING: u8 = 0b00_0_10_000u8;

/// Whether `new_flags` has the bits of `value` where `mask` has ones, and those of
/// `flags` elsewhere. There is exactly one such byte.
pub open spec fn is_merged(new_flags: u8, flags: u8, value: u8, mask: u8) -> bool {
    &&& new_flags & mask == value & mask
    &&& new_flags & !mask == flags & !mask
}

/// Tells the phase that is packed into `flags`.
pub fn u8_to_phase(flags: u8) -> (phase: Phase)
    ensures
        phase == phase_of(flags & U8_TO_PHASE),
{
    let phase_code: u8 = flags & U8_TO_PHASE;
    match phase_code {
        PHASE_SETUP => Phase::Setup,
        PHASE_READ => Phase::Read,
        PHASE_CLEANUP => Phase::Cleanup,
        PHASE_SETUP_TO_READ => Phase::Setup,
        PHASE_READ_TO_CLEANUP => Phase::Cleanup,
        _ => Phase::Cleanup,
    }
}

/// Packs a phase code into `flags`.
pub fn set_phase_code_to_u8(flags: u8, phase_code: u8) -> (new_flags: u8)
    ensures
        is_merged(new_flags, flags, phase_code, U8_TO_PHASE),
{
    proof {
        lemma_merged(flags, phase_code, U8_TO_PHASE);
    }
    (flags & !U8_TO_PHASE) | (phase_code & U8_TO_PHASE)
}

/// The strategy for `Setup` that is packed into `flags`.
pub open spec fn setup_of_flags(flags: u8) -> Setup {
    if flags & U8_TO_LOCKING_SETUP == LOCKING_SETUP_UNLOCK {
        Setup::Unlock
    } else if flags & U8_TO_LOCKING_SETUP == LOCKING_SETUP_NON_BLOCKING {
        Setup::NonBlocking
    } else {
        Setup::Blocking
    }
}

/// Tells the strategy for `Setup` that is packed into `flags`.
pub fn u8_to_locking_of_setup(flags: u8) -> (locking: Setup)
    ensures
        locking == setup_of_flags(flags),
{
    let locking: u8 = flags & U8_TO_LOCKING_SETUP;
    match locking {
        LOCKING_SETUP_UNLOCK => Setup::Unlock,
        LOCKING_SETUP_BLOCKING => Setup::Blocking,
        LOCKING_SETUP_NON_BLOCKING => Setup::NonBlocking,
        _ => Setup::Blocking,
    }
}

/// Packs a strategy for `Setup` into `flags`.
pub fn set_locking_of_setup_to_u8(flags: u8, locking_of_setup: u8) -> (new_flags: u8)
    ensures
        is_merged(new_flags, flags, locking_of_setup, U8_TO_LOCKING_SETUP),
{
    proof {
        lemma_merged(flags, locking_of_setup, U8_TO_LOCKING_SETUP);
    }
    (flags & !U8_TO_LOCKING_SETUP) | (locking_of_setup & U8_TO_LOCKING_SETUP)
}

/// The strategy for `Read` that is packed into `flags`.
pub open spec fn read_of_flags(flags: u8) -> Read {
    if flags & U8_TO_LOCKING_READ == LOCKING_READ_GRACEFUL {
        Read::Graceful
    } else {
        Read::Fast
    }
}

/// Tells the strategy for `Read` that is packed into `flags`.
pub fn u8_to_locking_of_read(flags: u8) -> (locking: Read)
    ensures
        locking == read_of_flags(flags),
{
    let locking: u8 = flags & U8_TO_LOCKING_READ;
    match locking {
        LOCKING_READ_FAST => Read::Fast,
        LOCKING_READ_GRACEFUL => Read::Graceful,
        _ => Read::Fast,
    }
}

/// Packs a strategy for `Read` into `flags`.
pub fn set_locking_of_read_to_u8(flags: u8, locking_of_read: u8) -> (new_flags: u8)
    ensures
        is_merged(new_flags, flags, locking_of_read, U8_TO_LOCKING_READ),
{
    proof {
        lemma_merged(flags, locking_of_read, U8_TO_LOCKING_READ);
    }
    (flags & !U8_TO_LOCKING_READ) | (locking_of_read & U8_TO_LOCKING_READ)
}

/// The strategy for `Cleanup` that is packed into `flags`.
pub open spec fn cleanup_of_flags(flags: u8) -> Cleanup {
    if flags & U8_TO_LOCKING_CLEANUP == LOCKING_CLEANUP_UNLOCK {
        Cleanup::Unlock
    } else if flags & U8_TO_LOCKING_CLEANUP == LOCKING_CLEANUP_NON_BLOCKING {
        Cleanup::NonBlocking
    } else {
        Cleanup::Blocking
    }
}

/// Tells the strategy for `Cleanup` that is packed into `flags`.
pub fn u8_to_locking_of_cleanup(flags: u8) -> (locking: Cleanup)
    ensures
        locking == cleanup_of_flags(flags),
{
    let locking: u8 = flags & U8_TO_LOCKING_CLEANUP;
    match locking {
        LOCKING_CLEANUP_UNLOCK => Cleanup::Unlock,
        LOCKING_CLEANUP_BLOCKING => Cleanup::Blocking,
        LOCKING_CLEANUP_NON_BLOCKING => Cleanup::NonBlocking,
        _ => Cleanup::Blocking,
    }
}

/// Packs a strategy for `Cleanup` into `flags`.
pub fn set_locking_of_cleanup_to_u8(flags: u8, locking_of_cleanup: u8) -> (new_flags: u8)
    ensures
        is_merged(new_flags, flags, locking_of_cleanup, U8_TO_LOCKING_CLEANUP),
{
    proof {
        lemma_merged(flags, locking_of_cleanup, U8_TO_LOCKING_CLEANUP);
    }
    (flags & !U8_TO_LOCKING_CLEANUP) | (locking_of_cleanup & U8_TO_LOCKING_CLEANUP)
}

/// Clearing the bits of `mask` and filling them from `value` merges the two.
pub proof fn lemma_merged(flags: u8, value: u8, mask: u8)
    ensures
        is_merged((flags & !mask) | (value & mask), flags, value, mask),
{
    assert(((flags & !mask) | (value & mask)) & mask == value & mask) by (bit_vector);
    assert(((flags & !mask) | (value & mask)) & !mask == flags & !mask) by (bit_vector);
}

/// There is no more than one byte that merges two others.
pub proof fn law_merge_is_unique(a: u8, b: u8, flags: u8, value: u8, mask: u8)
    requires
        is_merged(a, flags, value, mask),
        is_merged(b, flags, value, mask),
    ensures
        a == b,
{
    assert(a & mask == b & mask && a & !mask == b & !mask ==> a == b) by (bit_vector);
}

/// A phase code of three bits that has been packed reads back as its phase, of any
/// other its three lowest bits do, and what else was packed before is unchanged.
pub proof fn law_phase_reads_back(flags: u8, new_flags: u8, phase_code: u8)
    requires
        is_merged(new_flags, flags, phase_code, U8_TO_PHASE),
    ensures
        phase_of(new_flags & U8_TO_PHASE) == phase_of(phase_code & U8_TO_PHASE),
        phase_code <= U8_TO_PHASE ==> phase_of(new_flags & U8_TO_PHASE) == phase_of(phase_code),
        setup_of_flags(new_flags) == setup_of_flags(flags),
        read_of_flags(new_flags) == read_of_flags(flags),
        cleanup_of_flags(new_flags) == cleanup_of_flags(flags),
{
    lemma_masks_disjoint();
    assert(phase_code <= U8_TO_PHASE ==> phase_code & U8_TO_PHASE == phase_code) by (bit_vector);
    lemma_rest_unchanged(flags, new_flags, U8_TO_PHASE, U8_TO_LOCKING_SETUP);
    lemma_rest_unchanged(flags, new_flags, U8_TO_PHASE, U8_TO_LOCKING_READ);
    lemma_rest_unchanged(flags, new_flags, U8_TO_PHASE, U8_TO_LOCKING_CLEANUP);
}

/// A strategy for `Setup` that has been packed reads back, and what else was
/// packed before is unchanged.
pub proof fn law_setup_reads_back(flags: u8, new_flags: u8, locking: u8)
    requires
        is_merged(new_flags, flags, locking, U8_TO_LOCKING_SETUP),
    ensures
        setup_of_flags(new_flags) == setup_of_flags(locking),
        phase_of(new_flags & U8_TO_PHASE) == phase_of(flags & U8_TO_PHASE),
        read_of_flags(new_flags) == read_of_flags(flags),
        cleanup_of_flags(new_flags) == cleanup_of_flags(flags),
{
    lemma_masks_disjoint();
    lemma_rest_unchanged(flags, new_flags, U8_TO_LOCKING_SETUP, U8_TO_PHASE);
    lemma_rest_unchanged(flags, new_flags, U8_TO_LOCKING_SETUP, U8_TO_LOCKING_READ);
    lemma_rest_unchanged(flags, new_flags, U8_TO_LOCKING_SETUP, U8_TO_LOCKING_CLEANUP);
}

/// A strategy for `Read` that has been packed reads back, and what else was packed
/// before is unchanged.
pub proof fn law_read_reads_back(flags: u8, new_flags: u8, locking: u8)
    requires
        is_merged(new_flags, flags, locking, U8_TO_LOCKING_READ),
    ensures
        read_of_flags(new_flags) == read_of_flags(locking),
        phase_of(new_flags & U8_TO_PHASE) == phase_of(flags & U8_TO_PHASE),
        setup_of_flags(new_flags) == setup_of_flags(flags),
        cleanup_of_flags(new_flags) == cleanup_of_flags(flags),
{
    lemma_masks_disjoint();
    lemma_rest_unchanged(flags, new_flags, U8_TO_LOCKING_READ, U8_TO_PHASE);
    lemma_rest_unchanged(flags, new_flags, U8_TO_LOCKING_READ, U8_TO_LOCKING_SETUP);
    lemma_rest_unchanged(flags, new_flags, U8_TO_LOCKING_READ, U8_TO_LOCKING_CLEANUP);
}

/// A strategy for `Cleanup` that has been packed reads back, and what else was
/// packed before is unchanged.
pub proof fn law_cleanup_reads_back(flags: u8, new_flags: u8, locking: u8)
    requires
        is_merged(new_flags, flags, locking, U8_TO_LOCKING_CLEANUP),
    ensures
        cleanup_of_flags(new_flags) == cleanup_of_flags(locking),
        phase_of(new_flags & U8_TO_PHASE) == phase_of(flags & U8_TO_PHASE),
        setup_of_flags(new_flags) == setup_of_flags(flags),
        read_of_flags(new_flags) == read_of_flags(flags),
{
    lemma_masks_disjoint();
    lemma_rest_unchanged(flags, new_flags, U8_TO_LOCKING_CLEANUP, U8_TO_PHASE);
    lemma_rest_unchanged(flags, new_flags, U8_TO_LOCKING_CLEANUP, U8_TO_LOCKING_SETUP);
    lemma_rest_unchanged(flags, new_flags, U8_TO_LOCKING_CLEANUP, U8_TO_LOCKING_READ);
}

/// No two of the packed values share a bit.
proof fn lemma_masks_disjoint()
    ensures
        U8_TO_PHASE & U8_TO_LOCKING_SETUP == 0,
        U8_TO_PHASE & U8_TO_LOCKING_READ == 0,
        U8_TO_PHASE & U8_TO_LOCKING_CLEANUP == 0,
        U8_TO_LOCKING_SETUP & U8_TO_PHASE == 0,
        U8_TO_LOCKING_SETUP & U8_TO_LOCKING_READ == 0,
        U8_TO_LOCKING_SETUP & U8_TO_LOCKING_CLEANUP == 0,
        U8_TO_LOCKING_READ & U8_TO_PHASE == 0,
        U8_TO_LOCKING_READ & U8_TO_LOCKING_SETUP == 0,
        U8_TO_LOCKING_READ & U8_TO_LOCKING_CLEANUP == 0,
        U8_TO_LOCKING_CLEANUP & U8_TO_PHASE == 0,
        U8_TO_LOCKING_CLEANUP & U8_TO_LOCKING_SETUP == 0,
        U8_TO_LOCKING_CLEANUP & U8_TO_LOCKING_READ == 0,
{
    assert({
        &&& U8_TO_PHASE & U8_TO_LOCKING_SETUP == 0
        &&& U8_TO_PHASE & U8_TO_LOCKING_READ == 0
        &&& U8_TO_PHASE & U8_TO_LOCKING_CLEANUP == 0
        &&& U8_TO_LOCKING_SETUP & U8_TO_PHASE == 0
        &&& U8_TO_LOCKING_SETUP & U8_TO_LOCKING_READ == 0
        &&& U8_TO_LOCKING_SETUP & U8_TO_LOCKING_CLEANUP == 0
        &&& U8_TO_LOCKING_READ & U8_TO_PHASE == 0
        &&& U8_TO_LOCKING_READ & U8_TO_LOCKING_SETUP == 0
        &&& U8_TO_LOCKING_READ & U8_TO_LOCKING_CLEANUP == 0
        &&& U8_TO_LOCKING_CLEANUP & U8_TO_PHASE == 0
        &&& U8_TO_LOCKING_CLEANUP & U8_TO_LOCKING_SETUP == 0
        &&& U8_TO_LOCKING_CLEANUP & U8_TO_LOCKING_READ == 0
    }) by (bit_vector);
}

/// Bits outside of `mask` are the same where two bytes differ only inside of it.
pub proof fn lemma_rest_unchanged(flags: u8, new_flags: u8, mask: u8, other: u8)
    requires
        new_flags & !mask == flags & !mask,
        mask & other == 0,
    ensures
        new_flags & other == flags & other,
{
    assert(new_flags & !mask == flags & !mask && mask & other == 0 ==> new_flags & other == flags
        & other) by (bit_vector);
}

} // verus!
