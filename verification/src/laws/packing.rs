//! What is packed into a byte reads back, said of calls alone.

use crate::flags;
use crate::locking::{Cleanup, Read, Setup};
use crate::lockings;
use crate::phase::{Phase, PHASE_READ, PHASE_SETUP, PHASE_SETUP_TO_READ};
use vstd::prelude::*;

verus! {

/// A strategy for `Setup` that has been packed reads back, and nothing else that is packed
/// changes.
pub proof fn law_packed_setup(
    bits: u8,
    packed: u8,
    new_bits: u8,
    told: Setup,
    before_0: Read,
    after_0: Read,
    before_1: Cleanup,
    after_1: Cleanup,
    before_2: Phase,
    after_2: Phase,
)
    requires
        call_ensures(flags::set_locking_of_setup_to_u8, (bits, packed), new_bits),
        call_ensures(flags::u8_to_locking_of_setup, (new_bits,), told),
        call_ensures(flags::u8_to_locking_of_read, (bits,), before_0),
        call_ensures(flags::u8_to_locking_of_read, (new_bits,), after_0),
        call_ensures(flags::u8_to_locking_of_cleanup, (bits,), before_1),
        call_ensures(flags::u8_to_locking_of_cleanup, (new_bits,), after_1),
        call_ensures(flags::u8_to_phase, (bits,), before_2),
        call_ensures(flags::u8_to_phase, (new_bits,), after_2),
    ensures
        after_0 == before_0,
        after_1 == before_1,
        after_2 == before_2,
        packed == flags::LOCKING_SETUP_UNLOCK ==> told is Unlock,
        packed == flags::LOCKING_SETUP_BLOCKING ==> told is Blocking,
        packed == flags::LOCKING_SETUP_NON_BLOCKING ==> told is NonBlocking,
        new_bits & !flags::U8_TO_LOCKING_SETUP == bits & !flags::U8_TO_LOCKING_SETUP,
{
    flags::law_setup_reads_back(bits, new_bits, packed);
    lemma_flag_bits();
}

/// A strategy for `Read` that has been packed reads back, and nothing else that is packed
/// changes.
pub proof fn law_packed_read(
    bits: u8,
    packed: u8,
    new_bits: u8,
    told: Read,
    before_0: Setup,
    after_0: Setup,
    before_1: Cleanup,
    after_1: Cleanup,
    before_2: Phase,
    after_2: Phase,
)
    requires
        call_ensures(flags::set_locking_of_read_to_u8, (bits, packed), new_bits),
        call_ensures(flags::u8_to_locking_of_read, (new_bits,), told),
        call_ensures(flags::u8_to_locking_of_setup, (bits,), before_0),
        call_ensures(flags::u8_to_locking_of_setup, (new_bits,), after_0),
        call_ensures(flags::u8_to_locking_of_cleanup, (bits,), before_1),
        call_ensures(flags::u8_to_locking_of_cleanup, (new_bits,), after_1),
        call_ensures(flags::u8_to_phase, (bits,), before_2),
        call_ensures(flags::u8_to_phase, (new_bits,), after_2),
    ensures
        after_0 == before_0,
        after_1 == before_1,
        after_2 == before_2,
        packed == flags::LOCKING_READ_FAST ==> told is Fast,
        packed == flags::LOCKING_READ_GRACEFUL ==> told is Graceful,
        new_bits & !flags::U8_TO_LOCKING_READ == bits & !flags::U8_TO_LOCKING_READ,
{
    flags::law_read_reads_back(bits, new_bits, packed);
    lemma_flag_bits();
}

/// A strategy for `Cleanup` that has been packed reads back, and nothing else that is packed
/// changes.
pub proof fn law_packed_cleanup(
    bits: u8,
    packed: u8,
    new_bits: u8,
    told: Cleanup,
    before_0: Setup,
    after_0: Setup,
    before_1: Read,
    after_1: Read,
    before_2: Phase,
    after_2: Phase,
)
    requires
        call_ensures(flags::set_locking_of_cleanup_to_u8, (bits, packed), new_bits),
        call_ensures(flags::u8_to_locking_of_cleanup, (new_bits,), told),
        call_ensures(flags::u8_to_locking_of_setup, (bits,), before_0),
        call_ensures(flags::u8_to_locking_of_setup, (new_bits,), after_0),
        call_ensures(flags::u8_to_locking_of_read, (bits,), before_1),
        call_ensures(flags::u8_to_locking_of_read, (new_bits,), after_1),
        call_ensures(flags::u8_to_phase, (bits,), before_2),
        call_ensures(flags::u8_to_phase, (new_bits,), after_2),
    ensures
        after_0 == before_0,
        after_1 == before_1,
        after_2 == before_2,
        packed == flags::LOCKING_CLEANUP_UNLOCK ==> told is Unlock,
        packed == flags::LOCKING_CLEANUP_BLOCKING ==> told is Blocking,
        packed == flags::LOCKING_CLEANUP_NON_BLOCKING ==> told is NonBlocking,
        new_bits & !flags::U8_TO_LOCKING_CLEANUP == bits & !flags::U8_TO_LOCKING_CLEANUP,
{
    flags::law_cleanup_reads_back(bits, new_bits, packed);
    lemma_flag_bits();
}

/// A phase code that has been packed reads back, and nothing else that is packed changes.
pub proof fn law_packed_phase(
    bits: u8,
    packed: u8,
    new_bits: u8,
    told: Phase,
    before_0: Setup,
    after_0: Setup,
    before_1: Read,
    after_1: Read,
    before_2: Cleanup,
    after_2: Cleanup,
)
    requires
        call_ensures(flags::set_phase_code_to_u8, (bits, packed), new_bits),
        call_ensures(flags::u8_to_phase, (new_bits,), told),
        call_ensures(flags::u8_to_locking_of_setup, (bits,), before_0),
        call_ensures(flags::u8_to_locking_of_setup, (new_bits,), after_0),
        call_ensures(flags::u8_to_locking_of_read, (bits,), before_1),
        call_ensures(flags::u8_to_locking_of_read, (new_bits,), after_1),
        call_ensures(flags::u8_to_locking_of_cleanup, (bits,), before_2),
        call_ensures(flags::u8_to_locking_of_cleanup, (new_bits,), after_2),
    ensures
        after_0 == before_0,
        after_1 == before_1,
        after_2 == before_2,
        packed <= 7 ==> (told is Setup <==> packed == PHASE_SETUP || packed == PHASE_SETUP_TO_READ),
        packed <= 7 ==> (told is Read <==> packed == PHASE_READ),
        new_bits & !flags::U8_TO_PHASE == bits & !flags::U8_TO_PHASE,
{
    flags::law_phase_reads_back(bits, new_bits, packed);
}

/// A strategy for `Setup` that has been packed reads back, and nothing else that is packed
/// changes.
pub proof fn law_packed_locking_setup(
    bits: u8,
    packed: u8,
    new_bits: u8,
    told: Setup,
    before_0: Cleanup,
    after_0: Cleanup,
)
    requires
        call_ensures(lockings::set_locking_of_setup_to_u8, (bits, packed), new_bits),
        call_ensures(lockings::u8_to_locking_of_setup, (new_bits,), told),
        call_ensures(lockings::u8_to_locking_of_cleanup, (bits,), before_0),
        call_ensures(lockings::u8_to_locking_of_cleanup, (new_bits,), after_0),
    ensures
        after_0 == before_0,
        packed == lockings::LOCKING_SETUP_UNLOCK ==> told is Unlock,
        packed == lockings::LOCKING_SETUP_BLOCKING ==> told is Blocking,
        packed == lockings::LOCKING_SETUP_NON_BLOCKING ==> told is NonBlocking,
        new_bits & !lockings::U8_TO_LOCKING_SETUP == bits & !lockings::U8_TO_LOCKING_SETUP,
{
    lockings::law_setup_reads_back(bits, new_bits, packed);
    lemma_locking_bits();
}

/// A strategy for `Cleanup` that has been packed reads back, and nothing else that is packed
/// changes.
pub proof fn law_packed_locking_cleanup(
    bits: u8,
    packed: u8,
    new_bits: u8,
    told: Cleanup,
    before_0: Setup,
    after_0: Setup,
)
    requires
        call_ensures(lockings::set_locking_of_cleanup_to_u8, (bits, packed), new_bits),
        call_ensures(lockings::u8_to_locking_of_cleanup, (new_bits,), told),
        call_ensures(lockings::u8_to_locking_of_setup, (bits,), before_0),
        call_ensures(lockings::u8_to_locking_of_setup, (new_bits,), after_0),
    ensures
        after_0 == before_0,
        packed == lockings::LOCKING_CLEANUP_UNLOCK ==> told is Unlock,
        packed == lockings::LOCKING_CLEANUP_BLOCKING ==> told is Blocking,
        packed == lockings::LOCKING_CLEANUP_NON_BLOCKING ==> told is NonBlocking,
        new_bits & !lockings::U8_TO_LOCKING_CLEANUP == bits & !lockings::U8_TO_LOCKING_CLEANUP,
{
    lockings::law_cleanup_reads_back(bits, new_bits, packed);
    lemma_locking_bits();
}

/// The strategy for `Setup` and that for `Cleanup` of any byte of flags: where two bits say
/// nothing known, the lock blocks.
pub proof fn law_flags_tell(bits: u8, setup: Setup, read: Read, cleanup: Cleanup, phase: Phase)
    requires
        call_ensures(flags::u8_to_locking_of_setup, (bits,), setup),
        call_ensures(flags::u8_to_locking_of_read, (bits,), read),
        call_ensures(flags::u8_to_locking_of_cleanup, (bits,), cleanup),
        call_ensures(flags::u8_to_phase, (bits,), phase),
    ensures
        setup is Unlock <==> bits & 0b1100_0000 == 0,
        setup is NonBlocking <==> bits & 0b1100_0000 == 0b1000_0000,
        read is Graceful <==> bits & 0b0010_0000 == 0b0010_0000,
        cleanup is Unlock <==> bits & 0b0001_1000 == 0,
        cleanup is NonBlocking <==> bits & 0b0001_1000 == 0b0001_0000,
        phase is Setup <==> bits & 0b0000_0111 == PHASE_SETUP
            || bits & 0b0000_0111 == PHASE_SETUP_TO_READ,
        phase is Read <==> bits & 0b0000_0111 == PHASE_READ,
{
}

/// The strategies of any byte of lockings: where two bits say nothing known, there is no lock.
pub proof fn law_lockings_tell(bits: u8, setup: Setup, cleanup: Cleanup)
    requires
        call_ensures(lockings::u8_to_locking_of_setup, (bits,), setup),
        call_ensures(lockings::u8_to_locking_of_cleanup, (bits,), cleanup),
    ensures
        setup is Blocking <==> bits & 0b0000_0011 == 0b0000_0010,
        setup is NonBlocking <==> bits & 0b0000_0011 == 0b0000_0011,
        cleanup is Blocking <==> bits & 0b0000_1100 == 0b0000_1000,
        cleanup is NonBlocking <==> bits & 0b0000_1100 == 0b0000_1100,
{
}

/// Each strategy has its bits in its own place.
proof fn lemma_flag_bits()
    ensures
        flags::LOCKING_SETUP_UNLOCK & flags::U8_TO_LOCKING_SETUP == flags::LOCKING_SETUP_UNLOCK,
        flags::LOCKING_SETUP_BLOCKING & flags::U8_TO_LOCKING_SETUP == flags::LOCKING_SETUP_BLOCKING,
        flags::LOCKING_SETUP_NON_BLOCKING & flags::U8_TO_LOCKING_SETUP
            == flags::LOCKING_SETUP_NON_BLOCKING,
        flags::LOCKING_READ_FAST & flags::U8_TO_LOCKING_READ == flags::LOCKING_READ_FAST,
        flags::LOCKING_READ_GRACEFUL & flags::U8_TO_LOCKING_READ == flags::LOCKING_READ_GRACEFUL,
        flags::LOCKING_CLEANUP_UNLOCK & flags::U8_TO_LOCKING_CLEANUP
            == flags::LOCKING_CLEANUP_UNLOCK,
        flags::LOCKING_CLEANUP_BLOCKING & flags::U8_TO_LOCKING_CLEANUP
            == flags::LOCKING_CLEANUP_BLOCKING,
        flags::LOCKING_CLEANUP_NON_BLOCKING & flags::U8_TO_LOCKING_CLEANUP
            == flags::LOCKING_CLEANUP_NON_BLOCKING,
{
    assert({
        &&& flags::LOCKING_SETUP_UNLOCK & flags::U8_TO_LOCKING_SETUP == flags::LOCKING_SETUP_UNLOCK
        &&& flags::LOCKING_SETUP_BLOCKING & flags::U8_TO_LOCKING_SETUP
            == flags::LOCKING_SETUP_BLOCKING
        &&& flags::LOCKING_SETUP_NON_BLOCKING & flags::U8_TO_LOCKING_SETUP
            == flags::LOCKING_SETUP_NON_BLOCKING
        &&& flags::LOCKING_READ_FAST & flags::U8_TO_LOCKING_READ == flags::LOCKING_READ_FAST
        &&& flags::LOCKING_READ_GRACEFUL & flags::U8_TO_LOCKING_READ == flags::LOCKING_READ_GRACEFUL
        &&& flags::LOCKING_CLEANUP_UNLOCK & flags::U8_TO_LOCKING_CLEANUP
            == flags::LOCKING_CLEANUP_UNLOCK
        &&& flags::LOCKING_CLEANUP_BLOCKING & flags::U8_TO_LOCKING_CLEANUP
            == flags::LOCKING_CLEANUP_BLOCKING
        &&& flags::LOCKING_CLEANUP_NON_BLOCKING & flags::U8_TO_LOCKING_CLEANUP
            == flags::LOCKING_CLEANUP_NON_BLOCKING
    }) by (bit_vector);
}

/// Each strategy has its bits in its own place.
proof fn lemma_locking_bits()
    ensures
        lockings::LOCKING_SETUP_UNLOCK & lockings::U8_TO_LOCKING_SETUP
            == lockings::LOCKING_SETUP_UNLOCK,
        lockings::LOCKING_SETUP_BLOCKING & lockings::U8_TO_LOCKING_SETUP
            == lockings::LOCKING_SETUP_BLOCKING,
        lockings::LOCKING_SETUP_NON_BLOCKING & lockings::U8_TO_LOCKING_SETUP
            == lockings::LOCKING_SETUP_NON_BLOCKING,
        lockings::LOCKING_CLEANUP_UNLOCK & lockings::U8_TO_LOCKING_CLEANUP
            == lockings::LOCKING_CLEANUP_UNLOCK,
        lockings::LOCKING_CLEANUP_BLOCKING & lockings::U8_TO_LOCKING_CLEANUP
            == lockings::LOCKING_CLEANUP_BLOCKING,
        lockings::LOCKING_CLEANUP_NON_BLOCKING & lockings::U8_TO_LOCKING_CLEANUP
            == lockings::LOCKING_CLEANUP_NON_BLOCKING,
{
    assert({
        &&& lockings::LOCKING_SETUP_UNLOCK & lockings::U8_TO_LOCKING_SETUP
            == lockings::LOCKING_SETUP_UNLOCK
        &&& lockings::LOCKING_SETUP_BLOCKING & lockings::U8_TO_LOCKING_SETUP
            == lockings::LOCKING_SETUP_BLOCKING
        &&& lockings::LOCKING_SETUP_NON_BLOCKING & lockings::U8_TO_LOCKING_SETUP
            == lockings::LOCKING_SETUP_NON_BLOCKING
        &&& lockings::LOCKING_CLEANUP_UNLOCK & lockings::U8_TO_LOCKING_CLEANUP
            == lockings::LOCKING_CLEANUP_UNLOCK
        &&& lockings::LOCKING_CLEANUP_BLOCKING & lockings::U8_TO_LOCKING_CLEANUP
            == lockings::LOCKING_CLEANUP_BLOCKING
        &&& lockings::LOCKING_CLEANUP_NON_BLOCKING & lockings::U8_TO_LOCKING_CLEANUP
            == lockings::LOCKING_CLEANUP_NON_BLOCKING
    }) by (bit_vector);
}

} // verus!
