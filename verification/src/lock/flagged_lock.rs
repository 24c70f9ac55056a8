//! A lock whose phase and strategies are packed into one byte.

use super::errors::{lock_error, method_name, method_text, PhasedError, PhasedErrorKind};
use crate::flags::{
    cleanup_of_flags, law_cleanup_reads_back, law_phase_reads_back, law_read_reads_back,
    law_setup_reads_back, read_of_flags, set_locking_of_cleanup_to_u8, set_locking_of_read_to_u8,
    set_locking_of_setup_to_u8, set_phase_code_to_u8, setup_of_flags, u8_to_locking_of_read,
    u8_to_phase, LOCKING_CLEANUP_BLOCKING, LOCKING_CLEANUP_NON_BLOCKING, LOCKING_CLEANUP_UNLOCK,
    LOCKING_READ_FAST, LOCKING_READ_GRACEFUL, LOCKING_SETUP_BLOCKING, LOCKING_SETUP_NON_BLOCKING,
    LOCKING_SETUP_UNLOCK, U8_TO_LOCKING_CLEANUP, U8_TO_LOCKING_READ, U8_TO_LOCKING_SETUP,
    U8_TO_PHASE,
};
use crate::lifecycle::{code_step, leads_to, rests, Moment};
use crate::locking::{Cleanup, Read, Setup};
use crate::phase::{is_phase_code, phase_of, Phase, PHASE_READ, PHASE_SETUP};
use vstd::prelude::*;

verus! {

/// A lock that keeps its phase code and its strategies for locking in one byte.
///
/// The strategy for `Setup` decides where the data is kept: in the open, behind a
/// `std::sync::Mutex`, or behind a `tokio::sync::Mutex`. The strategy for `Read` decides
/// whether readers are counted.
pub struct PhasedLock<T: Send + Sync> {
    data_type: &'static str,
    flags: u8,
    read_count: usize,
    data_fixed: Option<T>,
    data_std: Option<T>,
    data_tokio: Option<T>,
}

/// The state of a `PhasedLock`.
pub struct PhasedLockState<T> {
    /// The name of the type of the data, for error messages.
    pub data_type: Seq<char>,
    /// The strategy for `Setup`.
    pub setup: Setup,
    /// The strategy for `Read`.
    pub read: Read,
    /// The strategy for `Cleanup`.
    pub cleanup: Cleanup,
    /// The phase code.
    pub code: u8,
    /// The number of readers that were counted.
    pub read_count: usize,
    /// The data in the open.
    pub fixed: Option<T>,
    /// The data behind a `std::sync::Mutex`.
    pub std: Option<T>,
    /// The data behind a `tokio::sync::Mutex`.
    pub tokio: Option<T>,
}

impl<T: Send + Sync> View for PhasedLock<T> {
    type V = PhasedLockState<T>;

    closed spec fn view(&self) -> PhasedLockState<T> {
        PhasedLockState {
            data_type: self.data_type@,
            setup: setup_of_flags(self.flags),
            read: read_of_flags(self.flags),
            cleanup: cleanup_of_flags(self.flags),
            code: self.flags & U8_TO_PHASE,
            read_count: self.read_count,
            fixed: self.data_fixed,
            std: self.data_std,
            tokio: self.data_tokio,
        }
    }
}

impl<T> PhasedLockState<T> {
    /// The moment in the life of the lock that this is.
    pub open spec fn moment(self) -> Moment<(Option<T>, Option<T>, Option<T>)> {
        Moment { code: self.code, data: (self.fixed, self.std, self.tokio) }
    }
}

/// Whether a reader of a lock in state `before` gets `result` by the method `method`, and
/// leaves the lock in state `after`.
///
/// A reader is counted where the strategy for `Read` asks for it, even where there turns
/// out to be no data; the count wraps around.
pub open spec fn is_flagged_read<T>(
    before: PhasedLockState<T>,
    method: Seq<char>,
    after: PhasedLockState<T>,
    result: Result<&T, PhasedError>,
) -> bool {
    if before.code != PHASE_READ {
        &&& after == before
        &&& match result {
            Ok(_) => false,
            Err(e) => {
                &&& e.phase == phase_of(before.code)
                &&& e.kind matches PhasedErrorKind::CannotCallOutOfReadPhase(text) && text@
                    == method_text(before.data_type, method)
                &&& e.source is None
            },
        }
    } else {
        &&& after == (if before.read == Read::Graceful {
            PhasedLockState {
                read_count: if before.read_count == usize::MAX {
                    0
                } else {
                    (before.read_count + 1) as usize
                },
                ..before
            }
        } else {
            before
        })
        &&& match (before.fixed, result) {
            (Some(expected), Ok(data)) => *data == expected,
            (None, Err(e)) => e == lock_error::<()>(
                Phase::Read,
                PhasedErrorKind::InternalDataIsEmpty,
            ),
            _ => false,
        }
    }
}

impl<T: Send + Sync> PhasedLock<T> {
    /// The data is in the place that the strategy for `Setup` asks for, and nowhere else.
    pub open spec fn wf(&self) -> bool {
        &&& self@.setup == Setup::Unlock <==> self@.fixed is Some
        &&& self@.setup == Setup::Blocking <==> self@.std is Some
        &&& self@.setup == Setup::NonBlocking <==> self@.tokio is Some
    }

    /// Creates a new lock in the `Setup` phase, with its strategies for locking.
    ///
    /// `data_type` names the type of the data in error messages.
    pub fn new(
        data: T,
        data_type: &'static str,
        locking_of_setup: Setup,
        locking_of_read: Read,
        locking_of_cleanup: Cleanup,
    ) -> (lock: Self)
        ensures
            lock.wf(),
            lock@ == (PhasedLockState {
                data_type: data_type@,
                setup: locking_of_setup,
                read: locking_of_read,
                cleanup: locking_of_cleanup,
                code: PHASE_SETUP,
                read_count: 0,
                fixed: if locking_of_setup == Setup::Unlock {
                    Some(data)
                } else {
                    None
                },
                std: if locking_of_setup == Setup::Blocking {
                    Some(data)
                } else {
                    None
                },
                tokio: if locking_of_setup == Setup::NonBlocking {
                    Some(data)
                } else {
                    None
                },
            }),
    {
        let flags: u8 = PHASE_SETUP;
        let mut data_fixed: Option<T> = None;
        let mut data_std: Option<T> = None;
        let mut data_tokio: Option<T> = None;

        let setup_bits: u8 = match locking_of_setup {
            Setup::Unlock => {
                data_fixed = Some(data);
                LOCKING_SETUP_UNLOCK
            },
            Setup::Blocking => {
                data_std = Some(data);
                LOCKING_SETUP_BLOCKING
            },
            Setup::NonBlocking => {
                data_tokio = Some(data);
                LOCKING_SETUP_NON_BLOCKING
            },
        };
        let read_bits: u8 = match locking_of_read {
            Read::Fast => LOCKING_READ_FAST,
            Read::Graceful => LOCKING_READ_GRACEFUL,
        };
        let cleanup_bits: u8 = match locking_of_cleanup {
            Cleanup::Unlock => LOCKING_CLEANUP_UNLOCK,
            Cleanup::Blocking => LOCKING_CLEANUP_BLOCKING,
            Cleanup::NonBlocking => LOCKING_CLEANUP_NON_BLOCKING,
        };
        let setup_flags: u8 = set_locking_of_setup_to_u8(flags, setup_bits);
        let read_flags: u8 = set_locking_of_read_to_u8(setup_flags, read_bits);
        let all_flags: u8 = set_locking_of_cleanup_to_u8(read_flags, cleanup_bits);
        proof {
            lemma_strategy_bits();
            law_setup_reads_back(flags, setup_flags, setup_bits);
            law_read_reads_back(setup_flags, read_flags, read_bits);
            law_cleanup_reads_back(read_flags, all_flags, cleanup_bits);
            lemma_code_is_unchanged(flags, setup_flags, U8_TO_LOCKING_SETUP);
            lemma_code_is_unchanged(setup_flags, read_flags, U8_TO_LOCKING_READ);
            lemma_code_is_unchanged(read_flags, all_flags, U8_TO_LOCKING_CLEANUP);
        }

        Self { data_type, flags: all_flags, read_count: 0, data_fixed, data_std, data_tokio }
    }

    /// Returns the current phase of the lock with relaxed memory ordering.
    ///
    /// One that owns the lock sees the same with any memory ordering.
    pub fn phase(&self) -> (phase: Phase)
        ensures
            phase == phase_of(self@.code),
    {
        u8_to_phase(self.flags)
    }

    /// Returns the current phase of the lock.
    pub fn phase_exact(&self) -> (phase: Phase)
        ensures
            phase == phase_of(self@.code),
    {
        u8_to_phase(self.flags)
    }

    /// Moves the lock on to another phase code, as the lifecycle allows it.
    pub fn set_phase_code(&mut self, phase_code: u8)
        requires
            is_phase_code(phase_code),
            code_step(old(self)@.code, phase_code),
        ensures
            old(self).wf() ==> final(self).wf(),
            leads_to(old(self)@.moment(), final(self)@.moment()),
            rests(old(self)@.moment(), final(self)@.moment()),
            final(self)@ == (PhasedLockState { code: phase_code, ..old(self)@ }),
    {
        let ghost flags = self.flags;
        self.flags = set_phase_code_to_u8(self.flags, phase_code);
        proof {
            law_phase_reads_back(flags, self.flags, phase_code);
            assert(phase_code <= 5 ==> phase_code & U8_TO_PHASE == phase_code) by (bit_vector);
        }
    }

    /// Returns a reference to the data in the `Read` phase, with relaxed memory ordering.
    pub fn read_fast(&mut self) -> (result: Result<&T, PhasedError>)
        ensures
            old(self).wf() ==> final(self).wf(),
            leads_to(old(self)@.moment(), final(self)@.moment()),
            rests(old(self)@.moment(), final(self)@.moment()),
            is_flagged_read(old(self)@, "read_fast"@, final(self)@, result),
    {
        self.read_by("read_fast")
    }

    /// Returns a reference to the data in the `Read` phase.
    pub fn read_exact(&mut self) -> (result: Result<&T, PhasedError>)
        ensures
            old(self).wf() ==> final(self).wf(),
            leads_to(old(self)@.moment(), final(self)@.moment()),
            rests(old(self)@.moment(), final(self)@.moment()),
            is_flagged_read(old(self)@, "read_exact"@, final(self)@, result),
    {
        self.read_by("read_exact")
    }

    /// Returns a reference to the data in the `Read` phase, to one that calls `method`.
    fn read_by(&mut self, method: &str) -> (result: Result<&T, PhasedError>)
        ensures
            old(self).wf() ==> final(self).wf(),
            is_flagged_read(old(self)@, method@, final(self)@, result),
    {
        let phase_code: u8 = self.flags & U8_TO_PHASE;
        if phase_code != PHASE_READ {
            return Err(
                PhasedError::new(
                    u8_to_phase(self.flags),
                    PhasedErrorKind::CannotCallOutOfReadPhase(method_name(self.data_type, method)),
                ),
            );
        }
        if u8_to_locking_of_read(self.flags) == Read::Graceful {
            self.read_count = self.read_count.wrapping_add(1);
        }
        match &self.data_fixed {
            Some(data) => Ok(data),
            None => Err(
                PhasedError::new(u8_to_phase(self.flags), PhasedErrorKind::InternalDataIsEmpty),
            ),
        }
    }
}

/// Each strategy reads back from its own bits.
proof fn lemma_strategy_bits()
    ensures
        setup_of_flags(LOCKING_SETUP_UNLOCK) == Setup::Unlock,
        setup_of_flags(LOCKING_SETUP_BLOCKING) == Setup::Blocking,
        setup_of_flags(LOCKING_SETUP_NON_BLOCKING) == Setup::NonBlocking,
        read_of_flags(LOCKING_READ_FAST) == Read::Fast,
        read_of_flags(LOCKING_READ_GRACEFUL) == Read::Graceful,
        cleanup_of_flags(LOCKING_CLEANUP_UNLOCK) == Cleanup::Unlock,
        cleanup_of_flags(LOCKING_CLEANUP_BLOCKING) == Cleanup::Blocking,
        cleanup_of_flags(LOCKING_CLEANUP_NON_BLOCKING) == Cleanup::NonBlocking,
{
    assert({
        &&& LOCKING_SETUP_UNLOCK & U8_TO_LOCKING_SETUP == LOCKING_SETUP_UNLOCK
        &&& LOCKING_SETUP_BLOCKING & U8_TO_LOCKING_SETUP == LOCKING_SETUP_BLOCKING
        &&& LOCKING_SETUP_NON_BLOCKING & U8_TO_LOCKING_SETUP == LOCKING_SETUP_NON_BLOCKING
        &&& LOCKING_READ_FAST & U8_TO_LOCKING_READ == LOCKING_READ_FAST
        &&& LOCKING_READ_GRACEFUL & U8_TO_LOCKING_READ == LOCKING_READ_GRACEFUL
        &&& LOCKING_CLEANUP_UNLOCK & U8_TO_LOCKING_CLEANUP == LOCKING_CLEANUP_UNLOCK
        &&& LOCKING_CLEANUP_BLOCKING & U8_TO_LOCKING_CLEANUP == LOCKING_CLEANUP_BLOCKING
        &&& LOCKING_CLEANUP_NON_BLOCKING & U8_TO_LOCKING_CLEANUP == LOCKING_CLEANUP_NON_BLOCKING
    }) by (bit_vector);
}

/// Packing a strategy leaves the phase code as it is.
proof fn lemma_code_is_unchanged(flags: u8, new_flags: u8, mask: u8)
    requires
        new_flags & !mask == flags & !mask,
        mask == U8_TO_LOCKING_SETUP || mask == U8_TO_LOCKING_READ || mask == U8_TO_LOCKING_CLEANUP,
    ensures
        new_flags & U8_TO_PHASE == flags & U8_TO_PHASE,
        PHASE_SETUP & U8_TO_PHASE == PHASE_SETUP,
{
    assert(new_flags & !mask == flags & !mask && (mask == U8_TO_LOCKING_SETUP || mask
        == U8_TO_LOCKING_READ || mask == U8_TO_LOCKING_CLEANUP) ==> new_flags & U8_TO_PHASE
        == flags & U8_TO_PHASE) by (bit_vector);
    assert(PHASE_SETUP & U8_TO_PHASE == PHASE_SETUP) by (bit_vector);
}

} // verus!
