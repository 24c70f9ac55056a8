//! The two places in which a cell with a mutex keeps its data.

use crate::phase::{
    PHASE_READ, PHASE_READ_TO_CLEANUP, PHASE_SETUP, PHASE_SETUP_TO_CLEANUP, PHASE_SETUP_TO_READ,
};
use crate::transition::is_brought_back;
use vstd::prelude::*;

verus! {

/// The two places of the data: behind the mutex, where it can be changed, and in
/// the cell, where it is open for reading without a lock.
pub struct Slots<T> {
    /// What the mutex guards.
    pub mutex: Option<T>,
    /// What is open for reading.
    pub cell: Option<T>,
}

impl<T> Slots<T> {
    /// The data is in exactly one of the two places.
    pub open spec fn stored_once(self) -> bool {
        self.mutex is Some <==> self.cell is None
    }

    /// The data, wherever it is.
    pub open spec fn data(self) -> T
        recommends
            self.stored_once(),
    {
        match self.mutex {
            Some(data) => data,
            None => self.cell->0,
        }
    }

    /// The two places with their contents exchanged.
    pub open spec fn swapped(self) -> Slots<T> {
        Slots { mutex: self.cell, cell: self.mutex }
    }

    /// The two places as one finds them that holds the mutex at `code`: data that a transition
    /// to `Cleanup` left in the cell is brought back.
    pub open spec fn held(self, code: u8) -> Slots<T> {
        if is_brought_back(code, self.mutex is Some) {
            self.swapped()
        } else {
            self
        }
    }

    /// The data that a transition to `Cleanup` works on that lasts at `code`.
    pub open spec fn cleaned(self, code: u8) -> Option<T> {
        if code == PHASE_READ_TO_CLEANUP {
            self.cell
        } else {
            self.mutex
        }
    }

    /// The two places once that transition has worked on the data and left it as `data`.
    pub open spec fn after_cleanup(self, code: u8, data: T) -> Slots<T> {
        if code == PHASE_READ_TO_CLEANUP {
            Slots { mutex: Some(data), cell: self.mutex }
        } else {
            Slots { mutex: Some(data), cell: self.cell }
        }
    }

    /// The two places once a transition to `Read` has worked on the data, left it
    /// as `data`, and succeeded or not.
    pub open spec fn after_read(self, succeeds: bool, data: T) -> Slots<T> {
        if succeeds {
            Slots { mutex: self.cell, cell: Some(data) }
        } else {
            Slots { mutex: Some(data), cell: self.cell }
        }
    }

    /// The data is where the phase code says: open for reading in `Read` and on
    /// the way from there to `Cleanup`, behind the mutex before that, and in one
    /// of the two places in `Cleanup`.
    pub open spec fn placed(self, code: u8) -> bool {
        &&& self.stored_once()
        &&& (code == PHASE_READ || code == PHASE_READ_TO_CLEANUP) ==> self.cell is Some
        &&& (code == PHASE_SETUP || code == PHASE_SETUP_TO_READ || code == PHASE_SETUP_TO_CLEANUP)
            ==> self.mutex is Some
    }

    /// Exchanges the contents of the two places.
    pub fn swap(&mut self)
        ensures
            *final(self) == old(self).swapped(),
    {
        core::mem::swap(&mut self.mutex, &mut self.cell);
    }
}

} // verus!
