//! Waking tasks that wait.

use vstd::prelude::*;

verus! {

/// `tokio::sync::Notify`, through which tasks wait to be woken.
#[verifier::external_type_specification]
#[verifier::external_body]
pub struct ExNotify(tokio::sync::Notify);

/// `tokio::sync::Notify::new`: one on which nobody waits yet. Nothing is claimed
/// of the value it returns.
pub assume_specification[ tokio::sync::Notify::new ]() -> (notify: tokio::sync::Notify)
;

/// `tokio::sync::Notify::notify_waiters`: wakes every task that waits. It returns
/// nothing, and nothing is claimed of what it does to other tasks.
pub assume_specification[ tokio::sync::Notify::notify_waiters ](notify: &tokio::sync::Notify)
;

/// `tokio::sync::Notify::notify_one`: wakes one task that waits, or the next one that
/// will. It returns nothing, and nothing is claimed of what it does to other tasks.
pub assume_specification[ tokio::sync::Notify::notify_one ](notify: &tokio::sync::Notify)
;

/// How often a bell has been rung.
pub struct Rings {
    /// How often it was rung for every task that waits.
    pub all: nat,
    /// How often it was rung for one task.
    pub one: nat,
}

/// The means to wake tasks that wait, which keeps count of its uses.
///
/// What follows from a ring for the tasks is up to the runtime that they run on.
pub struct Bell {
    notify: tokio::sync::Notify,
    rings: Ghost<Rings>,
}

impl View for Bell {
    type V = Rings;

    closed spec fn view(&self) -> Rings {
        self.rings@
    }
}

impl Bell {
    /// Creates a bell that has not been rung.
    pub fn new() -> (bell: Self)
        ensures
            bell@ == (Rings { all: 0, one: 0 }),
    {
        Self { notify: tokio::sync::Notify::new(), rings: Ghost(Rings { all: 0, one: 0 }) }
    }

    /// Wakes every task that waits.
    pub fn ring_for_all(&mut self)
        ensures
            final(self)@ == (Rings { all: old(self)@.all + 1, ..old(self)@ }),
    {
        self.notify.notify_waiters();
        self.rings = Ghost(Rings { all: self.rings@.all + 1, ..self.rings@ });
    }

    /// Wakes one task that waits, or the next one that will.
    pub fn ring_for_one(&mut self)
        ensures
            final(self)@ == (Rings { one: old(self)@.one + 1, ..old(self)@ }),
    {
        self.notify.notify_one();
        self.rings = Ghost(Rings { one: self.rings@.one + 1, ..self.rings@ });
    }
}

} // verus!
