# setup_read_cleanup

Cells and locks for data that is set up once, read for a while, and cleaned up
in the end, verified with Verus.

A phased cell takes its data through three phases:

- `Setup`: the data can be changed, to initialise it.
- `Read`: the data can only be read, without a lock.
- `Cleanup`: the data can be changed again, to take it apart.

A cell moves forward only, and each transition runs a closure on the data. A
graceful cell counts its readers and waits for them before it is cleaned up.

## Layout

- `src/phase.rs`, `src/errors.rs`, `src/locking.rs`, `src/time.rs`: the phases and
  their codes, the errors and their texts, the strategies for locking, durations.
- `src/transition.rs`: what a cell decides, as functions of plain values.
- `src/slots.rs`, `src/guards.rs`: the two places of the data of a cell with a
  mutex, and the guards that give access to it.
- `src/phased_cell.rs`, `src/phased_cell_sync.rs`, `src/phased_cell_async.rs`: the
  cells.
- `src/graceful/`: the cells that wait for their readers, the waits themselves,
  and the laws of both.
- `src/wait.rs`: pauses before a cleanup.
- `src/lock/`: the locks, and `src/flags.rs` and `src/lockings.rs`, the packing of
  their strategies.
- `src/lifecycle.rs`: what holds over the whole life of a cell or a lock.
- `src/bell.rs`: waking tasks that wait.
- `app/`: the same cells and locks shared between threads and tasks. They take the
  steps of transitions and waits, and their errors, from the library, and add
  atomics, mutexes, waiting, awaiting and unwinding, none of which is verified.
- `tests/`: the tests of the library.

## How a cell is verified

The cells of the library are state machines. A transition takes two steps, in
between which the cell is in transition and any other operation can come. Each
operation states its result and the next state exactly, and that it moves the
cell along the lifecycle; `src/lifecycle.rs` proves from that what holds of
every history. Inside `app/`, the steps are taken atomically by many callers.

What the library takes on trust is a few functions of the standard library and
of `tokio`: each has a doc comment that says what is claimed of it.
