//! The probe-then-fill protocol by which the adapter table is obtained, as a
//! state machine.
//!
//! The caller performs the calls into the operating system and reports what
//! came back as an [`Event`]; [`step`] decides what happens next. The machine
//! also follows the one memory block that the protocol takes, from the moment
//! the heap hands it out to the moment it is given back.

use vstd::prelude::*;

use crate::abi::{OsError, ERROR_BUFFER_OVERFLOW, ERROR_SUCCESS};

verus! {

/// Where an acquisition stands.
#[derive(Clone, Copy, Debug, PartialEq, Eq, Structural)]
pub enum Phase {
    /// The size probe is under way: the enumeration call was made with no
    /// buffer and a length of zero.
    Probing,
    /// The system asked for `size` bytes, and the heap has been asked for them.
    Allocating { size: u32 },
    /// A block of `size` bytes is held, and the enumeration call was made on it.
    Filling { size: u32 },
    /// The block holds the complete table and belongs to the handle.
    Holding,
    /// The system has no adapters. No block was ever taken.
    Empty,
    /// The system refused a call with `status`. No block is held.
    Failed { status: u32 },
    /// The handle has reached the end of its life and its block was given back.
    Released,
    /// The heap had no block to give.
    OutOfMemory,
}

/// What the caller reports to the machine.
#[derive(Clone, Copy, Debug, PartialEq, Eq, Structural)]
pub enum Event {
    /// The enumeration call of the size probe returned `status` and left
    /// `size` in its length argument.
    ProbeReturned { status: u32, size: u32 },
    /// The heap handed out the block that was asked for.
    Allocated,
    /// The heap handed out nothing.
    AllocationFailed,
    /// The enumeration call on the block returned `status`.
    FillReturned { status: u32 },
    /// The owner of the handle let go of it.
    Dropped,
}

/// What the caller has to do next.
#[derive(Clone, Copy, Debug, PartialEq, Eq, Structural)]
pub enum Action {
    /// Make the enumeration call with no buffer and a length of zero, to
    /// learn the size that the table needs.
    Probe,
    /// Ask the process heap for a block of exactly `size` bytes.
    Allocate { size: u32 },
    /// Make the enumeration call on the block, with `size` as its length.
    Fill { size: u32 },
    /// Give the block back to the heap.
    Release,
    /// Give up: running out of memory is fatal.
    Abort,
    /// Nothing is asked of the operating system.
    Nothing,
}

/// The phase that follows `phase` on `event`, and the action that goes with
/// the change. An event that does not belong to the phase changes nothing.
pub open spec fn transition(phase: Phase, event: Event) -> (Phase, Action) {
    match (phase, event) {
        (Phase::Probing, Event::ProbeReturned { status, size }) => {
            if status == ERROR_SUCCESS {
                (Phase::Empty, Action::Nothing)
            } else if status == ERROR_BUFFER_OVERFLOW {
                (Phase::Allocating { size }, Action::Allocate { size })
            } else {
                (Phase::Failed { status }, Action::Nothing)
            }
        },
        (Phase::Allocating { size }, Event::Allocated) => (
            Phase::Filling { size },
            Action::Fill { size },
        ),
        (Phase::Allocating { size }, Event::AllocationFailed) => (
            Phase::OutOfMemory,
            Action::Abort,
        ),
        (Phase::Filling { size }, Event::FillReturned { status }) => {
            if status == ERROR_SUCCESS {
                (Phase::Holding, Action::Nothing)
            } else {
                (Phase::Failed { status }, Action::Release)
            }
        },
        (Phase::Holding, Event::Dropped) => (Phase::Released, Action::Release),
        _ => (phase, Action::Nothing),
    }
}

/// Whether a block is in the protocol's hands in `phase`.
pub open spec fn holds_block(phase: Phase) -> bool {
    phase is Filling || phase is Holding
}

/// Whether the protocol has come to rest in `phase`: nothing more will be
/// asked of the operating system.
pub open spec fn is_final(phase: Phase) -> bool {
    phase is Empty || phase is Failed || phase is Released || phase is OutOfMemory
}

/// The phase reached from `phase` after `events`, in order.
pub open spec fn run(phase: Phase, events: Seq<Event>) -> Phase
    decreases events.len(),
{
    if events.len() == 0 {
        phase
    } else {
        run(transition(phase, events[0]).0, events.drop_first())
    }
}

/// How many blocks the heap hands to the protocol on the way from `phase`
/// through `events`.
pub open spec fn blocks_taken(phase: Phase, events: Seq<Event>) -> nat
    decreases events.len(),
{
    if events.len() == 0 {
        0
    } else {
        let (next, action) = transition(phase, events[0]);
        let taken: nat = if action is Fill { 1 } else { 0 };
        taken + blocks_taken(next, events.drop_first())
    }
}

/// How many times the protocol asks for the block to be given back on the
/// way from `phase` through `events`.
pub open spec fn releases(phase: Phase, events: Seq<Event>) -> nat
    decreases events.len(),
{
    if events.len() == 0 {
        0
    } else {
        let (next, action) = transition(phase, events[0]);
        let released: nat = if action is Release { 1 } else { 0 };
        released + releases(next, events.drop_first())
    }
}

/// Starts an acquisition: the size probe is the first thing to do.
pub fn start() -> (r: (Phase, Action))
    ensures
        r == (Phase::Probing, Action::Probe),
{
    (Phase::Probing, Action::Probe)
}

/// Takes `event` in `phase`: returns the next phase and what the caller has
/// to do now.
pub fn step(phase: Phase, event: Event) -> (r: (Phase, Action))
    ensures
        r == transition(phase, event),
{
    match phase {
        Phase::Probing => match event {
            Event::ProbeReturned { status, size } => {
                if status == ERROR_SUCCESS {
                    (Phase::Empty, Action::Nothing)
                } else if status == ERROR_BUFFER_OVERFLOW {
                    (Phase::Allocating { size }, Action::Allocate { size })
                } else {
                    (Phase::Failed { status }, Action::Nothing)
                }
            },
            _ => (phase, Action::Nothing),
        },
        Phase::Allocating { size } => match event {
            Event::Allocated => (Phase::Filling { size }, Action::Fill { size }),
            Event::AllocationFailed => (Phase::OutOfMemory, Action::Abort),
            _ => (phase, Action::Nothing),
        },
        Phase::Filling { size: _ } => match event {
            Event::FillReturned { status } => {
                if status == ERROR_SUCCESS {
                    (Phase::Holding, Action::Nothing)
                } else {
                    (Phase::Failed { status }, Action::Release)
                }
            },
            _ => (phase, Action::Nothing),
        },
        Phase::Holding => match event {
            Event::Dropped => (Phase::Released, Action::Release),
            _ => (phase, Action::Nothing),
        },
        _ => (phase, Action::Nothing),
    }
}

/// What an acquisition hands to its caller once it has come to rest.
#[derive(Clone, Copy, Debug, PartialEq, Eq, Structural)]
pub enum Outcome {
    /// The system has no adapters: the table is empty.
    Empty,
    /// The block holds the table.
    Table,
}

/// The result of an acquisition that stands in `phase`, if it has one yet.
pub open spec fn outcome_of(phase: Phase) -> Option<Result<Outcome, OsError>> {
    match phase {
        Phase::Empty => Some(Ok(Outcome::Empty)),
        Phase::Holding => Some(Ok(Outcome::Table)),
        Phase::Failed { status } => Some(Err(OsError { status })),
        _ => None,
    }
}

/// The result of an acquisition that stands in `phase`: an empty table, the
/// table in the block, or the failure with the status that the system gave.
/// `None` while calls are still outstanding, and once the handle is gone.
pub fn outcome(phase: Phase) -> (r: Option<Result<Outcome, OsError>>)
    ensures
        r == outcome_of(phase),
{
    match phase {
        Phase::Empty => Some(Ok(Outcome::Empty)),
        Phase::Holding => Some(Ok(Outcome::Table)),
        Phase::Failed { status } => Some(Err(OsError { status })),
        _ => None,
    }
}

/// Empty success: when the size probe succeeds, the system has no adapters.
/// The acquisition is then at rest at once, its result is the empty table
/// and no failure, the heap is asked for nothing, and whatever is reported
/// afterwards, nothing is ever given back.
pub proof fn lemma_empty_success(size: u32, later: Seq<Event>)
    ensures
        transition(Phase::Probing, Event::ProbeReturned { status: ERROR_SUCCESS, size }) == (
            Phase::Empty,
            Action::Nothing,
        ),
        outcome_of(Phase::Empty) == Some(Ok::<Outcome, OsError>(Outcome::Empty)),
        run(Phase::Empty, later) == Phase::Empty,
        blocks_taken(Phase::Empty, later) == 0,
        releases(Phase::Empty, later) == 0,
{
    lemma_final_stays(Phase::Empty, later);
    lemma_takes_at_most_one(Phase::Empty, later);
    lemma_blocks_conserved(Phase::Empty, later);
}

/// One step keeps the books: a block that is held before the step, or taken
/// by it, is either held after it or given back by it.
proof fn lemma_step_conserves(phase: Phase, event: Event)
    ensures
        ({
            let (next, action) = transition(phase, event);
            (if holds_block(phase) { 1int } else { 0 }) + (if action is Fill { 1int } else { 0 })
                == (if action is Release { 1int } else { 0 }) + (if holds_block(next) { 1int } else { 0 })
        }),
{
}

/// Over any events, blocks held at the start or taken on the way are held
/// at the end or were given back.
pub proof fn lemma_blocks_conserved(phase: Phase, events: Seq<Event>)
    ensures
        (if holds_block(phase) { 1int } else { 0 }) + blocks_taken(phase, events) == releases(
            phase,
            events,
        ) + (if holds_block(run(phase, events)) { 1int } else { 0 }),
    decreases events.len(),
{
    if events.len() > 0 {
        lemma_step_conserves(phase, events[0]);
        lemma_blocks_conserved(transition(phase, events[0]).0, events.drop_first());
    }
}

/// A block is taken at most once, and only before the fill call.
pub proof fn lemma_takes_at_most_one(phase: Phase, events: Seq<Event>)
    ensures
        blocks_taken(phase, events) <= 1,
        !(phase is Probing || phase is Allocating) ==> blocks_taken(phase, events) == 0,
    decreases events.len(),
{
    if events.len() > 0 {
        lemma_takes_at_most_one(transition(phase, events[0]).0, events.drop_first());
    }
}

/// As long as the fill call has not been made, no block was taken.
proof fn lemma_before_fill_takes_nothing(phase: Phase, events: Seq<Event>)
    requires
        run(phase, events) is Probing || run(phase, events) is Allocating,
    ensures
        phase is Probing || phase is Allocating,
        blocks_taken(phase, events) == 0,
    decreases events.len(),
{
    if events.len() > 0 {
        lemma_before_fill_takes_nothing(transition(phase, events[0]).0, events.drop_first());
    }
}

/// The empty phase is reached from the probe alone, before any block is taken.
proof fn lemma_empty_takes_nothing(phase: Phase, events: Seq<Event>)
    requires
        run(phase, events) is Empty,
    ensures
        phase is Probing || phase is Empty,
        blocks_taken(phase, events) == 0,
    decreases events.len(),
{
    if events.len() > 0 {
        lemma_empty_takes_nothing(transition(phase, events[0]).0, events.drop_first());
    }
}

/// The released phase is reached only with a block in hand or still to come.
proof fn lemma_released_took_one(phase: Phase, events: Seq<Event>)
    requires
        run(phase, events) is Released,
        phase is Probing || phase is Allocating,
    ensures
        blocks_taken(phase, events) == 1,
    decreases events.len(),
{
    if events.len() > 0 {
        let next = transition(phase, events[0]).0;
        let rest = events.drop_first();
        if next is Probing || next is Allocating {
            lemma_released_took_one(next, rest);
        } else if next is Filling {
            lemma_takes_at_most_one(next, rest);
        } else {
            lemma_final_stays(next, rest);
        }
    }
}

/// A phase at rest is never left.
proof fn lemma_final_stays(phase: Phase, events: Seq<Event>)
    requires
        is_final(phase),
    ensures
        run(phase, events) == phase,
    decreases events.len(),
{
    if events.len() > 0 {
        lemma_final_stays(phase, events.drop_first());
    }
}

/// Single release: over the whole life of an acquisition, whatever the
/// operating system answers, the block is given back at most once; not while
/// it is in use; exactly once when a handle that held a table has been
/// dropped; never for an empty table; and at rest every block that was taken
/// has been given back, on the failure path as well.
pub proof fn lemma_single_release(events: Seq<Event>)
    ensures
        releases(Phase::Probing, events) <= 1,
        !is_final(run(Phase::Probing, events)) ==> releases(Phase::Probing, events) == 0,
        run(Phase::Probing, events) is Released ==> releases(Phase::Probing, events) == 1,
        run(Phase::Probing, events) is Empty ==> releases(Phase::Probing, events) == 0,
        is_final(run(Phase::Probing, events)) ==> releases(Phase::Probing, events) == blocks_taken(
            Phase::Probing,
            events,
        ),
{
    lemma_blocks_conserved(Phase::Probing, events);
    lemma_takes_at_most_one(Phase::Probing, events);
    let last = run(Phase::Probing, events);
    if last is Probing || last is Allocating {
        lemma_before_fill_takes_nothing(Phase::Probing, events);
    }
    if last is Empty {
        lemma_empty_takes_nothing(Phase::Probing, events);
    }
    if last is Released {
        lemma_released_took_one(Phase::Probing, events);
    }
}

} // verus!
