//! Abstract lifecycle of one session attachment.
//!
//! The binder keeps a session's state alive with a reference count: one
//! persistent unit created when the state is attached, plus one transient unit
//! for every borrow a callback takes.  Counter updates made by concurrent
//! callbacks are atomic, so every execution is some interleaving of the four
//! events below.  This module models the attachment as a transition system
//! over those events and proves, for every valid event sequence, that the
//! state is never freed while a unit is outstanding and that it is freed
//! exactly once when the count drains to zero after teardown.

use vstd::prelude::*;

verus! {

/// One atomic event in the life of a session attachment.
#[derive(Debug, Copy, Clone, PartialEq, Eq, Structural)]
pub enum SessionEvent {
    /// The state is created and attached; the persistent unit comes to be.
    Establish,
    /// A callback takes one counted borrow of the shared wrapper.
    Acquire,
    /// One counted borrow is given back.
    Release,
    /// The host declares the session gone; the persistent unit is given back.
    Teardown,
}

/// Abstract state of one attachment slot.
pub struct LifecycleState {
    /// Whether `Establish` has happened.
    pub established: bool,
    /// Whether the persistent ownership unit is still outstanding.
    pub persistent: bool,
    /// How many counted borrows are outstanding.
    pub borrows: nat,
    /// Whether the wrapper and its state have been destroyed.
    pub freed: bool,
}

impl LifecycleState {
    /// The state before anything has happened to the slot.
    pub open spec fn initial() -> LifecycleState {
        LifecycleState { established: false, persistent: false, borrows: 0, freed: false }
    }

    /// Total number of outstanding ownership units.
    pub open spec fn ref_count(self) -> nat {
        self.borrows + if self.persistent {
            1nat
        } else {
            0nat
        }
    }

    /// Established and not yet torn down.
    pub open spec fn attached(self) -> bool {
        self.established && self.persistent
    }

    /// Established and torn down (borrows may still be outstanding).
    pub open spec fn torn_down(self) -> bool {
        self.established && !self.persistent
    }
}

/// Which events the binder's contract permits in a given state.
pub open spec fn enabled(s: LifecycleState, e: SessionEvent) -> bool {
    match e {
        SessionEvent::Establish => !s.established,
        SessionEvent::Acquire => s.attached(),
        SessionEvent::Release => s.borrows > 0,
        SessionEvent::Teardown => s.attached(),
    }
}

/// Effect of one event.  The decrement that brings the reference count to
/// zero is the one that destroys the wrapper.
pub open spec fn step(s: LifecycleState, e: SessionEvent) -> LifecycleState {
    match e {
        SessionEvent::Establish => LifecycleState {
            established: true,
            persistent: true,
            borrows: 0,
            freed: false,
        },
        SessionEvent::Acquire => LifecycleState {
            established: s.established,
            persistent: s.persistent,
            borrows: s.borrows + 1,
            freed: s.freed,
        },
        SessionEvent::Release => {
            let dropped = LifecycleState {
                established: s.established,
                persistent: s.persistent,
                borrows: (s.borrows - 1) as nat,
                freed: s.freed,
            };
            if dropped.ref_count() == 0 {
                LifecycleState { freed: true, ..dropped }
            } else {
                dropped
            }
        },
        SessionEvent::Teardown => {
            let dropped = LifecycleState {
                established: s.established,
                persistent: false,
                borrows: s.borrows,
                freed: s.freed,
            };
            if dropped.ref_count() == 0 {
                LifecycleState { freed: true, ..dropped }
            } else {
                dropped
            }
        },
    }
}

/// The state after running a whole event sequence.
pub open spec fn run(s: LifecycleState, es: Seq<SessionEvent>) -> LifecycleState
    decreases es.len(),
{
    if es.len() == 0 {
        s
    } else {
        run(step(s, es[0]), es.subrange(1, es.len() as int))
    }
}

/// Every event of the sequence is permitted in the state it meets.
pub open spec fn valid_run(s: LifecycleState, es: Seq<SessionEvent>) -> bool
    decreases es.len(),
{
    es.len() == 0 || (enabled(s, es[0]) && valid_run(step(s, es[0]), es.subrange(1, es.len() as int)))
}

/// How many steps of the sequence destroy the wrapper.
pub open spec fn frees(s: LifecycleState, es: Seq<SessionEvent>) -> nat
    decreases es.len(),
{
    if es.len() == 0 {
        0nat
    } else {
        (if !s.freed && step(s, es[0]).freed {
            1nat
        } else {
            0nat
        }) + frees(step(s, es[0]), es.subrange(1, es.len() as int))
    }
}

/// How many times a given event occurs in the sequence.
pub open spec fn occurrences(es: Seq<SessionEvent>, e: SessionEvent) -> nat
    decreases es.len(),
{
    if es.len() == 0 {
        0nat
    } else {
        (if es[0] == e {
            1nat
        } else {
            0nat
        }) + occurrences(es.subrange(1, es.len() as int), e)
    }
}

/// Invariant of every reachable state: destruction happens only after
/// teardown, with no borrow outstanding; and once the count of a torn-down
/// attachment drains, destruction has indeed happened.
pub open spec fn inv(s: LifecycleState) -> bool {
    &&& s.freed ==> s.torn_down() && s.borrows == 0
    &&& s.persistent ==> s.established
    &&& s.borrows > 0 ==> s.established
    &&& s.torn_down() && s.borrows == 0 ==> s.freed
}

/// Once freed, no event is permitted any more: the slot is terminal.
pub proof fn lemma_freed_is_terminal(s: LifecycleState, e: SessionEvent)
    requires
        inv(s),
        s.freed,
    ensures
        !enabled(s, e),
{
}

/// The invariant holds before anything has happened to the slot.
pub proof fn lemma_initial_inv()
    ensures
        inv(LifecycleState::initial()),
{
}

/// Every permitted event preserves the invariant.
pub proof fn lemma_step_preserves_inv(s: LifecycleState, e: SessionEvent)
    requires
        inv(s),
        enabled(s, e),
    ensures
        inv(step(s, e)),
{
}

/// Every valid event sequence preserves the invariant.
pub proof fn lemma_run_preserves_inv(s: LifecycleState, es: Seq<SessionEvent>)
    requires
        inv(s),
        valid_run(s, es),
    ensures
        inv(run(s, es)),
    decreases es.len(),
{
    if es.len() > 0 {
        lemma_step_preserves_inv(s, es[0]);
        lemma_run_preserves_inv(step(s, es[0]), es.subrange(1, es.len() as int));
    }
}

/// No premature free: along any valid event sequence, while a counted borrow
/// or the persistent unit is still outstanding, the wrapper has not been
/// destroyed — in any interleaving.
pub proof fn lemma_no_premature_free(s: LifecycleState, es: Seq<SessionEvent>)
    requires
        inv(s),
        valid_run(s, es),
        run(s, es).ref_count() > 0,
    ensures
        !run(s, es).freed,
{
    lemma_run_preserves_inv(s, es);
}

/// Destruction happens at most once along any valid event sequence, and
/// exactly once on one that ends with the wrapper destroyed: the step whose
/// decrement drains the count is the only one that frees.
pub proof fn lemma_exactly_once_destruction(s: LifecycleState, es: Seq<SessionEvent>)
    requires
        inv(s),
        valid_run(s, es),
    ensures
        frees(s, es) == if run(s, es).freed && !s.freed {
            1nat
        } else {
            0nat
        },
    decreases es.len(),
{
    if es.len() > 0 {
        let s1 = step(s, es[0]);
        let rest = es.subrange(1, es.len() as int);
        lemma_step_preserves_inv(s, es[0]);
        lemma_exactly_once_destruction(s1, rest);
        if s.freed {
            lemma_freed_is_terminal(s, es[0]);
        } else if s1.freed {
            lemma_freed_stays(s1, rest);
        }
    }
}

/// A destroyed attachment stays destroyed: no further event is valid.
proof fn lemma_freed_stays(s: LifecycleState, es: Seq<SessionEvent>)
    requires
        inv(s),
        s.freed,
        valid_run(s, es),
    ensures
        run(s, es).freed,
{
    if es.len() > 0 {
        lemma_freed_is_terminal(s, es[0]);
    }
}

/// A torn-down attachment whose borrows have all been given back has been
/// destroyed; together with `lemma_exactly_once_destruction`, any number of
/// acquire/release cycles followed by one teardown destroys the state
/// exactly once.
pub proof fn lemma_drained_is_freed(s: LifecycleState, es: Seq<SessionEvent>)
    requires
        inv(s),
        valid_run(s, es),
        run(s, es).torn_down(),
        run(s, es).borrows == 0,
    ensures
        run(s, es).freed,
        !s.freed ==> frees(s, es) == 1,
{
    lemma_run_preserves_inv(s, es);
    lemma_exactly_once_destruction(s, es);
}

/// Teardown fires at most once along any valid event sequence: the contract
/// that the host's destroy notification comes once per session is mirrored by
/// the model refusing a second teardown.
pub proof fn lemma_teardown_at_most_once(s: LifecycleState, es: Seq<SessionEvent>)
    requires
        inv(s),
        valid_run(s, es),
    ensures
        occurrences(es, SessionEvent::Teardown) <= 1,
    decreases es.len(),
{
    if s.torn_down() {
        lemma_torn_down_stays(s, es, SessionEvent::Teardown);
    } else if es.len() > 0 {
        lemma_step_preserves_inv(s, es[0]);
        let rest = es.subrange(1, es.len() as int);
        if es[0] == SessionEvent::Teardown {
            lemma_torn_down_stays(step(s, es[0]), rest, SessionEvent::Teardown);
        } else {
            lemma_teardown_at_most_once(step(s, es[0]), rest);
        }
    }
}

/// A torn-down attachment never sees another teardown event.
proof fn lemma_torn_down_stays(s: LifecycleState, es: Seq<SessionEvent>, e: SessionEvent)
    requires
        inv(s),
        valid_run(s, es),
        s.torn_down(),
        e == SessionEvent::Teardown,
    ensures
        occurrences(es, e) == 0,
    decreases es.len(),
{
    if es.len() > 0 {
        lemma_step_preserves_inv(s, es[0]);
        lemma_torn_down_stays(step(s, es[0]), es.subrange(1, es.len() as int), e);
    }
}

} // verus!
