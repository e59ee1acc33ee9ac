//! Memoization primitives for values produced by background computations.
//!
//! A [`Promise`] stands for a value whose computation is already under way:
//! a single-assignment cell that the producer fills exactly once and that
//! any number of readers observe afterwards. A [`LazyPromise`] additionally
//! delays the computation until the first reader asks for the value; the
//! reader that finds it unstarted drives it to completion, and a second
//! caller that arrives while it is still running is a usage error rather
//! than a second execution.
//!
//! The asynchronous plumbing (task spawning, waiting) lives outside the
//! library; these types are the state machines it drives. Waiting for a
//! value corresponds to calling [`Promise::get`] again once the producer
//! has called [`Promise::fulfill`].

use vstd::prelude::*;

verus! {

/// A misuse of a memoization primitive: a programming error of the caller,
/// not a recoverable runtime condition.
#[derive(Clone, Copy, Debug, PartialEq, Eq, Structural)]
pub enum UsageError {
    /// The lazy computation was asked to start while an earlier start was
    /// still driving it.
    AlreadyRunning,
    /// The lazy computation was asked to start after it had already
    /// delivered its value.
    AlreadyDone,
}

/// A single-assignment cell for a value whose computation is already in
/// progress when the cell is handed out.
///
/// The view of a `Promise` is the cell's content: `None` until the producer
/// delivers the value, `Some(v)` forever after.
pub struct Promise<T> {
    cell: Option<T>,
}

impl<T> View for Promise<T> {
    type V = Option<T>;

    closed spec fn view(&self) -> Option<T> {
        self.cell
    }
}

impl<T> Promise<T> {
    /// Create an empty cell. The caller is responsible for having the
    /// computation under way before readers are given the handle.
    pub fn new() -> (r: Self)
        ensures
            r@ is None,
    {
        Self { cell: None }
    }

    /// Deliver the computed value. The cell is single-assignment: delivery
    /// is only permitted while the cell is still empty.
    pub fn fulfill(&mut self, v: T)
        requires
            old(self)@ is None,
        ensures
            final(self)@ == Some(v),
    {
        self.cell = Some(v);
    }

    /// Observe the cell. Readers that find `None` wait (outside the
    /// library) and ask again; once the cell is filled every reader sees
    /// the one delivered value. A reader never drives the computation.
    pub fn get(&self) -> (r: Option<&T>)
        ensures
            match r {
                Some(v) => self@ == Some(*v),
                None => self@ is None,
            },
    {
        match &self.cell {
            Some(v) => Some(v),
            None => None,
        }
    }
}

/// Law: reads of a fulfilled `Promise` all observe the one delivered value,
/// no matter how many there are or when they happen.
pub proof fn lemma_promise_reads_agree<T>(p: Promise<T>, r1: T, r2: T)
    requires
        p@ is Some,
        r1 == p@->0,
        r2 == p@->0,
    ensures
        r1 == r2,
{
}

/// The lifecycle of a lazily driven computation.
enum LazyState<T> {
    /// Stored, never driven.
    Unstarted,
    /// Some caller is driving it right now.
    Running,
    /// It delivered this value; it will never run again.
    Done(T),
}

/// A single-assignment cell plus an un-started computation.
///
/// The computation is driven by whichever caller first asks for the value:
/// that caller moves the cell from `Unstarted` to `Running` with
/// [`LazyPromise::begin`], performs the work outside the library, and
/// stores the result with [`LazyPromise::complete`]. All later readers
/// observe the one completed value through [`LazyPromise::get`].
pub struct LazyPromise<T> {
    state: LazyState<T>,
    /// How many times the computation has been started, kept for the
    /// at-most-once law.
    starts: Ghost<nat>,
}

impl<T> LazyPromise<T> {
    /// The start counter agrees with the lifecycle state: exactly the
    /// unstarted cell has never been started, and nothing starts twice.
    pub closed spec fn wf(self) -> bool {
        &&& self.starts@ <= 1
        &&& (self.state is Unstarted <==> self.starts@ == 0)
    }

    /// The computation has never been driven.
    pub closed spec fn is_unstarted(self) -> bool {
        self.state is Unstarted
    }

    /// Some caller is driving the computation.
    pub closed spec fn is_running(self) -> bool {
        self.state is Running
    }

    /// The computation has delivered its value.
    pub closed spec fn is_done(self) -> bool {
        self.state is Done
    }

    /// The delivered value.
    pub closed spec fn value_of(self) -> T
        recommends
            self.is_done(),
    {
        self.state->Done_0
    }

    /// How many times the wrapped computation has been started.
    pub closed spec fn times_started(self) -> nat {
        self.starts@
    }

    /// Store a computation without driving it.
    pub fn new() -> (r: Self)
        ensures
            r.wf(),
            r.is_unstarted(),
            r.times_started() == 0,
    {
        Self { state: LazyState::Unstarted, starts: Ghost(0) }
    }

    /// Claim the right to drive the computation. Succeeds exactly when the
    /// computation is unstarted; a caller that arrives while it is running
    /// or after it is done gets a usage error and changes nothing.
    pub fn begin(&mut self) -> (r: Result<(), UsageError>)
        requires
            old(self).wf(),
        ensures
            final(self).wf(),
            old(self).is_unstarted() ==> {
                &&& r is Ok
                &&& final(self).is_running()
                &&& final(self).times_started() == old(self).times_started() + 1
            },
            old(self).is_running() ==> r == Err::<(), UsageError>(UsageError::AlreadyRunning)
                && *final(self) == *old(self),
            old(self).is_done() ==> r == Err::<(), UsageError>(UsageError::AlreadyDone)
                && *final(self) == *old(self),
    {
        match &self.state {
            LazyState::Unstarted => {
                self.state = LazyState::Running;
                proof {
                    self.starts@ = self.starts@ + 1;
                }
                Ok(())
            },
            LazyState::Running => Err(UsageError::AlreadyRunning),
            LazyState::Done(_) => Err(UsageError::AlreadyDone),
        }
    }

    /// Deliver the result of the computation claimed by [`LazyPromise::begin`].
    pub fn complete(&mut self, v: T)
        requires
            old(self).wf(),
            old(self).is_running(),
        ensures
            final(self).wf(),
            final(self).is_done(),
            final(self).value_of() == v,
            final(self).times_started() == old(self).times_started(),
    {
        self.state = LazyState::Done(v);
    }

    /// Whether some caller holds the claim right now: the window in which
    /// a second start would be a usage error.
    pub fn in_progress(&self) -> (r: bool)
        ensures
            r == self.is_running(),
    {
        match &self.state {
            LazyState::Running => true,
            _ => false,
        }
    }

    /// Observe the cell: the delivered value once the computation is done,
    /// `None` before.
    pub fn get(&self) -> (r: Option<&T>)
        ensures
            match r {
                Some(v) => self.is_done() && *v == self.value_of(),
                None => !self.is_done(),
            },
    {
        match &self.state {
            LazyState::Done(v) => Some(v),
            _ => None,
        }
    }
}

/// A lazy cell is always in exactly one lifecycle state: unstarted,
/// running, or done.
pub proof fn lemma_lazy_states<T>(p: LazyPromise<T>)
    ensures
        p.is_unstarted() || p.is_running() || p.is_done(),
        p.is_unstarted() ==> !p.is_running() && !p.is_done(),
        p.is_running() ==> !p.is_unstarted() && !p.is_done(),
        p.is_done() ==> !p.is_unstarted() && !p.is_running(),
{
}

/// Law: in every well-formed state, the wrapped computation has been
/// started at most once, no matter how many times the cell has been read
/// or asked to start.
pub proof fn lemma_lazy_starts_at_most_once<T>(p: LazyPromise<T>)
    requires
        p.wf(),
    ensures
        p.times_started() <= 1,
{
}

} // verus!
