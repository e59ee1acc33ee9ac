//! Keepalive timers that defer resource teardown.
//!
//! Every resource of a batch is watched by one [`Timer`]: a resettable
//! deadline that, once it runs out, is expired for good and hands back the
//! teardown it was armed with. A [`RefreshHandler`] owns the timers of one
//! batch. Pulses arrive through a [`Refresher`]: an individual pulse resets
//! one timer and leaves its siblings untouched, a group pulse resets every
//! timer of the batch. A pulse on an expired timer is a no-op; it neither
//! errors nor resurrects the resource.
//!
//! The passage of time is driven from outside the library through
//! [`RefreshHandler::elapse`]; the caller runs the teardown that an expiry
//! returns (removing the resource's ids from the registry) and each
//! teardown is returned exactly once, because expiry is terminal.

use vstd::prelude::*;

use crate::links::HeaderIds;
use crate::links::PostIds;

verus! {

/// What to tear down when a timer expires: the registry entries of one
/// sample image, or of a whole batch's header (blob, preview, group
/// refresh handle).
#[derive(Clone, Copy, Debug, PartialEq, Eq, Structural)]
pub enum Teardown {
    /// Remove a post's sample image and its individual refresh handle.
    Image(PostIds),
    /// Remove a batch's blob, preview and group refresh handle.
    Batch(HeaderIds),
}

/// A resettable deadline armed with a teardown.
///
/// While `alive`, `remaining` time units are left before expiry; a pulse
/// sets `remaining` back to the full `duration`. Once expired the timer is
/// terminal: no pulse revives it.
#[derive(Clone, Copy, Debug, PartialEq, Eq, Structural)]
pub struct Timer {
    /// The full time-to-live this timer resets to on a pulse.
    pub duration: u64,
    /// Time units left before expiry; meaningful only while `alive`.
    pub remaining: u64,
    /// Whether the timer is still running. Expiry clears this, terminally.
    pub alive: bool,
    /// Whether the timer also listens on a private, individual pulse
    /// channel besides the batch's shared one.
    pub local: bool,
    /// What the caller must tear down when this timer expires.
    pub teardown: Teardown,
}

/// How one pulse changes one timer: a live timer is reset to its full
/// duration, an expired timer is left exactly as it is.
pub open spec fn pulsed(pre: Timer, post: Timer) -> bool {
    if pre.alive {
        post == (Timer {
            duration: pre.duration,
            remaining: pre.duration,
            alive: true,
            local: pre.local,
            teardown: pre.teardown,
        })
    } else {
        post == pre
    }
}

/// A keepalive-pulse handle for resources managed by a [`RefreshHandler`].
#[derive(Clone, Copy, Debug, PartialEq, Eq, Structural)]
pub enum Refresher {
    /// Pulses the single timer at this index, through its private channel.
    One(usize),
    /// Pulses every timer of the batch, through the shared channel.
    Many,
}

/// The keepalive timers of one batch.
pub struct RefreshHandler {
    /// One timer per attached resource, in attachment order.
    pub timers: Vec<Timer>,
}

impl RefreshHandler {
    /// A handler with no timers attached yet.
    pub fn new() -> (r: Self)
        ensures
            r.timers@ =~= Seq::<Timer>::empty(),
    {
        Self { timers: Vec::new() }
    }

    /// Arm a timer that listens only on the batch's shared pulse channel.
    /// It starts alive with its full duration left.
    pub fn attach(&mut self, len: u64, teardown: Teardown)
        ensures
            final(self).timers@ == old(self).timers@.push(
                (Timer { duration: len, remaining: len, alive: true, local: false, teardown }),
            ),
    {
        self.timers.push(Timer { duration: len, remaining: len, alive: true, local: false, teardown });
    }

    /// Arm a timer that additionally listens on a private channel of its
    /// own, and hand back the individual refresher that pulses it.
    pub fn attach_with_local(&mut self, len: u64, teardown: Teardown) -> (r: Refresher)
        ensures
            final(self).timers@ == old(self).timers@.push(
                (Timer { duration: len, remaining: len, alive: true, local: true, teardown }),
            ),
            r == Refresher::One(old(self).timers@.len() as usize),
    {
        let idx = self.timers.len();
        self.timers.push(Timer { duration: len, remaining: len, alive: true, local: true, teardown });
        Refresher::One(idx)
    }

    /// The group refresher: one pulse on it resets every timer of this
    /// batch at once.
    pub fn into_refresher(&self) -> (r: Refresher)
        ensures
            r == Refresher::Many,
    {
        Refresher::Many
    }

    /// Let `dt` time units pass on the timer at `i` alone.
    ///
    /// If that runs the live timer out, it expires terminally and its
    /// teardown is handed back, exactly this once, for the caller to run.
    /// An already expired timer is unaffected and yields nothing. No other
    /// timer is touched: each deadline counts down independently.
    pub fn elapse(&mut self, i: usize, dt: u64) -> (r: Option<Teardown>)
        requires
            i < old(self).timers@.len(),
        ensures
            final(self).timers@.len() == old(self).timers@.len(),
            forall|j: int|
                0 <= j < old(self).timers@.len() && j != i ==> final(self).timers@[j]
                    == old(self).timers@[j],
            ({
                let pre = old(self).timers@[i as int];
                let post = final(self).timers@[i as int];
                if pre.alive && dt >= pre.remaining {
                    &&& r == Some(pre.teardown)
                    &&& post == (Timer {
                        duration: pre.duration,
                        remaining: 0,
                        alive: false,
                        local: pre.local,
                        teardown: pre.teardown,
                    })
                } else if pre.alive {
                    &&& r is None
                    &&& post == (Timer {
                        duration: pre.duration,
                        remaining: (pre.remaining - dt) as u64,
                        alive: true,
                        local: pre.local,
                        teardown: pre.teardown,
                    })
                } else {
                    r is None && post == pre
                }
            }),
    {
        let t = &self.timers[i];
        if t.alive {
            if dt >= t.remaining {
                let teardown = t.teardown;
                self.timers[i].remaining = 0;
                self.timers[i].alive = false;
                Some(teardown)
            } else {
                self.timers[i].remaining = self.timers[i].remaining - dt;
                None
            }
        } else {
            None
        }
    }
}

impl Refresher {
    /// Deliver one keepalive pulse to the handler's timers.
    ///
    /// An individual refresher resets only its own timer's deadline,
    /// leaving every sibling's remaining time exactly as it was; the group
    /// refresher resets every timer of the batch. Pulsing an expired timer
    /// changes nothing: expiry is terminal, and the pulse is silently
    /// dropped rather than an error. An individual refresher whose timer
    /// index is out of range (a handle outliving its handler) is likewise
    /// a no-op.
    pub fn refresh(&self, h: &mut RefreshHandler)
        ensures
            final(h).timers@.len() == old(h).timers@.len(),
            match *self {
                Refresher::One(i) => {
                    &&& forall|j: int|
                        0 <= j < old(h).timers@.len() && j != i ==> final(h).timers@[j] == old(
                            h,
                        ).timers@[j]
                    &&& i < old(h).timers@.len() ==> pulsed(
                        old(h).timers@[i as int],
                        final(h).timers@[i as int],
                    )
                },
                Refresher::Many => forall|j: int|
                    0 <= j < old(h).timers@.len() ==> pulsed(
                        old(h).timers@[j],
                        final(h).timers@[j],
                    ),
            },
    {
        match self {
            Refresher::One(i) => {
                if *i < h.timers.len() {
                    if h.timers[*i].alive {
                        self.reset_at(h, *i);
                    }
                }
            },
            Refresher::Many => {
                let n = h.timers.len();
                let mut j: usize = 0;
                while j < n
                    invariant
                        n == h.timers@.len(),
                        j <= n,
                        forall|k: int| j <= k < n ==> h.timers@[k] == old(h).timers@[k],
                        forall|k: int| 0 <= k < j ==> pulsed(old(h).timers@[k], h.timers@[k]),
                    decreases n - j,
                {
                    if h.timers[j].alive {
                        self.reset_at(h, j);
                    }
                    j = j + 1;
                }
            },
        }
    }

    /// Reset one live timer's deadline to its full duration.
    fn reset_at(&self, h: &mut RefreshHandler, i: usize)
        requires
            i < old(h).timers@.len(),
            old(h).timers@[i as int].alive,
        ensures
            final(h).timers@ == old(h).timers@.update(
                i as int,
                (Timer {
                    duration: old(h).timers@[i as int].duration,
                    remaining: old(h).timers@[i as int].duration,
                    alive: true,
                    local: old(h).timers@[i as int].local,
                    teardown: old(h).timers@[i as int].teardown,
                }),
            ),
    {
        h.timers[i].remaining = h.timers[i].duration;
    }
}

} // verus!
