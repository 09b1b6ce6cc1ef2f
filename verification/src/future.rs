//! Driving an asynchronous computation to completion synchronously.
//!
//! [`block_until_ready`] polls a computation once; while it reports
//! not-ready, it issues one low-power wait — halting the core until the next
//! interrupt of any kind — and polls again. Any interrupt re-triggers a
//! poll, so the pattern is level-triggered: never wrong, only possibly
//! polling more often than the computation changes state. The contract pins
//! the exchange exactly: the first settled outcome is returned unchanged,
//! and one wait is issued per not-ready poll — none at all for a
//! computation that settles on its first poll.

use vstd::prelude::*;

verus! {

/// What one poll of a computation reports.
pub enum FuturePoll<T, E> {
    /// The computation finished with a value.
    Ready(T),
    /// The computation failed.
    Failed(E),
    /// Not settled yet; poll again after the next interrupt.
    Pending,
}

/// A computation with poll-once semantics and a predetermined course:
/// it reports not-ready a known number of times, then settles into its
/// outcome exactly once.
pub trait BlockingFuture<T, E>: Sized {
    /// How many more polls will report not-ready before the outcome.
    spec fn pending_polls(&self) -> nat;

    /// The value or failure the computation settles into.
    spec fn outcome(&self) -> Result<T, E>;

    /// Whether the computation has already handed its outcome out.
    spec fn resolved(&self) -> bool;

    /// Polls the computation once.
    fn poll(&mut self) -> (r: FuturePoll<T, E>)
        requires
            !old(self).resolved(),
        ensures
            old(self).pending_polls() > 0 ==> {
                &&& r is Pending
                &&& !final(self).resolved()
                &&& final(self).outcome() == old(self).outcome()
                &&& final(self).pending_polls() == old(self).pending_polls() - 1
            },
            old(self).pending_polls() == 0 ==> {
                &&& final(self).resolved()
                &&& match r {
                    FuturePoll::Ready(v) => old(self).outcome() == Ok::<T, E>(v),
                    FuturePoll::Failed(e) => old(self).outcome() == Err::<T, E>(e),
                    FuturePoll::Pending => false,
                }
            },
    ;
}

/// A low-power wait primitive: halts the processor until the next interrupt
/// of any kind. The spec counts how often the halt has been issued.
pub trait WaitForInterrupt {
    /// How many times the halt instruction has been issued.
    spec fn waits(&self) -> nat;

    /// Halts the processor until the next interrupt.
    fn wait_for_int(&mut self)
        requires
            old(self).waits() < u64::MAX,
        ensures
            final(self).waits() == old(self).waits() + 1,
    ;
}

/// Blocks until `fut` settles: polls it, issuing one low-power wait after
/// each not-ready report, and returns the outcome unchanged — a value or
/// the first failure, with no retry and no interpretation. Exactly one wait
/// is issued per not-ready poll; a computation that settles on its first
/// poll — with a value or a failure — causes no wait at all.
pub fn block_until_ready<T, E, F: BlockingFuture<T, E>, W: WaitForInterrupt>(
    fut: &mut F,
    waiter: &mut W,
) -> (r: Result<T, E>)
    requires
        !old(fut).resolved(),
        old(waiter).waits() + old(fut).pending_polls() <= u64::MAX,
    ensures
        r == old(fut).outcome(),
        final(fut).resolved(),
        final(waiter).waits() == old(waiter).waits() + old(fut).pending_polls(),
{
    loop
        invariant
            !fut.resolved(),
            fut.outcome() == old(fut).outcome(),
            fut.pending_polls() <= old(fut).pending_polls(),
            waiter.waits() == old(waiter).waits() + old(fut).pending_polls()
                - fut.pending_polls(),
            old(waiter).waits() + old(fut).pending_polls() <= u64::MAX,
        decreases fut.pending_polls(),
    {
        match fut.poll() {
            FuturePoll::Ready(value) => {
                return Ok(value);
            },
            FuturePoll::Failed(err) => {
                return Err(err);
            },
            FuturePoll::Pending => {
                waiter.wait_for_int();
            },
        }
    }
}

/// A computation with a scripted course: it reports not-ready a fixed
/// number of times and then settles into a fixed outcome.
pub struct ScriptedFuture<T, E> {
    remaining: usize,
    result: Option<Result<T, E>>,
}

impl<T, E> ScriptedFuture<T, E> {
    /// A computation that will report not-ready `pending` times and then
    /// settle into `result`.
    pub fn new(pending: usize, result: Result<T, E>) -> (r: Self)
        ensures
            !r.resolved(),
            r.pending_polls() == pending,
            r.outcome() == result,
    {
        Self { remaining: pending, result: Some(result) }
    }
}

impl<T, E> BlockingFuture<T, E> for ScriptedFuture<T, E> {
    closed spec fn pending_polls(&self) -> nat {
        self.remaining as nat
    }

    closed spec fn outcome(&self) -> Result<T, E> {
        self.result->0
    }

    closed spec fn resolved(&self) -> bool {
        self.result is None
    }

    fn poll(&mut self) -> (r: FuturePoll<T, E>) {
        if self.remaining > 0 {
            self.remaining = self.remaining - 1;
            FuturePoll::Pending
        } else {
            let settled = self.result.take();
            match settled {
                Some(Ok(value)) => FuturePoll::Ready(value),
                Some(Err(err)) => FuturePoll::Failed(err),
                // unreachable: poll demands an unresolved computation
                None => FuturePoll::Pending,
            }
        }
    }
}

/// A wait primitive that only counts how often it was issued, standing in
/// for the hardware halt during tests and host runs.
pub struct CountingWait {
    count: u64,
}

impl CountingWait {
    /// A counter that has issued no waits yet.
    pub fn new() -> (r: Self)
        ensures
            r.waits() == 0,
    {
        Self { count: 0 }
    }

    /// How many waits have been issued.
    pub fn count(&self) -> (n: u64)
        ensures
            n == self.waits(),
    {
        self.count
    }
}

impl WaitForInterrupt for CountingWait {
    closed spec fn waits(&self) -> nat {
        self.count as nat
    }

    fn wait_for_int(&mut self) {
        self.count = self.count + 1;
    }
}

} // verus!
