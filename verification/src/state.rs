//! The life of a cached kernel, as a state machine on plain values.
//!
//! One call of [`crate::kernel::LockedKernel::with`] asks the outside world up
//! to three questions, in this order: is the priority lock contended, what
//! does construction give, and what does the operation make of the kernel.
//! [`Answers`] holds one answer to each. The functions on [`KernelState`] say
//! which questions are asked, what the call returns and what it leaves
//! behind; the proofs below them say what that means over several calls.

use vstd::prelude::*;
use crate::error::{lost, GPUError, GPUResult};
use crate::locks::must_yield;

verus! {

/// What a resource manager is made of: whether its process is the priority
/// process, and the kernel it has cached, if any.
pub struct KernelState<K> {
    pub priority: bool,
    pub kernel: Option<K>,
}

/// What the outside world answered in the course of one call.
pub struct Answers<K, R, E> {
    /// The priority lock was held by another handle. Asked only of a process
    /// that is not the priority process.
    pub contended: bool,
    /// What construction returned. Asked only while no kernel is cached.
    pub built: Option<K>,
    /// The kernel as the operation left it. Asked only when there is a kernel
    /// to work on.
    pub after_work: K,
    /// What the operation returned.
    pub outcome: GPUResult<R, E>,
}

impl<K> KernelState<K> {
    /// The state of a manager that has not been used yet.
    pub open spec fn fresh(priority: bool) -> Self {
        KernelState { priority, kernel: None }
    }

    /// This state without its kernel.
    pub open spec fn freed(self) -> Self {
        KernelState { priority: self.priority, kernel: None }
    }

    /// The state once the priority signal was consulted: a process that has
    /// to yield drops its kernel, any other keeps what it has.
    pub open spec fn after_poll(self, contended: bool) -> Self {
        if must_yield(self.priority, contended) {
            self.freed()
        } else {
            self
        }
    }

    /// Whether a call in this state can come to attempt construction: it
    /// cannot while the priority process has a kernel, which no signal takes
    /// away.
    pub open spec fn may_construct(self) -> bool {
        !self.priority || self.kernel is None
    }

    /// Whether the call attempts construction: it does whenever no kernel is
    /// left once the priority signal was consulted.
    pub open spec fn constructs(self, contended: bool) -> bool {
        self.after_poll(contended).kernel is None
    }

    /// The kernel that is handed to the operation; `None` when the operation
    /// is not run. A kernel that survived the poll is used as it is,
    /// otherwise the one that construction returned.
    pub open spec fn in_use(self, contended: bool, built: Option<K>) -> Option<K> {
        match self.after_poll(contended).kernel {
            Some(k) => Some(k),
            None => built,
        }
    }

    /// What the call returns: the operation's own result when it ran, and
    /// [`GPUError::GPUTaken`] when there was no kernel to run it on.
    pub open spec fn outcome<R, E>(self, a: Answers<K, R, E>) -> GPUResult<R, E> {
        if self.in_use(a.contended, a.built) is Some {
            a.outcome
        } else {
            Err(GPUError::GPUTaken)
        }
    }

    /// The state that the call leaves behind. The kernel stays cached, as the
    /// operation left it, unless the operation did not run or reported that
    /// the accelerator was taken.
    pub open spec fn next<R, E>(self, a: Answers<K, R, E>) -> Self {
        if self.in_use(a.contended, a.built) is Some && !lost(a.outcome) {
            KernelState { priority: self.priority, kernel: Some(a.after_work) }
        } else {
            self.freed()
        }
    }

    /// The state after a run of calls, the first of them made in this state.
    pub open spec fn after<R, E>(self, calls: Seq<Answers<K, R, E>>) -> Self
        decreases calls.len(),
    {
        if calls.len() == 0 {
            self
        } else {
            self.after(calls.drop_last()).next(calls.last())
        }
    }
}

/// No run of calls changes whether a manager belongs to the priority process.
pub proof fn priority_is_fixed<K, R, E>(s: KernelState<K>, calls: Seq<Answers<K, R, E>>)
    ensures
        s.after(calls).priority == s.priority,
    decreases calls.len(),
{
    if calls.len() > 0 {
        priority_is_fixed(s, calls.drop_last());
    }
}

/// A manager of the priority process never gives its kernel up to the
/// priority signal, whatever the state of the priority lock.
pub proof fn priority_process_keeps_its_kernel<K>(s: KernelState<K>, contended: bool)
    requires
        s.priority,
    ensures
        s.after_poll(contended) == s,
{
}

/// A process that has to yield gives its kernel up before anything else:
/// construction is attempted, and the operation runs, if at all, on the
/// kernel that construction has just returned, not on the one that was
/// cached.
pub proof fn yielding_gives_the_kernel_up<K>(s: KernelState<K>, contended: bool, built: Option<K>)
    requires
        must_yield(s.priority, contended),
    ensures
        s.after_poll(contended).kernel is None,
        s.constructs(contended),
        s.in_use(contended, built) == built,
{
}

/// A process that has a kernel cached and has to yield ends the call without
/// one, unless construction succeeds at once and the operation then keeps the
/// accelerator. Where construction gives nothing, the operation is not run
/// and the call reports the accelerator taken.
pub proof fn yielding_collapses_cache<K, R, E>(s: KernelState<K>, a: Answers<K, R, E>)
    requires
        !s.priority,
        s.kernel is Some,
        a.contended,
        a.built is None || lost(a.outcome),
    ensures
        s.next(a).kernel is None,
        a.built is None ==> s.in_use(a.contended, a.built) is None,
        a.built is None ==> s.outcome(a) == Err::<R, GPUError<E>>(GPUError::GPUTaken),
{
}

/// When an operation reports that the accelerator was taken, the caller sees
/// that very result, the kernel is gone, and the next call attempts
/// construction, whatever the priority signal says.
pub proof fn loss_forces_reconstruction<K, R, E>(s: KernelState<K>, a: Answers<K, R, E>)
    requires
        s.in_use(a.contended, a.built) is Some,
        lost(a.outcome),
    ensures
        s.outcome(a) == a.outcome,
        s.next(a).kernel is None,
        forall|contended: bool| s.next(a).constructs(contended),
{
}

/// Any result of an operation other than the loss of the accelerator is
/// returned as it is, and the kernel stays cached as the operation left it.
pub proof fn other_results_pass_through<K, R, E>(s: KernelState<K>, a: Answers<K, R, E>)
    requires
        s.in_use(a.contended, a.built) is Some,
        !lost(a.outcome),
    ensures
        s.outcome(a) == a.outcome,
        s.next(a).kernel == Some(a.after_work),
{
}

/// While every attempted construction gives nothing, a manager that starts
/// without a kernel never gets one: each call of the run attempts
/// construction, does not run its operation, and reports the accelerator
/// taken.
pub proof fn unavailable_while_construction_fails<K, R, E>(
    s: KernelState<K>,
    calls: Seq<Answers<K, R, E>>,
    i: int,
)
    requires
        s.kernel is None,
        forall|j: int| 0 <= j < calls.len() ==> (#[trigger] calls[j]).built is None,
        0 <= i < calls.len(),
    ensures
        s.after(calls.take(i)).kernel is None,
        s.after(calls.take(i)).constructs(calls[i].contended),
        s.after(calls.take(i)).in_use(calls[i].contended, calls[i].built) is None,
        s.after(calls.take(i)).outcome(calls[i]) == Err::<R, GPUError<E>>(GPUError::GPUTaken),
        s.after(calls.take(i + 1)).kernel is None,
    decreases i,
{
    let before = calls.take(i);
    if i > 0 {
        unavailable_while_construction_fails(s, calls, i - 1);
        assert(before.drop_last() == calls.take(i - 1));
        assert(before.last() == calls[i - 1]);
    }
    assert(s.after(before).kernel is None);
    let upto = calls.take(i + 1);
    assert(upto.drop_last() == before);
    assert(upto.last() == calls[i]);
}

} // verus!
