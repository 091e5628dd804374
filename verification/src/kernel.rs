//! A kernel that is built on first use and given up under contention.

use vstd::prelude::*;
use crate::error::{GPUError, GPUResult};
use crate::locks::{PriorityLock, WouldBlock, PRIORITY_LOCK_NAME};
use crate::state::{Answers, KernelState};

verus! {

/// Keeps a kernel of type `K` alive between units of work.
///
/// The kernel is present only while the accelerator is believed to be usable
/// by this process. Nothing but [`LockedKernel::with`] changes it, and
/// nothing changes whether the manager belongs to the priority process.
pub struct LockedKernel<K> {
    priority: bool,
    kernel: Option<K>,
}

impl<K> View for LockedKernel<K> {
    type V = KernelState<K>;

    closed spec fn view(&self) -> KernelState<K> {
        KernelState { priority: self.priority, kernel: self.kernel }
    }
}

/// Whether `a` holds what the poll and construction answered to a call that
/// starts in state `s`. An answer to a question that the call does not ask is
/// left open.
pub open spec fn answered<K, H, T, C, R, E>(
    s: KernelState<K>,
    try_acquire: T,
    construct: C,
    a: Answers<K, R, E>,
) -> bool where T: FnOnce(&'static str) -> Result<H, WouldBlock>, C: FnOnce(bool) -> Option<K> {
    &&& !s.priority ==> exists|attempt: Result<H, WouldBlock>|
        call_ensures(try_acquire, (PRIORITY_LOCK_NAME,), attempt) && a.contended == (attempt is Err)
    &&& s.constructs(a.contended) ==> call_ensures(construct, (s.priority,), a.built)
}

impl<K> LockedKernel<K> {
    /// A manager without a kernel, for a process that is (`true`) or is not
    /// (`false`) the priority process.
    pub fn new(priority: bool) -> (fresh: Self)
        ensures
            fresh@ == KernelState::<K>::fresh(priority),
    {
        LockedKernel { priority, kernel: None }
    }

    /// Whether this manager belongs to the priority process.
    pub fn priority(&self) -> (p: bool)
        ensures
            p == self@.priority,
    {
        self.priority
    }

    /// Whether a kernel is cached.
    pub fn is_loaded(&self) -> (loaded: bool)
        ensures
            loaded == (self@.kernel is Some),
    {
        self.kernel.is_some()
    }

    /// Drops the cached kernel, if there is one.
    fn free(&mut self)
        ensures
            final(self)@ == old(self)@.freed(),
    {
        self.kernel = None;
    }

    /// Runs one unit of work `f` on the kernel.
    ///
    /// First the priority signal is polled with `try_acquire`, as
    /// [`PriorityLock::should_break`] does it, and a process that has to
    /// yield drops its kernel. If no kernel is cached then, `construct` is
    /// called with the priority flag and what it returns is cached. If there
    /// is still no kernel, the call returns [`GPUError::GPUTaken`] and `f` is
    /// not run. Otherwise `f` runs on the cached kernel and its result is
    /// returned as it is; if that result is [`GPUError::GPUTaken`] the kernel
    /// is dropped, so that the next call builds it again.
    ///
    /// The contract says this over a record `a` of what the three closures
    /// answered: the record agrees with the closures wherever the call asked
    /// them, and the state left behind and the result are those that
    /// [`KernelState::next`] and [`KernelState::outcome`] give for it.
    ///
    /// `try_acquire` has to be callable unless the process is the priority
    /// process, `construct` wherever the call may come to it
    /// ([`KernelState::may_construct`]), and `f` on the cached kernel and on
    /// any kernel that `construct` may then return.
    pub fn with<H, T, C, F, R, E>(
        &mut self,
        try_acquire: T,
        construct: C,
        f: F,
    ) -> (res: GPUResult<R, E>) where
        T: FnOnce(&'static str) -> Result<H, WouldBlock>,
        C: FnOnce(bool) -> Option<K>,
        F: FnOnce(&mut K) -> GPUResult<R, E>,
        requires
            !old(self)@.priority ==> call_requires(try_acquire, (PRIORITY_LOCK_NAME,)),
            old(self)@.may_construct() ==> call_requires(construct, (old(self)@.priority,)),
            forall|m: &mut K|
                (old(self)@.kernel == Some(*m)
                    || (old(self)@.may_construct()
                        && call_ensures(construct, (old(self)@.priority,), Some(*m))))
                    ==> call_requires(f, (m,)),
        ensures
            final(self)@.priority == old(self)@.priority,
            exists|a: Answers<K, R, E>|
                answered::<K, H, T, C, R, E>(old(self)@, try_acquire, construct, a)
                    && (old(self)@.in_use(a.contended, a.built) matches Some(k) ==> exists|m: &mut K|
                        *m == k && *final(m) == a.after_work && call_ensures(f, (m,), a.outcome))
                    && final(self)@ == old(self)@.next(a)
                    && res == old(self)@.outcome(a),
    {
        let ghost s = self@;
        let yielding = PriorityLock::<H>::should_break(self.priority, try_acquire);
        if yielding {
            self.free();
        }
        if self.kernel.is_none() {
            self.kernel = construct(self.priority);
        }
        let ghost built = if s.constructs(yielding) { self@.kernel } else { None };
        let ghost mut a = Answers::<K, R, E> {
            contended: yielding,
            built,
            after_work: arbitrary(),
            outcome: arbitrary(),
        };
        let res = match &mut self.kernel {
            Some(k) => {
                let res = f(k);
                proof {
                    a = Answers { contended: yielding, built, after_work: *k, outcome: res };
                }
                if let Err(GPUError::GPUTaken) = res {
                    self.free();
                }
                res
            },
            None => Err(GPUError::GPUTaken),
        };
        assert(answered::<K, H, T, C, R, E>(s, try_acquire, construct, a));
        assert(self@ == s.next(a) && res == s.outcome(a));
        assert(s.in_use(a.contended, a.built) matches Some(k) ==> exists|m: &mut K|
            *m == k && *final(m) == a.after_work && call_ensures(f, (m,), a.outcome));
        res
    }
}

/// Where construction can give nothing, a call that starts without a kernel
/// does not run its operation: it reports the accelerator taken and leaves
/// the manager without a kernel, whatever the priority signal says.
pub proof fn failing_construction_means_taken<K, H, T, C, R, E>(
    s: KernelState<K>,
    try_acquire: T,
    construct: C,
    a: Answers<K, R, E>,
) where T: FnOnce(&'static str) -> Result<H, WouldBlock>, C: FnOnce(bool) -> Option<K>
    requires
        s.kernel is None,
        forall|built: Option<K>| call_ensures(construct, (s.priority,), built) ==> built is None,
        answered::<K, H, T, C, R, E>(s, try_acquire, construct, a),
    ensures
        s.in_use(a.contended, a.built) is None,
        s.outcome(a) == Err::<R, GPUError<E>>(GPUError::GPUTaken),
        s.next(a).kernel is None,
{
}

} // verus!
