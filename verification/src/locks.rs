//! The two named locks: who owns the accelerator, and who wants it next.
//!
//! A lock is a name that every cooperating process resolves to the same file,
//! and a handle `H` on that file which holds the exclusive advisory lock for
//! as long as it lives. Taking a lock is the embedder's part, handed in as a
//! closure from the name to the handle; which name is taken, and what follows
//! from the answer, is decided here.

use vstd::prelude::*;

verus! {

/// Name of the lock that is held while a process owns the accelerator.
pub const GPU_LOCK_NAME: &'static str = "bellman.gpu.lock";

/// Name of the lock that a high-priority process holds to claim the
/// accelerator.
pub const PRIORITY_LOCK_NAME: &'static str = "bellman.priority.lock";

/// Answer of a non-blocking acquisition that found the lock held by another
/// handle.
#[derive(Debug, Clone, Copy, PartialEq, Eq)]
pub struct WouldBlock;

/// Ownership of the accelerator. It wraps the handle that holds the
/// accelerator lock; the lock is released when the value is dropped, and in
/// no other way.
#[derive(Debug)]
pub struct GPULock<H>(H);

/// The priority signal. While a value lives, every other process is told to
/// give the accelerator up. It wraps the handle that holds the priority lock;
/// the lock is released when the value is dropped, and in no other way.
#[derive(Debug)]
pub struct PriorityLock<H>(H);

/// Whether a process must give the accelerator up, given whether it is itself
/// the priority process and whether it found the priority lock held by another
/// handle. The priority process never yields, least of all to itself.
pub open spec fn must_yield(priority: bool, contended: bool) -> bool {
    !priority && contended
}

/// What a non-blocking attempt at the accelerator lock comes to: the handle
/// wrapped as ownership of the accelerator, or the refusal passed on.
pub open spec fn claimed<H>(attempt: Result<H, WouldBlock>, held: Result<GPULock<H>, WouldBlock>) -> bool {
    match attempt {
        Ok(handle) => held matches Ok(lock) && lock.handle() == handle,
        Err(_) => held is Err,
    }
}

impl<H> GPULock<H> {
    /// The handle that holds the accelerator lock.
    pub closed spec fn handle(self) -> H {
        self.0
    }

    /// Takes the accelerator lock: `acquire` is called once, on
    /// [`GPU_LOCK_NAME`], and the handle it returns is kept until the result
    /// is dropped. `acquire` is expected to wait until the lock is free.
    pub fn lock<A>(acquire: A) -> (held: GPULock<H>) where A: FnOnce(&'static str) -> H
        requires
            call_requires(acquire, (GPU_LOCK_NAME,)),
        ensures
            call_ensures(acquire, (GPU_LOCK_NAME,), held.handle()),
    {
        GPULock(acquire(GPU_LOCK_NAME))
    }

    /// Takes the accelerator lock if it is free: `try_acquire` is called once,
    /// on [`GPU_LOCK_NAME`]. A handle it returns is kept until the result is
    /// dropped; a refusal is passed on.
    pub fn try_lock<T>(try_acquire: T) -> (held: Result<GPULock<H>, WouldBlock>) where
        T: FnOnce(&'static str) -> Result<H, WouldBlock>,
        requires
            call_requires(try_acquire, (GPU_LOCK_NAME,)),
        ensures
            exists|attempt: Result<H, WouldBlock>|
                call_ensures(try_acquire, (GPU_LOCK_NAME,), attempt) && claimed(attempt, held),
    {
        let attempt = try_acquire(GPU_LOCK_NAME);
        let ghost answer = attempt;
        let held = match attempt {
            Ok(handle) => Ok(GPULock(handle)),
            Err(refusal) => Err(refusal),
        };
        assert(claimed(answer, held));
        held
    }
}

impl<H> PriorityLock<H> {
    /// The handle that holds the priority lock.
    pub closed spec fn handle(self) -> H {
        self.0
    }

    /// Raises the priority signal: `acquire` is called once, on
    /// [`PRIORITY_LOCK_NAME`], and the handle it returns is kept until the
    /// result is dropped. `acquire` is expected to wait until the lock is
    /// free.
    pub fn lock<A>(acquire: A) -> (held: PriorityLock<H>) where A: FnOnce(&'static str) -> H
        requires
            call_requires(acquire, (PRIORITY_LOCK_NAME,)),
        ensures
            call_ensures(acquire, (PRIORITY_LOCK_NAME,), held.handle()),
    {
        PriorityLock(acquire(PRIORITY_LOCK_NAME))
    }

    /// Reads the answer of one non-blocking attempt at the priority lock:
    /// `true` exactly when the lock was held by another handle. A handle that
    /// the attempt obtained is dropped here, so the lock is free again when
    /// the function returns.
    pub fn contended(attempt: Result<H, WouldBlock>) -> (c: bool)
        ensures
            c == (attempt is Err),
    {
        attempt.is_err()
    }

    /// Polls the priority signal. The priority process is never told to
    /// yield, whatever the state of the lock. For any other process
    /// `try_acquire` is called once, on [`PRIORITY_LOCK_NAME`], and the answer
    /// is `true` exactly when that attempt found the lock held.
    pub fn should_break<T>(priority: bool, try_acquire: T) -> (yielding: bool) where
        T: FnOnce(&'static str) -> Result<H, WouldBlock>,
        requires
            !priority ==> call_requires(try_acquire, (PRIORITY_LOCK_NAME,)),
        ensures
            priority ==> !yielding,
            !priority ==> exists|attempt: Result<H, WouldBlock>|
                call_ensures(try_acquire, (PRIORITY_LOCK_NAME,), attempt)
                    && yielding == must_yield(priority, attempt is Err),
    {
        !priority && Self::contended(try_acquire(PRIORITY_LOCK_NAME))
    }
}

/// The two locks have different names, so holding one never stands in the way
/// of taking the other.
pub proof fn lock_names_differ()
    ensures
        GPU_LOCK_NAME@ != PRIORITY_LOCK_NAME@,
{
    reveal_strlit("bellman.gpu.lock");
    reveal_strlit("bellman.priority.lock");
    assert(GPU_LOCK_NAME@.len() != PRIORITY_LOCK_NAME@.len());
}

} // verus!
