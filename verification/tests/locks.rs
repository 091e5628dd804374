use std::cell::{Cell, RefCell};
use std::rc::Rc;

use gpu_locks::{GPULock, PriorityLock, WouldBlock, GPU_LOCK_NAME, PRIORITY_LOCK_NAME};

/// A lock that lives in memory: held while a `Held` made from it is alive.
#[derive(Clone)]
struct Lock {
    held: Rc<Cell<bool>>,
}

struct Held {
    held: Rc<Cell<bool>>,
}

impl Drop for Held {
    fn drop(&mut self) {
        self.held.set(false);
    }
}

impl Lock {
    fn new() -> Lock {
        Lock { held: Rc::new(Cell::new(false)) }
    }

    fn is_held(&self) -> bool {
        self.held.get()
    }

    fn try_acquire(&self) -> Result<Held, WouldBlock> {
        if self.held.get() {
            Err(WouldBlock)
        } else {
            self.held.set(true);
            Ok(Held { held: self.held.clone() })
        }
    }

    fn acquire(&self) -> Held {
        match self.try_acquire() {
            Ok(held) => held,
            Err(WouldBlock) => panic!("a blocking acquisition would wait forever here"),
        }
    }
}

#[test]
fn lock_names_are_fixed_and_distinct() {
    assert_eq!(GPU_LOCK_NAME, "bellman.gpu.lock");
    assert_eq!(PRIORITY_LOCK_NAME, "bellman.priority.lock");
    assert_ne!(GPU_LOCK_NAME, PRIORITY_LOCK_NAME);
}

#[test]
fn gpu_lock_is_taken_on_the_gpu_name() {
    let asked = RefCell::new(Vec::new());
    let held: GPULock<u32> = GPULock::lock(|name| {
        asked.borrow_mut().push(name);
        7
    });
    assert_eq!(*asked.borrow(), vec!["bellman.gpu.lock"]);
    assert_eq!(format!("{:?}", held), "GPULock(7)");
}

#[test]
fn priority_lock_is_taken_on_the_priority_name() {
    let asked = RefCell::new(Vec::new());
    let held: PriorityLock<u32> = PriorityLock::lock(|name| {
        asked.borrow_mut().push(name);
        9
    });
    assert_eq!(*asked.borrow(), vec!["bellman.priority.lock"]);
    assert_eq!(format!("{:?}", held), "PriorityLock(9)");
}

#[test]
fn gpu_lock_is_held_until_dropped() {
    let lock = Lock::new();
    let held = GPULock::lock(|_| lock.acquire());
    assert!(lock.is_held());
    assert!(lock.try_acquire().is_err());
    drop(held);
    assert!(!lock.is_held());
    assert!(lock.try_acquire().is_ok());
}

#[test]
fn priority_lock_is_held_until_dropped() {
    let lock = Lock::new();
    let held = PriorityLock::lock(|_| lock.acquire());
    assert!(lock.is_held());
    drop(held);
    assert!(!lock.is_held());
}

#[test]
fn try_lock_keeps_the_handle_of_a_free_lock() {
    let lock = Lock::new();
    let asked = RefCell::new(Vec::new());
    let held = GPULock::try_lock(|name| {
        asked.borrow_mut().push(name);
        lock.try_acquire()
    });
    assert_eq!(*asked.borrow(), vec!["bellman.gpu.lock"]);
    assert!(held.is_ok());
    assert!(lock.is_held());
    drop(held);
    assert!(!lock.is_held());
}

#[test]
fn try_lock_passes_a_refusal_on() {
    let lock = Lock::new();
    let first = GPULock::try_lock(|_| lock.try_acquire());
    assert!(first.is_ok());
    let second = GPULock::try_lock(|_| lock.try_acquire());
    assert!(matches!(second, Err(WouldBlock)));
    assert!(lock.is_held());
    drop(first);
    let third = GPULock::try_lock(|_| lock.try_acquire());
    assert!(third.is_ok());
}

#[test]
fn contended_reads_the_attempt() {
    assert!(PriorityLock::<u8>::contended(Err(WouldBlock)));
    assert!(!PriorityLock::<u8>::contended(Ok(1)));
}

#[test]
fn contended_releases_what_the_attempt_took() {
    let lock = Lock::new();
    assert!(!PriorityLock::contended(lock.try_acquire()));
    assert!(!lock.is_held());
}

#[test]
fn priority_process_never_yields() {
    let polls = Cell::new(0u32);
    let held_elsewhere = PriorityLock::<u8>::should_break(true, |_| {
        polls.set(polls.get() + 1);
        Err(WouldBlock)
    });
    assert!(!held_elsewhere);
    let free = PriorityLock::<u8>::should_break(true, |_| {
        polls.set(polls.get() + 1);
        Ok(0)
    });
    assert!(!free);
    assert_eq!(polls.get(), 0);
}

#[test]
fn should_break_polls_the_priority_name_once() {
    let asked = RefCell::new(Vec::new());
    let yielding = PriorityLock::<u8>::should_break(false, |name| {
        asked.borrow_mut().push(name);
        Ok(0)
    });
    assert!(!yielding);
    assert_eq!(*asked.borrow(), vec!["bellman.priority.lock"]);
}

#[test]
fn should_break_follows_the_priority_lock() {
    let lock = Lock::new();
    assert!(!PriorityLock::should_break(false, |_| lock.try_acquire()));

    let signal = PriorityLock::lock(|_| lock.acquire());
    assert!(PriorityLock::should_break(false, |_| lock.try_acquire()));
    assert!(PriorityLock::should_break(false, |_| lock.try_acquire()));
    assert!(!PriorityLock::should_break(true, |_| lock.try_acquire()));

    drop(signal);
    assert!(!PriorityLock::should_break(false, |_| lock.try_acquire()));
}

#[test]
fn should_break_leaves_a_free_lock_free() {
    let lock = Lock::new();
    assert!(!PriorityLock::should_break(false, |_| lock.try_acquire()));
    assert!(!lock.is_held());
    let signal = PriorityLock::lock(|_| lock.acquire());
    assert!(lock.is_held());
    drop(signal);
}

#[test]
fn would_block_is_a_plain_value() {
    let refusal = WouldBlock;
    let copy = refusal;
    assert_eq!(refusal, copy);
    assert_eq!(format!("{:?}", refusal), "WouldBlock");
}
