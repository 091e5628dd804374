//! Arbitration of one shared accelerator among cooperating processes.
//!
//! Two named locks coordinate the processes: the accelerator lock says who
//! owns the device, the priority lock says that a high-priority contender
//! wants it now. [`LockedKernel`] keeps an expensive kernel alive between
//! units of work, gives it up when the priority lock is contended or the
//! device was lost, and builds it again on the next use.
//!
//! The library decides; it does not touch the file system. Whoever embeds it
//! supplies the acquisition of a named lock and the construction of a kernel
//! as closures, and every contract is stated over what those closures
//! returned.

pub mod error;
pub mod kernel;
pub mod locks;
pub mod state;

pub use error::{GPUError, GPUResult};
pub use kernel::LockedKernel;
pub use locks::{GPULock, PriorityLock, WouldBlock, GPU_LOCK_NAME, PRIORITY_LOCK_NAME};
pub use state::{Answers, KernelState};
