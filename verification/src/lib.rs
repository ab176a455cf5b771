//! Bootstrap of a root task on a capability-based microkernel.
//!
//! The library holds the bookkeeping and the decisions: which untyped region
//! to use, which capability slot comes next, which kernel operation follows
//! which, and what to do when one fails. It performs no kernel operation
//! itself. It hands out [`kernel::Request`] values; the caller performs each
//! one and reports the status that came back.
//!
//! To bring up a batch of threads, make an [`init_system::InitSystem`] over
//! the kernel's boot descriptor, call [`init_system::InitSystem::init`] with
//! the batch, and then, for as long as the answer is
//! [`bring_up::Action::Perform`], perform the request and call
//! [`init_system::InitSystem::advance`] with its status. Afterwards
//! [`init_system::InitSystem::classify`] tells the fault badges of the threads
//! from every other badge.

pub mod bootinfo_manager;
pub mod bring_up;
pub mod error;
pub mod init_system;
pub mod ipc;
pub mod kernel;
pub mod platform;
pub mod thread;
pub mod thread_a;
pub mod thread_b;
pub mod vka;
