//! Waiting for a disconnection to properly happen.

use vstd::prelude::*;
use std::io::Write;
use std::sync::{Arc, Barrier};

verus! {

/// The barrier on which the thread that closes a connection and the thread
/// that waits for the closing meet.
#[verifier::external_type_specification]
#[verifier::external_body]
pub struct ExBarrier(std::sync::Barrier);

/// Calls `std::sync::Barrier::wait`: blocks until every party of the barrier
/// has called it. Nothing is promised of when that happens. It is claimed not
/// to unwind: std's barrier panics only on a poisoned lock, which takes a
/// panic inside another wait on the same barrier.
#[verifier::external_body]
fn barrier_wait(barrier: &Barrier)
    opens_invariants none
    no_unwind
{
    barrier.wait();
}

/// Calls `is_main_thread::is_main_thread`: `Some(true)` on the main thread,
/// `Some(false)` on another one, `None` where the platform cannot tell. What
/// comes back depends on the calling thread, so nothing is promised of it.
#[verifier::external_body]
fn main_thread_answer() -> Option<bool>
    opens_invariants none
    no_unwind
{
    is_main_thread::is_main_thread()
}

/// Writes `message` and a line break to the standard output. A failure to
/// write is ignored (std returns it as an error value), so this never
/// panics, where `println!` would.
#[verifier::external_body]
fn print_line(message: &str)
    opens_invariants none
    no_unwind
{
    let _ = writeln!(std::io::stdout(), "{}", message);
}

/// Whether the answer to "is this the main thread?" calls for a warning:
/// only a definite no does.
pub fn not_on_the_main_thread(answer: Option<bool>) -> (warn: bool)
    ensures
        warn == (answer == Some(false)),
    opens_invariants none
    no_unwind
{
    match answer {
        Some(is_main_thread) => !is_main_thread,
        None => false,
    }
}

/// A thingy that allows to make sure that a disconnection has the time to happen properly
/// before process termination.
///
/// If the disconnection is not given the time to finish properly, then the other end
/// will not be properly notified that the connection is closed and will have to
/// timeout to notice, which is so rude!
///
/// When the main thread terminates, all the other threads are killed, so only the main thread
/// should have the responsability to wait for the disconnection to properly end
/// (because other threads could just be killed by the main thread's termination).
/// For this reason, a `DisconnectionHandle` should be passed to the main thread
/// and only then call [`DisconnectionHandle::wait_for_proper_disconnection`].
///
/// If you do not care about this or know that waiting in whatever thread is fine,
/// then call [`DisconnectionHandle::wait_for_proper_disconnection_while_not_on_the_main_thread`],
/// not unsafe but has a long name.
///
/// Should not be dropped without the waiting being done.
#[must_use]
pub struct DisconnectionHandle {
    barrier: Option<Arc<Barrier>>,
    waited_for: bool,
    /// Records that the barrier was waited on, right after the wait.
    barrier_waited_on: Ghost<bool>,
}

impl DisconnectionHandle {
    /// A handle counts as waited for only once its barrier, if it has one,
    /// has been waited on.
    #[verifier::type_invariant]
    spec fn waiting_done_on_the_barrier(self) -> bool {
        self.waited_for ==> (self.barrier is None || self.barrier_waited_on@)
    }

    /// Has the barrier been waited on?
    pub closed spec fn barrier_waited_on(&self) -> bool {
        self.barrier_waited_on@
    }

    /// The barrier to wait on, if there is anything to wait for.
    pub closed spec fn barrier(&self) -> Option<Arc<Barrier>> {
        self.barrier
    }

    /// Has the waiting been done?
    pub closed spec fn waited_for(&self) -> bool {
        self.waited_for
    }

    /// A handle for a disconnection that is over when `barrier` is passed.
    pub fn with_barrier(barrier: Arc<Barrier>) -> (handle: DisconnectionHandle)
        ensures
            handle.barrier() == Some(barrier),
            !handle.waited_for(),
            !handle.barrier_waited_on(),
    {
        DisconnectionHandle { barrier: Some(barrier), waited_for: false, barrier_waited_on: Ghost(false) }
    }

    /// A handle for a disconnection that has nothing to wait for.
    pub fn without_barrier() -> (handle: DisconnectionHandle)
        ensures
            handle.barrier() is None,
            !handle.waited_for(),
            !handle.barrier_waited_on(),
    {
        DisconnectionHandle { barrier: None, waited_for: false, barrier_waited_on: Ghost(false) }
    }

    /// Wait for the diconnection that returned this handle to properly happen.
    ///
    /// It should be fast, but should be done. When diconnecting and then terminating
    /// the process, the process termination can happen too fast and cut the networking
    /// thread half way through its process of properly disconnecting.
    ///
    /// For every disconnection that you do not wait properly for, a kitten feel sad.
    /// Do not sadden kitties, please wait for proper disconnections.
    pub fn wait_for_proper_disconnection(self)
        opens_invariants none
        no_unwind
    {
        let mut handle = self;
        Self::check_that_we_are_on_the_main_thread();
        handle.actually_wait_for_proper_disconnection();
    }

    /// If you are reaaallly sure that you can wait just fine on this thread
    /// that may not be the main thread, then call this method.
    ///
    /// Same as [`DisconnectionHandle::wait_for_proper_disconnection`] but
    /// doesn't warns if called from a thread that is not the main thread.
    pub fn wait_for_proper_disconnection_while_not_on_the_main_thread(self)
        opens_invariants none
        no_unwind
    {
        let mut handle = self;
        handle.actually_wait_for_proper_disconnection();
    }

    /// Waits on the barrier, if there is one, and records that the waiting was done.
    pub fn actually_wait_for_proper_disconnection(&mut self)
        ensures
            final(self).barrier() == old(self).barrier(),
            final(self).waited_for(),
            final(self).barrier() is Some ==> final(self).barrier_waited_on(),
        opens_invariants none
        no_unwind
    {
        match &self.barrier {
            Some(barrier) => {
                barrier_wait(barrier);
                self.barrier_waited_on = Ghost(true);
            },
            None => {},
        }
        self.waited_for = true;
    }

    /// Warns when the calling thread is known not to be the main thread.
    pub fn check_that_we_are_on_the_main_thread()
        opens_invariants none
        no_unwind
    {
        let answer = main_thread_answer();
        if not_on_the_main_thread(answer) {
            print_line(
                "Warning: `ClientDisconnectionHandle::wait_for_proper_disconnection` should be called in the main thread, see documentation as to why",
            );
        }
    }
}

impl Drop for DisconnectionHandle {
    fn drop(&mut self)
        opens_invariants none
        no_unwind
    {
        if !self.waited_for {
            print_line(
                "Warning: `ClientDisconnectionHandle` dropped instead of being intentionally waited for",
            );
            Self::check_that_we_are_on_the_main_thread();
            self.actually_wait_for_proper_disconnection();
        }
    }
}

} // verus!
