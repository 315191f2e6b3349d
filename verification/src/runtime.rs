//! The kind of async runtime that drives the transport.

use vstd::prelude::*;

verus! {

/// How many threads run the transport's tasks.
#[derive(Debug, Clone, Copy, PartialEq, Eq, Structural)]
pub enum RuntimeFlavor {
    /// Everything on one thread.
    CurrentThread,
    /// A pool of worker threads.
    MultiThread { worker_threads: usize },
}

/// The runtime for an optional thread count: one thread when none is given
/// or when one is asked for, a pool of that many worker threads otherwise.
pub fn runtime_flavor(thread_count: Option<usize>) -> (flavor: RuntimeFlavor)
    requires
        thread_count != Some(0usize),
    ensures
        match thread_count {
            None => flavor == RuntimeFlavor::CurrentThread,
            Some(n) => flavor == if n == 1 {
                RuntimeFlavor::CurrentThread
            } else {
                RuntimeFlavor::MultiThread { worker_threads: n }
            },
        },
{
    let thread_count: usize = match thread_count {
        Some(n) => n,
        None => 1,
    };
    if thread_count == 1 {
        RuntimeFlavor::CurrentThread
    } else {
        RuntimeFlavor::MultiThread { worker_threads: thread_count }
    }
}

} // verus!
