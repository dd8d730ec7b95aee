//! A proxy through which user events are handed to a running event loop.
//! The loop's shared runner buffers whatever is sent until the loop gets to
//! it; sending to a loop that has closed would return the event to the
//! sender.

use vstd::prelude::*;

verus! {

/// The error a send returns when the event loop is gone; it hands the
/// undelivered event back.
pub struct EventLoopClosed<T>(pub T);

/// The state an event loop shares with its proxies: the user events sent
/// and not yet taken, oldest first.
pub struct Shared<T> {
    pub pending: Vec<T>,
}

impl<T> Shared<T> {
    /// A runner with nothing pending yet.
    pub fn new() -> (s: Shared<T>)
        ensures
            s.pending@ == Seq::<T>::empty(),
    {
        Shared { pending: Vec::new() }
    }
}

/// A handle for sending user events into the event loop that owns the
/// runner.
pub struct EventLoopProxy<T> {
    pub runner: Shared<T>,
}

impl<T> EventLoopProxy<T> {
    /// Wraps a runner in a proxy.
    pub fn new(runner: Shared<T>) -> (p: Self)
        ensures
            p.runner.pending@ == runner.pending@,
    {
        Self { runner }
    }

    /// Queues one user event on the runner. The runner is still there, so
    /// the send always succeeds and the event joins the end of the pending
    /// queue.
    pub fn send_event(&mut self, event: T) -> (r: Result<(), EventLoopClosed<T>>)
        ensures
            r is Ok,
            final(self).runner.pending@ == old(self).runner.pending@.push(event),
    {
        self.runner.pending.push(event);
        Ok(())
    }
}

} // verus!
