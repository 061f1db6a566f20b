//! Self-unload: the module asks the loader to detach it while its own code is
//! still running.
//!
//! The call that frees the library also ends the thread that makes it, so it
//! must never run on the render thread. The latch here decides, once per
//! request, whether a worker thread is to be started for it, and makes sure
//! that at most one ever is.

use crate::error::HookError;
use vstd::prelude::*;

verus! {

/// What the caller of an unload request has to do next.
#[derive(Clone, Copy, Debug, PartialEq, Eq, Structural)]
pub enum UnloadAction {
    /// Start a detached worker thread and hand it `module`, the module handle
    /// as plain bits. The worker rebuilds the handle and frees the library,
    /// which ends the worker: nothing placed after that call will run. The
    /// render thread neither joins nor waits for it.
    DetachOnWorker { module: usize },
    /// An unload is already under way: do nothing.
    AlreadyUnloading,
}

/// The answer to an unload request, given whether one is under way and what
/// the lookup of the module's own handle brought.
pub open spec fn unload_outcome(engaged: bool, self_handle: Option<usize>) -> Result<
    UnloadAction,
    HookError,
> {
    if engaged {
        Ok(UnloadAction::AlreadyUnloading)
    } else {
        match self_handle {
            Some(module) => Ok(UnloadAction::DetachOnWorker { module }),
            None => Err(HookError::SelfHandleUnavailable),
        }
    }
}

/// Whether an unload is under way after a request: a failed lookup leaves the
/// latch open, so that a later request may try again.
pub open spec fn engaged_after(engaged: bool, self_handle: Option<usize>) -> bool {
    engaged || self_handle is Some
}

/// Whether an unload is under way after a series of requests.
pub open spec fn engaged_through(engaged: bool, lookups: Seq<Option<usize>>) -> bool
    decreases lookups.len(),
{
    if lookups.len() == 0 {
        engaged
    } else {
        engaged_after(engaged_through(engaged, lookups.drop_last()), lookups.last())
    }
}

/// How many of a series of requests are answered with `DetachOnWorker`.
pub open spec fn detaches(engaged: bool, lookups: Seq<Option<usize>>) -> nat
    decreases lookups.len(),
{
    if lookups.len() == 0 {
        0
    } else {
        let earlier = lookups.drop_last();
        let last = unload_outcome(engaged_through(engaged, earlier), lookups.last());
        if last matches Ok(UnloadAction::DetachOnWorker { .. }) {
            detaches(engaged, earlier) + 1
        } else {
            detaches(engaged, earlier)
        }
    }
}

/// Remembers that an unload has been started.
#[derive(Debug)]
pub struct UnloadLatch {
    engaged: bool,
}

impl View for UnloadLatch {
    type V = bool;

    /// True once a worker has been asked for.
    closed spec fn view(&self) -> bool {
        self.engaged
    }
}

impl UnloadLatch {
    /// A latch with no unload under way.
    pub fn new() -> (latch: UnloadLatch)
        ensures
            !latch@,
    {
        UnloadLatch { engaged: false }
    }

    /// Whether an unload is under way.
    pub fn is_engaged(&self) -> (engaged: bool)
        ensures
            engaged == self@,
    {
        self.engaged
    }

    /// Handles one unload request. `self_handle` is what the lookup of the
    /// running module's own handle gave, as plain bits, or `None` if it failed.
    pub fn request(&mut self, self_handle: Option<usize>) -> (outcome: Result<
        UnloadAction,
        HookError,
    >)
        ensures
            outcome == unload_outcome(old(self)@, self_handle),
            final(self)@ == engaged_after(old(self)@, self_handle),
    {
        if self.engaged {
            Ok(UnloadAction::AlreadyUnloading)
        } else {
            match self_handle {
                Some(module) => {
                    self.engaged = true;
                    Ok(UnloadAction::DetachOnWorker { module })
                },
                None => Err(HookError::SelfHandleUnavailable),
            }
        }
    }
}

/// A request that follows one answered with `DetachOnWorker` is answered with
/// `AlreadyUnloading`, whatever its lookup gave.
pub proof fn lemma_second_request_is_idle(
    engaged: bool,
    first: Option<usize>,
    second: Option<usize>,
)
    requires
        unload_outcome(engaged, first) matches Ok(UnloadAction::DetachOnWorker { .. }),
    ensures
        unload_outcome(engaged_after(engaged, first), second) == Ok::<UnloadAction, HookError>(
            UnloadAction::AlreadyUnloading,
        ),
{
}

/// No series of requests is answered with `DetachOnWorker` more than once, and
/// none at all once an unload is under way. An unload is under way afterwards
/// exactly if it was before or a worker was asked for.
pub proof fn lemma_at_most_one_detach(engaged: bool, lookups: Seq<Option<usize>>)
    ensures
        detaches(engaged, lookups) <= 1,
        engaged ==> detaches(engaged, lookups) == 0,
        engaged_through(engaged, lookups) == (engaged || detaches(engaged, lookups) == 1),
    decreases lookups.len(),
{
    if lookups.len() > 0 {
        lemma_at_most_one_detach(engaged, lookups.drop_last());
    }
}

} // verus!
