//! Teardown of a role that runs a background thread.
//!
//! The thread is stopped by asking its loop to end and then waiting for the
//! thread. A `ShutdownCoordinator` holds both halves: the request, which the
//! loop reads between two turns, and the handle of the thread. It lives
//! inside the role whose loop it ends. The handle leaves it in one way only,
//! by `teardown`, which records the request in the same step and leaves no
//! handle behind. So no thread is waited for before its own loop was asked
//! to end, and none is waited for twice.

use vstd::prelude::*;

verus! {

/// The request to shut down, and the handle of the thread to wait for.
pub struct ShutdownCoordinator<H> {
    requested: bool,
    handle: Option<H>,
}

/// A `ShutdownCoordinator` as a mathematical value.
pub struct ShutdownView<H> {
    /// Whether the loop has been asked to end.
    pub requested: bool,
    /// The handle of the thread, while it is kept.
    pub handle: Option<H>,
}

impl<H> View for ShutdownCoordinator<H> {
    type V = ShutdownView<H>;

    closed spec fn view(&self) -> ShutdownView<H> {
        ShutdownView { requested: self.requested, handle: self.handle }
    }
}

impl<H> ShutdownCoordinator<H> {
    /// A coordinator of a loop that was not asked to end and whose thread
    /// is not known.
    pub fn new() -> (r: Self)
        ensures
            r@ == (ShutdownView::<H> { requested: false, handle: None }),
    {
        ShutdownCoordinator { requested: false, handle: None }
    }

    /// Whether the loop has been asked to end.
    pub fn requested(&self) -> (requested: bool)
        ensures
            requested == self@.requested,
    {
        self.requested
    }

    /// Whether a handle is kept.
    pub fn keeps_handle(&self) -> (kept: bool)
        ensures
            kept == self@.handle is Some,
    {
        self.handle.is_some()
    }

    /// Asks the loop to end. The handle stays where it is.
    pub fn request(&mut self)
        ensures
            final(self)@ == (ShutdownView { requested: true, handle: old(self)@.handle }),
    {
        self.requested = true;
    }

    /// Takes charge of the handle of the thread. Where a handle is kept
    /// already, nothing changes and the new one is given back.
    pub fn attach(&mut self, handle: H) -> (refused: Option<H>)
        ensures
            old(self)@.handle is None ==> refused is None && final(self)@ == (ShutdownView {
                requested: old(self)@.requested,
                handle: Some(handle),
            }),
            old(self)@.handle is Some ==> refused == Some(handle) && final(self)@ == old(self)@,
    {
        if self.handle.is_some() {
            Some(handle)
        } else {
            self.handle = Some(handle);
            None
        }
    }

    /// Asks the loop to end and gives the handle of its thread, which the
    /// caller then waits for. No handle is left: a second teardown gives
    /// none.
    pub fn teardown(&mut self) -> (handle: Option<H>)
        ensures
            handle == old(self)@.handle,
            final(self)@ == (ShutdownView::<H> { requested: true, handle: None }),
    {
        self.requested = true;
        self.handle.take()
    }
}

} // verus!
