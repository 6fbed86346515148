//! The deferred-deletion queue: destructions that wait until the device is
//! known to be done with what they destroy.

use crate::submit::{cleanups_model, Cleanup, CleanupModel};
use vstd::prelude::*;

verus! {

/// An ordered list of destructions, bound to one scope: a frame in flight, a
/// generation of pipelines, or the whole application.
///
/// The queue is flushed when the device has finished the work of its scope:
/// when the frame's fence has signalled, or when the device is idle.
#[derive(Debug)]
pub struct DeletionQueue {
    deletors: Vec<Cleanup>,
}

impl View for DeletionQueue {
    type V = Seq<CleanupModel>;

    closed spec fn view(&self) -> Seq<CleanupModel> {
        cleanups_model(self.deletors@)
    }
}

impl DeletionQueue {
    /// An empty queue.
    pub fn new() -> (queue: Self)
        ensures
            queue@ == Seq::<CleanupModel>::empty(),
    {
        let queue = DeletionQueue { deletors: Vec::new() };
        queue
    }

    /// The number of destructions that wait.
    pub fn len(&self) -> (len: usize)
        ensures
            len == self@.len(),
    {
        self.deletors.len()
    }

    /// Appends a destruction.
    pub fn push(&mut self, deleter: Cleanup)
        ensures
            final(self)@ == old(self)@.push(deleter@),
    {
        self.deletors.push(deleter);
    }

    /// Takes every destruction out of the queue, first in first out, for the
    /// caller to run in that order. The queue is empty afterwards, so nothing
    /// runs twice.
    pub fn flush(&mut self) -> (drained: Vec<Cleanup>)
        ensures
            cleanups_model(drained@) == old(self)@,
            final(self)@ == Seq::<CleanupModel>::empty(),
    {
        let mut drained: Vec<Cleanup> = Vec::new();
        core::mem::swap(&mut self.deletors, &mut drained);
        drained
    }
}

} // verus!
