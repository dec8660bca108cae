//! The registry of processor handles the coordinator starts and stops.

use vstd::prelude::*;

verus! {

use crate::adapters::EventProcessorAdapter;

/// Holds one shared handle per processor, in the order they were added.
pub struct ConsumerRepository {
    processors: Vec<EventProcessorAdapter>,
}

impl ConsumerRepository {
    /// The registered processor handles.
    pub closed spec fn spec_processors(&self) -> Seq<EventProcessorAdapter> {
        self.processors@
    }

    /// An empty registry.
    pub fn new() -> (r: ConsumerRepository)
        ensures
            r.spec_processors().len() == 0,
    {
        ConsumerRepository { processors: Vec::new() }
    }

    /// Appends `processor` to the registry.
    pub fn add(&mut self, processor: EventProcessorAdapter)
        ensures
            final(self).spec_processors() == old(self).spec_processors().push(processor),
    {
        self.processors.push(processor);
    }

    /// How many processors are registered.
    pub fn size(&self) -> (r: usize)
        ensures
            r == self.spec_processors().len(),
    {
        self.processors.len()
    }

    /// The registered processors, in registration order.
    pub fn get_processors(&self) -> (r: &Vec<EventProcessorAdapter>)
        ensures
            r@ == self.spec_processors(),
    {
        &self.processors
    }

    /// Exclusive access to the registered processors.
    pub fn get_mut_processors(&mut self) -> (r: &mut Vec<EventProcessorAdapter>)
        ensures
            (*r)@ == old(self).spec_processors(),
            final(self).spec_processors() == (*final(r))@,
    {
        &mut self.processors
    }
}

} // verus!
