//! The read-side view a consumer waits on: dependent sequences, a wait
//! strategy, and a sticky alert flag.

use vstd::prelude::*;

verus! {

use std::sync::atomic::AtomicBool;
use std::sync::atomic::Ordering;
use std::sync::Arc;
use crate::adapters::SequencerAdapter;
use crate::sequence::Sequence;
use crate::SequenceBarrier;
use crate::Sequencer;
use crate::WaitStrategy;

/// Combines a wait strategy, the sequencer, and the sequences this consumer
/// must not outrun. The alert flag is sticky: once raised it fails every
/// wait until it is explicitly cleared, which a processor does when its run
/// starts.
pub struct ProcessingSequenceBarrier<W, S>
where
    W: WaitStrategy,
    S: Sequencer,
{
    alert: Arc<AtomicBool>,
    wait_strategy: Arc<W>,
    sequencer: SequencerAdapter<S>,
    dependent_sequence: Vec<Arc<Sequence>>,
}

impl<W, S> ProcessingSequenceBarrier<W, S>
where
    W: WaitStrategy,
    S: Sequencer,
{
    /// The sequences this barrier waits on.
    pub closed spec fn spec_dependents(&self) -> Seq<Arc<Sequence>> {
        self.dependent_sequence@
    }

    /// A barrier over `dependent_sequence`; a consumer with no upstream
    /// stage depends on the sequencer's cursor instead, so an empty list is
    /// defaulted to exactly that.
    pub fn new(
        wait_strategy: Arc<W>,
        sequencer: SequencerAdapter<S>,
        dependent_sequence: Vec<Arc<Sequence>>,
    ) -> (r: ProcessingSequenceBarrier<W, S>)
        ensures
            r.spec_dependents().len() > 0,
            dependent_sequence@.len() > 0 ==> r.spec_dependents() == dependent_sequence@,
            dependent_sequence@.len() == 0 ==> r.spec_dependents() == seq![
                sequencer@.spec_cursor(),
            ],
    {
        let mut dependent_sequence = dependent_sequence;
        if dependent_sequence.len() == 0 {
            dependent_sequence.push(sequencer.cursor());
        }
        ProcessingSequenceBarrier {
            alert: Arc::new(AtomicBool::new(false)),
            wait_strategy,
            sequencer,
            dependent_sequence,
        }
    }
}

impl<W, S> SequenceBarrier for ProcessingSequenceBarrier<W, S>
where
    W: WaitStrategy,
    S: Sequencer,
{
    fn wait_for(&self, sequence: i64) -> (r: Option<i64>)
        ensures
            r is Some ==> r->Some_0 >= sequence - 1,
    {
        match self.wait_strategy.wait_for(
            sequence,
            self.sequencer.cursor(),
            &self.dependent_sequence,
            || self.alert.load(Ordering::Acquire),
        ) {
            Some(available_sequence) => {
                if available_sequence < sequence {
                    // A strategy that can wake early hands back its progress
                    // unclamped; the caller retries.
                    Some(available_sequence)
                } else {
                    // Clamp to the contiguous published prefix; with several
                    // producers the range may have holes behind the front.
                    Some(self.sequencer.highest_published(sequence, available_sequence))
                }
            },
            None => None,
        }
    }

    fn alert(&self) {
        self.alert.store(true, Ordering::Release);
        self.wait_strategy.signal_all_when_blocking();
    }

    fn clear_alert(&self) {
        self.alert.store(false, Ordering::Release);
    }
}

} // verus!
