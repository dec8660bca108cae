//! How a consumer passes the time until its target sequence is reachable.

use vstd::prelude::*;

verus! {

use std::sync::Arc;
use crate::sequence::Sequence;
use crate::util::minimum_sequence;
use crate::WaitStrategy;
use crate::SPIN_LIMIT;

/// Spins in a tight loop with a CPU pause hint: the lowest latency, at the
/// price of a fully busy core.
pub struct BusySpinWaitStrategy;

impl WaitStrategy for BusySpinWaitStrategy {
    fn wait_for<F: Fn() -> bool>(
        &self,
        sequence: i64,
        cursor: Arc<Sequence>,
        dependent_sequence: &Vec<Arc<Sequence>>,
        check_alert: F,
    ) -> (r: Option<i64>)
        ensures
            r is Some ==> r->Some_0 >= sequence,
    {
        let mut available_sequence = minimum_sequence(dependent_sequence);
        let mut fuel: u64 = SPIN_LIMIT;
        while available_sequence < sequence
            invariant
                forall|a: ()| check_alert.requires(a),
            decreases fuel,
        {
            if check_alert() {
                return None;
            }
            available_sequence = minimum_sequence(dependent_sequence);
            if fuel == 0 {
                return None;
            }
            fuel = fuel - 1;
            std::hint::spin_loop();
        }
        Some(available_sequence)
    }

    fn signal_all_when_blocking(&self) {
    }
}

/// Spins while conceding the core between probes. The runtime seam that
/// could park or reschedule the thread lives outside the verified core, so
/// the concession is the same pause hint the busy strategy uses; the two
/// strategies remain distinct points for callers to choose between.
pub struct YieldingWaitStrategy;

impl WaitStrategy for YieldingWaitStrategy {
    fn wait_for<F: Fn() -> bool>(
        &self,
        sequence: i64,
        cursor: Arc<Sequence>,
        dependent_sequence: &Vec<Arc<Sequence>>,
        check_alert: F,
    ) -> (r: Option<i64>)
        ensures
            r is Some ==> r->Some_0 >= sequence,
    {
        let mut available_sequence = minimum_sequence(dependent_sequence);
        let mut fuel: u64 = SPIN_LIMIT;
        while available_sequence < sequence
            invariant
                forall|a: ()| check_alert.requires(a),
            decreases fuel,
        {
            if check_alert() {
                return None;
            }
            available_sequence = minimum_sequence(dependent_sequence);
            if fuel == 0 {
                return None;
            }
            fuel = fuel - 1;
            std::hint::spin_loop();
        }
        Some(available_sequence)
    }

    fn signal_all_when_blocking(&self) {
    }
}

} // verus!
