use std::sync::atomic::{AtomicU64, Ordering};
use std::sync::{Arc, Mutex};
use std::time::{Duration, Instant};

use disruptor_rs::wait_strategy::BusySpinWaitStrategy;
use disruptor_rs::BatchEventProcessor;
use disruptor_rs::ConsumerRepository;
use disruptor_rs::EventFactory;
use disruptor_rs::EventHandler;
use disruptor_rs::EventProcessorAdapter;
use disruptor_rs::MultiProducer;
use disruptor_rs::MultiProducerSequencer;
use disruptor_rs::ProcessingSequenceBarrier;
use disruptor_rs::Publisher;
use disruptor_rs::RingBuffer;
use disruptor_rs::Runnable;
use disruptor_rs::Sequence;
use disruptor_rs::SequenceBarrier;
use disruptor_rs::SequencerAdapter;
use disruptor_rs::Sequencer;
use disruptor_rs::SharedRef;
use disruptor_rs::SingleProducerSequencer;
use disruptor_rs::WorkHandler;
use disruptor_rs::WorkProcessor;

#[derive(Clone, Default)]
struct Slot {
    value: i64,
}

struct SlotFactory;

impl EventFactory<Slot> for SlotFactory {
    fn new(&self) -> Slot {
        Slot::default()
    }
}

#[test]
fn sequence_starts_at_minus_one() {
    let s = Sequence::new();
    assert_eq!(s.get(), -1);
}

#[test]
fn sequence_set_get() {
    let s = Sequence::new();
    s.set(5);
    assert_eq!(s.get(), 5);
    s.set(7);
    assert_eq!(s.get(), 7);
}

#[test]
fn sequence_get_is_floored_at_initial_value() {
    let s = Sequence::new();
    s.set(-1);
    assert_eq!(s.get(), -1);
}

#[test]
fn sequence_compare_exchange() {
    let s = Sequence::new();
    s.set(5);
    // A weak exchange may fail spuriously; retry until it takes.
    let mut tries = 0;
    while !s.compare_exchange_weak(5, 6) {
        tries += 1;
        assert!(tries < 1000);
    }
    assert_eq!(s.get(), 6);
    // With a stale expected value the exchange must not take.
    assert!(!s.compare_exchange_weak(5, 9));
    assert_eq!(s.get(), 6);
}

#[test]
fn shared_ref_shares_one_value() {
    let r = SharedRef::new(42i64);
    assert_eq!(*r.borrow(), 42);
    let c = r.clone();
    assert_eq!(*c.borrow(), 42);
}

#[test]
fn ring_buffer_slots_wrap() {
    let rb: RingBuffer<Slot> = RingBuffer::new(4, SlotFactory);
    let (mut e, guard) = rb.acquire_slot(1);
    assert_eq!(e.value, 0);
    e.value = 11;
    guard.release(e);
    // Sequence 5 maps to the same slot as sequence 1.
    let (e, guard) = rb.acquire_slot(5);
    assert_eq!(e.value, 11);
    guard.release(e);
    // A different slot is untouched.
    let (e, guard) = rb.acquire_slot(0);
    assert_eq!(e.value, 0);
    guard.release(e);
}

#[test]
fn single_producer_sequencer_claims_in_order() {
    let s = SingleProducerSequencer::new(8);
    assert_eq!(s.buffer_size(), 8);
    assert_eq!(s.next(1), Some(0));
    assert_eq!(s.next(1), Some(1));
    assert_eq!(s.next(2), Some(3));
}

#[test]
fn single_producer_sequencer_publish_and_available() {
    let s = SingleProducerSequencer::new(8);
    assert_eq!(s.next(1), Some(0));
    assert!(!s.available(0));
    s.publish(0);
    assert!(s.available(0));
    assert!(!s.available(1));
    assert_eq!(s.cursor().get(), 0);
    // The single producer publishes in order, so the whole asked range is
    // already contiguous.
    assert_eq!(s.highest_published(0, 5), 5);
}

#[test]
fn multi_producer_sequencer_claims_and_publishes() {
    let s = MultiProducerSequencer::new(8);
    assert_eq!(s.buffer_size(), 8);
    assert_eq!(s.next(1), Some(0));
    assert!(!s.available(0));
    s.publish(0);
    assert!(s.available(0));
}

#[test]
fn multi_producer_lap_flag_tells_occupants_apart() {
    let s = MultiProducerSequencer::new(8);
    assert_eq!(s.next(1), Some(0));
    s.publish(0);
    assert!(s.available(0));
    // Sequence 8 shares the slot of sequence 0 but belongs to the next lap,
    // so publishing 0 must not make 8 look available.
    assert!(!s.available(8));
}

#[test]
fn multi_producer_highest_published_stops_at_gap() {
    let s = MultiProducerSequencer::new(8);
    assert_eq!(s.next(3), Some(2));
    s.publish(0);
    s.publish(2);
    // 1 is still unpublished: the contiguous prefix ends at 0.
    assert_eq!(s.highest_published(0, 2), 0);
    s.publish(1);
    assert_eq!(s.highest_published(0, 2), 2);
    // A range below the asked start comes back unchanged.
    assert_eq!(s.highest_published(3, 2), 2);
}

#[test]
fn multi_producer_batch_publish_covers_range() {
    let s = MultiProducerSequencer::new(8);
    assert_eq!(s.next(4), Some(3));
    s.batch_publish(0, 3);
    assert!(s.available(0));
    assert!(s.available(1));
    assert!(s.available(2));
    assert!(s.available(3));
    assert_eq!(s.highest_published(0, 3), 3);
}

/// A barrier built with no dependent sequences falls back to the cursor, so
/// it unblocks exactly when the sequencer publishes.
#[test]
fn barrier_defaults_to_cursor() {
    let sequencer = SingleProducerSequencer::new(8);
    let adapter = SequencerAdapter::new(sequencer);
    let ws = Arc::new(BusySpinWaitStrategy);
    let barrier = ProcessingSequenceBarrier::new(ws, adapter.clone(), vec![]);
    assert_eq!(adapter.next(1), Some(0));
    adapter.publish(0);
    assert_eq!(barrier.wait_for(0), Some(0));
}

/// A raised alert makes a wait fail instead of spinning; clearing it lets
/// the next wait succeed again.
#[test]
fn barrier_alert_interrupts_wait() {
    let sequencer = SingleProducerSequencer::new(8);
    let adapter = SequencerAdapter::new(sequencer);
    let ws = Arc::new(BusySpinWaitStrategy);
    let barrier = ProcessingSequenceBarrier::new(ws, adapter.clone(), vec![adapter.cursor()]);
    assert_eq!(adapter.next(1), Some(0));
    adapter.publish(0);
    barrier.alert();
    // Sequence 1 is not published; the sticky alert fails the wait at once.
    assert_eq!(barrier.wait_for(1), None);
    barrier.clear_alert();
    assert_eq!(barrier.wait_for(0), Some(0));
}

/// The smallest legal ring has one slot; without gating sequences a producer
/// may run one full lap ahead of the initial minimum.
#[test]
fn single_producer_smallest_buffer() {
    let s = SingleProducerSequencer::new(1);
    assert_eq!(s.next(1), Some(0));
    s.publish(0);
    assert!(s.available(0));
    assert_eq!(s.next(1), Some(1));
}

/// With one slot the lap flag is the sequence itself, so each lap's occupant
/// is told apart from every other.
#[test]
fn multi_producer_smallest_buffer() {
    let s = MultiProducerSequencer::new(1);
    assert_eq!(s.next(1), Some(0));
    s.publish(0);
    assert!(s.available(0));
    assert!(!s.available(1));
}

struct CountingHandler {
    count: Arc<AtomicU64>,
}

impl EventHandler<Slot> for CountingHandler {
    fn on_event(&mut self, _event: &mut Slot, _sequence: i64, _end_of_batch: bool) {
        self.count.fetch_add(1, Ordering::AcqRel);
    }
}

#[test]
fn consumer_repository_counts_processors() {
    let sequencer = SingleProducerSequencer::new(8);
    let adapter = SequencerAdapter::new(sequencer);
    let rb = Arc::new(RingBuffer::new(8, SlotFactory));
    let ws = Arc::new(BusySpinWaitStrategy);
    let barrier = Arc::new(ProcessingSequenceBarrier::new(
        ws,
        adapter.clone(),
        vec![adapter.cursor()],
    ));
    let processor = BatchEventProcessor::new(
        CountingHandler { count: Arc::new(AtomicU64::new(0)) },
        rb,
        barrier,
    );

    let mut repo = ConsumerRepository::new();
    assert_eq!(repo.size(), 0);
    repo.add(EventProcessorAdapter::new(Box::new(processor)));
    assert_eq!(repo.size(), 1);
    assert_eq!(repo.get_processors().len(), 1);
    assert_eq!(repo.get_processors()[0].sequence().get(), -1);
    assert!(!repo.get_processors()[0].running());
}

#[test]
fn publisher_writes_claimed_slot() {
    let sequencer = SingleProducerSequencer::new(8);
    let adapter = SequencerAdapter::new(sequencer);
    let rb = Arc::new(RingBuffer::new(8, SlotFactory));
    let publisher = Publisher::new(adapter.clone(), rb.clone());
    assert!(publisher.publish(|mut e: Slot| {
        e.value = 99;
        e
    }));
    // The first claim is sequence 0 and it is published.
    assert!(adapter.available(0));
    let (e, guard) = rb.acquire_slot(0);
    assert_eq!(e.value, 99);
    guard.release(e);
}

/// Batch publish through the facade: one claim of `n`, every claimed slot
/// rewritten in order, the whole range visible afterwards.
#[test]
fn publisher_batch_publish_fills_range() {
    let sequencer = SingleProducerSequencer::new(8);
    let adapter = SequencerAdapter::new(sequencer);
    let rb = Arc::new(RingBuffer::new(8, SlotFactory));
    let publisher = Publisher::new(adapter.clone(), rb.clone());
    assert!(publisher.batch_publish(3, |s, mut e: Slot| {
        e.value = 100 + s;
        e
    }));
    // The claim was 0..=2 and the whole range is published.
    assert!(adapter.available(0));
    assert!(adapter.available(1));
    assert!(adapter.available(2));
    assert!(!adapter.available(3));
    assert_eq!(adapter.cursor().get(), 2);
    for s in 0..3i64 {
        let (e, guard) = rb.acquire_slot(s);
        assert_eq!(e.value, 100 + s);
        guard.release(e);
    }
}

/// The multi-producer facade drives the same batch path; with out-of-order
/// capable producers the range still comes out contiguous.
#[test]
fn multi_producer_batch_publish_through_facade() {
    let sequencer = MultiProducerSequencer::new(8);
    let adapter = SequencerAdapter::new(sequencer);
    let rb = Arc::new(RingBuffer::new(8, SlotFactory));
    let producer = MultiProducer::new(adapter.clone(), rb.clone());
    assert!(producer.batch_publish(4, |s, mut e: Slot| {
        e.value = s * 2;
        e
    }));
    assert!(adapter.available(0));
    assert!(adapter.available(3));
    assert_eq!(adapter.highest_published(0, 3), 3);
    let (e, guard) = rb.acquire_slot(3);
    assert_eq!(e.value, 6);
    guard.release(e);
}

struct PoolRecorder {
    out: Arc<Mutex<Vec<i64>>>,
}

impl WorkHandler<Slot> for PoolRecorder {
    fn on_event(&mut self, event: &mut Slot) {
        self.out.lock().unwrap().push(event.value);
    }
}

fn wait_until(deadline: Duration, mut done: impl FnMut() -> bool) -> bool {
    let start = Instant::now();
    while start.elapsed() < deadline {
        if done() {
            return true;
        }
        std::hint::spin_loop();
    }
    done()
}

/// Competing consumers: two pool members share one work sequence, and every
/// published event is handled by exactly one of them.
#[test]
fn work_pool_delivers_each_event_once() {
    let sequencer = SingleProducerSequencer::new(16);
    let adapter = SequencerAdapter::new(sequencer);
    let rb = Arc::new(RingBuffer::new(16, SlotFactory));
    let ws = Arc::new(BusySpinWaitStrategy);
    let barrier = Arc::new(ProcessingSequenceBarrier::new(
        ws,
        adapter.clone(),
        vec![adapter.cursor()],
    ));
    let work_sequence = Arc::new(Sequence::new());
    let out = Arc::new(Mutex::new(Vec::new()));

    let w1 = WorkProcessor::new(
        work_sequence.clone(),
        PoolRecorder { out: out.clone() },
        rb.clone(),
        barrier.clone(),
    );
    let w2 = WorkProcessor::new(
        work_sequence.clone(),
        PoolRecorder { out: out.clone() },
        rb.clone(),
        barrier.clone(),
    );
    let a1 = EventProcessorAdapter::new(Box::new(w1));
    let a2 = EventProcessorAdapter::new(Box::new(w2));
    adapter.add_gating_sequence(a1.sequence());
    adapter.add_gating_sequence(a2.sequence());

    let rt = tokio::runtime::Builder::new_multi_thread().worker_threads(2).build().unwrap();
    let mut r1 = a1.clone();
    let mut r2 = a2.clone();
    rt.spawn_blocking(move || r1.run());
    rt.spawn_blocking(move || r2.run());

    let publisher = Publisher::new(adapter.clone(), rb.clone());
    for i in 0..100i64 {
        assert!(publisher.publish(move |mut e: Slot| {
            e.value = i;
            e
        }));
    }

    assert!(wait_until(Duration::from_secs(10), || out.lock().unwrap().len() == 100));
    a1.halt();
    a2.halt();

    let mut got = out.lock().unwrap().clone();
    got.sort();
    let expected: Vec<i64> = (0..100).collect();
    assert_eq!(got, expected);
}
