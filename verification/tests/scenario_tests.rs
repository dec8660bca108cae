use std::sync::atomic::{AtomicI64, AtomicU64, Ordering};
use std::sync::{Arc, Mutex};
use std::time::{Duration, Instant};

use disruptor_rs::builder::builder;
use disruptor_rs::wait_strategy::BusySpinWaitStrategy;
use disruptor_rs::DisruptorBuilder;
use disruptor_rs::EventFactory;
use disruptor_rs::EventHandler;
use disruptor_rs::Executor;
use disruptor_rs::Runnable;

struct TokioExecutor {
    rt: tokio::runtime::Runtime,
}

impl TokioExecutor {
    fn new(worker_thread_num: usize) -> Self {
        let rt = tokio::runtime::Builder::new_multi_thread()
            .worker_threads(worker_thread_num)
            .build()
            .unwrap();
        TokioExecutor { rt }
    }
}

impl Executor for TokioExecutor {
    fn execute(&self, mut runnable: Box<dyn Runnable>) {
        self.rt.spawn_blocking(move || runnable.run());
    }
}

#[derive(Clone, Default)]
struct Event {
    payload: i64,
    producer_id: i64,
    tag: String,
}

struct Factory;

impl EventFactory<Event> for Factory {
    fn new(&self) -> Event {
        Event::default()
    }
}

struct Recorder {
    out: Arc<Mutex<Vec<i64>>>,
}

impl EventHandler<Event> for Recorder {
    fn on_event(&mut self, event: &mut Event, _sequence: i64, _end_of_batch: bool) {
        self.out.lock().unwrap().push(event.payload);
    }
}

fn wait_until(deadline: Duration, mut done: impl FnMut() -> bool) -> bool {
    let start = Instant::now();
    while start.elapsed() < deadline {
        if done() {
            return true;
        }
        std::hint::spin_loop();
    }
    done()
}

/// Roundtrip with a single producer over a buffer of 8 slots: one handler
/// sees every payload 0..1000 in order, without gaps or duplicates.
#[test]
fn roundtrip_single_producer() {
    let seen = Arc::new(Mutex::new(Vec::new()));
    let (mut disruptor, producer) = builder(
        8,
        Factory,
        TokioExecutor::new(1),
        BusySpinWaitStrategy {},
    )
    .handler(Recorder { out: seen.clone() })
    .build_with_producer();

    disruptor.start();
    for i in 0..1000i64 {
        let published = producer.publish(move |mut e: Event| {
            e.payload = i;
            e
        });
        assert!(published);
    }
    assert!(wait_until(Duration::from_secs(10), || seen.lock().unwrap().len() == 1000));
    disruptor.stop();

    let got = seen.lock().unwrap().clone();
    let expected: Vec<i64> = (0..1000).collect();
    assert_eq!(got, expected);
}

/// Fan-out: two parallel handlers each observe every payload 0..100 in
/// order, so their observations together hold 200 events.
#[test]
fn fan_out_parallel() {
    let seen_a = Arc::new(Mutex::new(Vec::new()));
    let seen_b = Arc::new(Mutex::new(Vec::new()));
    let (mut disruptor, producer) = builder(
        8,
        Factory,
        TokioExecutor::new(2),
        BusySpinWaitStrategy {},
    )
    .handler(Recorder { out: seen_a.clone() })
    .and(Recorder { out: seen_b.clone() })
    .build_with_producer();

    disruptor.start();
    for i in 0..100i64 {
        assert!(producer.publish(move |mut e: Event| {
            e.payload = i;
            e
        }));
    }
    assert!(wait_until(Duration::from_secs(10), || {
        seen_a.lock().unwrap().len() == 100 && seen_b.lock().unwrap().len() == 100
    }));
    disruptor.stop();

    let expected: Vec<i64> = (0..100).collect();
    let got_a = seen_a.lock().unwrap().clone();
    let got_b = seen_b.lock().unwrap().clone();
    assert_eq!(got_a, expected);
    assert_eq!(got_b, expected);
    assert_eq!(got_a.len() + got_b.len(), 200);
}

struct Tagger;

impl EventHandler<Event> for Tagger {
    fn on_event(&mut self, event: &mut Event, _sequence: i64, _end_of_batch: bool) {
        event.tag = "a".to_string();
    }
}

struct TagChecker {
    ok: Arc<Mutex<Vec<bool>>>,
}

impl EventHandler<Event> for TagChecker {
    fn on_event(&mut self, event: &mut Event, _sequence: i64, _end_of_batch: bool) {
        self.ok.lock().unwrap().push(event.tag == "a");
    }
}

/// Sequential pipeline: the first stage tags each event, the second sees the
/// tag on every sequence.
#[test]
fn sequential_pipeline() {
    let ok = Arc::new(Mutex::new(Vec::new()));
    let (mut disruptor, producer) = builder(
        8,
        Factory,
        TokioExecutor::new(2),
        BusySpinWaitStrategy {},
    )
    .handler(Tagger)
    .then(TagChecker { ok: ok.clone() })
    .build_with_producer();

    disruptor.start();
    for i in 0..100i64 {
        assert!(producer.publish(move |mut e: Event| {
            e.payload = i;
            e.tag = String::new();
            e
        }));
    }
    assert!(wait_until(Duration::from_secs(10), || ok.lock().unwrap().len() == 100));
    disruptor.stop();

    let checks = ok.lock().unwrap().clone();
    assert_eq!(checks.len(), 100);
    assert!(checks.iter().all(|&b| b));
}

struct Progress {
    mark: Arc<AtomicI64>,
}

impl EventHandler<Event> for Progress {
    fn on_event(&mut self, _event: &mut Event, sequence: i64, _end_of_batch: bool) {
        self.mark.store(sequence, Ordering::Release);
    }
}

struct FanInChecker {
    upstream_a: Arc<AtomicI64>,
    upstream_b: Arc<AtomicI64>,
    seen: Arc<Mutex<Vec<i64>>>,
    ordered: Arc<Mutex<Vec<bool>>>,
}

impl EventHandler<Event> for FanInChecker {
    fn on_event(&mut self, event: &mut Event, sequence: i64, _end_of_batch: bool) {
        let a = self.upstream_a.load(Ordering::Acquire);
        let b = self.upstream_b.load(Ordering::Acquire);
        self.ordered.lock().unwrap().push(a >= sequence && b >= sequence);
        self.seen.lock().unwrap().push(event.payload);
    }
}

/// Fan-in then parallel: the two stage-two handlers each observe 0..50, and
/// the fan-in stage only sees a sequence after both stage-one handlers have
/// passed it.
#[test]
fn fan_in_then_parallel() {
    let mark_a = Arc::new(AtomicI64::new(-1));
    let mark_b = Arc::new(AtomicI64::new(-1));
    let seen_c = Arc::new(Mutex::new(Vec::new()));
    let ordered_c = Arc::new(Mutex::new(Vec::new()));
    let seen_d = Arc::new(Mutex::new(Vec::new()));
    let ordered_d = Arc::new(Mutex::new(Vec::new()));

    let (mut disruptor, producer) = builder(
        8,
        Factory,
        TokioExecutor::new(4),
        BusySpinWaitStrategy {},
    )
    .handler(Progress { mark: mark_a.clone() })
    .and(Progress { mark: mark_b.clone() })
    .then(FanInChecker {
        upstream_a: mark_a.clone(),
        upstream_b: mark_b.clone(),
        seen: seen_c.clone(),
        ordered: ordered_c.clone(),
    })
    .and(FanInChecker {
        upstream_a: mark_a.clone(),
        upstream_b: mark_b.clone(),
        seen: seen_d.clone(),
        ordered: ordered_d.clone(),
    })
    .build_with_producer();

    disruptor.start();
    for i in 0..50i64 {
        assert!(producer.publish(move |mut e: Event| {
            e.payload = i;
            e
        }));
    }
    assert!(wait_until(Duration::from_secs(10), || {
        seen_c.lock().unwrap().len() == 50 && seen_d.lock().unwrap().len() == 50
    }));
    disruptor.stop();

    let expected: Vec<i64> = (0..50).collect();
    assert_eq!(seen_c.lock().unwrap().clone(), expected);
    assert_eq!(seen_d.lock().unwrap().clone(), expected);
    assert!(ordered_c.lock().unwrap().iter().all(|&b| b));
    assert!(ordered_d.lock().unwrap().iter().all(|&b| b));
}

struct ContentionRecorder {
    per_producer: Arc<Mutex<Vec<Vec<i64>>>>,
    sequences: Arc<Mutex<Vec<i64>>>,
}

impl EventHandler<Event> for ContentionRecorder {
    fn on_event(&mut self, event: &mut Event, sequence: i64, _end_of_batch: bool) {
        self.per_producer.lock().unwrap()[event.producer_id as usize].push(event.payload);
        self.sequences.lock().unwrap().push(sequence);
    }
}

/// Multi-producer contention: four producers each publish 10000 events; the
/// handler sees all 40000, each producer's payloads in their local order,
/// and a strictly increasing sequence stream (so nothing twice).
#[test]
fn multi_producer_contention() {
    let per_producer = Arc::new(Mutex::new(vec![Vec::new(), Vec::new(), Vec::new(), Vec::new()]));
    let sequences = Arc::new(Mutex::new(Vec::new()));
    let (mut disruptor, producer) = DisruptorBuilder::new_multi_producer(
        1024,
        Factory,
        TokioExecutor::new(2),
        BusySpinWaitStrategy {},
    )
    .handler(ContentionRecorder {
        per_producer: per_producer.clone(),
        sequences: sequences.clone(),
    })
    .build_with_producer();

    disruptor.start();

    let producer_rt = tokio::runtime::Builder::new_multi_thread()
        .worker_threads(4)
        .build()
        .unwrap();
    let mut joins = Vec::new();
    for pid in 0..4i64 {
        let p = producer.clone();
        joins.push(producer_rt.spawn_blocking(move || {
            for j in 0..10000i64 {
                assert!(p.publish(move |mut e: Event| {
                    e.producer_id = pid;
                    e.payload = j;
                    e
                }));
            }
        }));
    }
    producer_rt.block_on(async {
        for j in joins {
            j.await.unwrap();
        }
    });

    assert!(wait_until(Duration::from_secs(15), || {
        sequences.lock().unwrap().len() == 40000
    }));
    disruptor.stop();

    let expected: Vec<i64> = (0..10000).collect();
    let vectors = per_producer.lock().unwrap().clone();
    for v in vectors.iter() {
        assert_eq!(v, &expected);
    }
    let seqs = sequences.lock().unwrap().clone();
    assert_eq!(seqs.len(), 40000);
    for w in seqs.windows(2) {
        assert!(w[0] < w[1]);
    }
}

struct SlowCounter {
    count: Arc<AtomicU64>,
}

impl EventHandler<Event> for SlowCounter {
    fn on_event(&mut self, _event: &mut Event, _sequence: i64, _end_of_batch: bool) {
        let start = Instant::now();
        while start.elapsed() < Duration::from_millis(1) {
            std::hint::spin_loop();
        }
        self.count.fetch_add(1, Ordering::AcqRel);
    }
}

/// Backpressure: with 4 slots and a slow handler, a producer publishing 32
/// events cannot finish before the handler has drained at least 28 of them;
/// afterwards all 32 arrive.
#[test]
fn backpressure_slow_handler() {
    let count = Arc::new(AtomicU64::new(0));
    let (mut disruptor, producer) = builder(
        4,
        Factory,
        TokioExecutor::new(1),
        BusySpinWaitStrategy {},
    )
    .handler(SlowCounter { count: count.clone() })
    .build_with_producer();

    disruptor.start();
    for i in 0..32i64 {
        assert!(producer.publish(move |mut e: Event| {
            e.payload = i;
            e
        }));
    }
    let drained_when_producer_done = count.load(Ordering::Acquire);
    assert!(drained_when_producer_done >= 28);

    assert!(wait_until(Duration::from_secs(10), || count.load(Ordering::Acquire) == 32));
    disruptor.stop();
    assert_eq!(count.load(Ordering::Acquire), 32);
}

struct BatchFlagRecorder {
    out: Arc<Mutex<Vec<(i64, bool)>>>,
}

impl EventHandler<Event> for BatchFlagRecorder {
    fn on_event(&mut self, _event: &mut Event, sequence: i64, end_of_batch: bool) {
        self.out.lock().unwrap().push((sequence, end_of_batch));
    }
}

/// Batch end-flag: after the stream is drained the handler has seen every
/// sequence exactly once, and the final event of the final drained run
/// carries the end-of-batch flag.
#[test]
fn end_of_batch_flag() {
    let seen = Arc::new(Mutex::new(Vec::new()));
    let (mut disruptor, producer) = builder(
        8,
        Factory,
        TokioExecutor::new(1),
        BusySpinWaitStrategy {},
    )
    .handler(BatchFlagRecorder { out: seen.clone() })
    .build_with_producer();

    disruptor.start();
    for i in 0..100i64 {
        assert!(producer.publish(move |mut e: Event| {
            e.payload = i;
            e
        }));
    }
    assert!(wait_until(Duration::from_secs(10), || seen.lock().unwrap().len() == 100));
    disruptor.stop();

    let records = seen.lock().unwrap().clone();
    assert_eq!(records.len(), 100);
    for (i, (sequence, _)) in records.iter().enumerate() {
        assert_eq!(*sequence, i as i64);
    }
    // The last drained run ends at the last published sequence.
    assert!(records.last().unwrap().1);
    // Every run boundary flag is followed by the start of a new run; flags
    // never appear twice in a row for one run of length one or more except
    // at genuine boundaries, so each false-flagged event has a successor.
    for (i, (_, end_of_batch)) in records.iter().enumerate() {
        if !end_of_batch {
            assert!(i + 1 < records.len());
        }
    }
}

/// Halt liveness: after `stop` with no active producer the pipeline drains,
/// `has_backlog` reports false, and every processor task ends (dropping the
/// coordinator joins the runtime, which would hang otherwise).
#[test]
fn halt_after_stop() {
    let seen = Arc::new(Mutex::new(Vec::new()));
    let (mut disruptor, producer) = builder(
        8,
        Factory,
        TokioExecutor::new(1),
        BusySpinWaitStrategy {},
    )
    .handler(Recorder { out: seen.clone() })
    .build_with_producer();

    disruptor.start();
    for i in 0..10i64 {
        assert!(producer.publish(move |mut e: Event| {
            e.payload = i;
            e
        }));
    }
    assert!(wait_until(Duration::from_secs(10), || seen.lock().unwrap().len() == 10));
    assert!(!disruptor.has_backlog());
    disruptor.stop();
    drop(disruptor);
    assert_eq!(seen.lock().unwrap().len(), 10);
}
