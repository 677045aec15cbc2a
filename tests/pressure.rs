use pressure_port::blockchain::{BlockHeight, BlockId, Consensus, SourcePeer};
use pressure_port::counter::{Count, Step};
use pressure_port::generator::{empty_header, SyntheticPeerToPeerPort};
use pressure_port::pressure::{DelayConfig, Stage};
use std::sync::{Arc, Mutex};
use std::time::{Duration, Instant};

const SHA256_OF_NOTHING: [u8; 32] = [
    0xe3, 0xb0, 0xc4, 0x42, 0x98, 0xfc, 0x1c, 0x14, 0x9a, 0xfb, 0xf4, 0xc8, 0x99, 0x6f, 0xb9,
    0x24, 0x27, 0xae, 0x41, 0xe4, 0x64, 0x9b, 0x93, 0x4c, 0xa4, 0x95, 0x99, 0x1b, 0x78, 0x52,
    0xb8, 0x55,
];

const MS: u64 = 1_000_000;

fn runtime() -> tokio::runtime::Runtime {
    tokio::runtime::Builder::new_multi_thread().enable_time().build().unwrap()
}

/// Performs the counting and suspending steps of a plan, stopping before the
/// forward; returns whether the forward was reached.
async fn perform(plan: Vec<Step>, count: Arc<Mutex<Count>>) -> bool {
    for step in plan {
        match step {
            Step::Sleep(n) => tokio::time::sleep(Duration::from_nanos(n)).await,
            Step::Forward => return true,
            other => count.lock().unwrap().record(&other),
        }
    }
    false
}

#[test]
fn generator_header_declares_requested_height() {
    for h in [0u32, 1, 5, 1000, u32::MAX] {
        let r = empty_header(BlockHeight(h));
        assert_eq!(r.data.entity.height, BlockHeight(h));
        assert!(r.peer_id.is_empty());
        assert_eq!(r.data.consensus, Consensus::Genesis);
    }
}

#[test]
fn generator_header_has_empty_transactions_root() {
    let r = empty_header(BlockHeight(5));
    assert_eq!(r.data.entity.transactions_root, SHA256_OF_NOTHING);
}

#[test]
fn generator_always_answers() {
    let port = SyntheticPeerToPeerPort::new();
    let h = port.get_sealed_block_header(BlockHeight(9)).unwrap();
    assert_eq!(h.data.entity.height, BlockHeight(9));
    assert_eq!(h, empty_header(BlockHeight(9)));
    let id = SourcePeer { peer_id: vec![1, 2], data: BlockId([3u8; 32]) };
    assert!(port.get_transactions(&id).unwrap().is_empty());
}

#[test]
fn counter_starts_at_zero_and_increments() {
    let mut c = Count::new();
    assert_eq!(c.snapshot(), (0, 0, 0));
    c.inc_headers();
    c.inc_headers();
    c.inc_blocks();
    c.inc_transactions();
    assert_eq!(c.snapshot(), (2, 1, 1));
    assert_eq!(c.headers_requested(), 2);
    assert_eq!(c.blocks_delivered(), 1);
    assert_eq!(c.transactions_delivered(), 1);
}

#[test]
fn record_ignores_sleep_and_forward() {
    let mut c = Count::new();
    c.record(&Step::Sleep(10));
    c.record(&Step::Forward);
    assert_eq!(c.snapshot(), (0, 0, 0));
    c.record(&Step::CountTransactionsDelivered);
    assert_eq!(c.snapshot(), (0, 0, 1));
    assert!(c.can_record(&Step::CountHeaderRequest));
}

#[test]
fn delays_by_stage() {
    let d = DelayConfig::new(100 * MS, 50 * MS);
    assert_eq!(d.duration(Stage::Headers), 100 * MS);
    assert_eq!(d.duration(Stage::Transactions), 50 * MS);
    let zero = DelayConfig::new(0, 0);
    assert_eq!(zero.header_fetch_plan()[1], Step::Sleep(0));
}

#[test]
fn header_plan_counts_before_delay_and_forwards_last() {
    let d = DelayConfig::new(7, 3);
    assert_eq!(
        d.header_fetch_plan(),
        vec![Step::CountHeaderRequest, Step::Sleep(7), Step::CountBlockDelivered, Step::Forward]
    );
    assert_eq!(
        d.transactions_fetch_plan(),
        vec![Step::Sleep(3), Step::CountTransactionsDelivered, Step::Forward]
    );
}

#[test]
fn header_fetch_scenario() {
    let delays = DelayConfig::new(100 * MS, 50 * MS);
    let count = Arc::new(Mutex::new(Count::new()));
    let port = SyntheticPeerToPeerPort::new();
    let start = Instant::now();
    let reached = runtime().block_on(perform(delays.header_fetch_plan(), count.clone()));
    assert!(reached);
    let header = port.get_sealed_block_header(BlockHeight(5)).unwrap();
    let elapsed = start.elapsed();
    let c = count.lock().unwrap();
    assert_eq!(c.headers_requested(), 1);
    assert_eq!(c.blocks_delivered(), 1);
    assert_eq!(header.data.entity.height, BlockHeight(5));
    assert!(elapsed >= Duration::from_millis(100));
}

#[test]
fn transactions_fetch_scenario() {
    let delays = DelayConfig::new(100 * MS, 50 * MS);
    let count = Arc::new(Mutex::new(Count::new()));
    let port = SyntheticPeerToPeerPort::new();
    let start = Instant::now();
    let reached = runtime().block_on(perform(delays.transactions_fetch_plan(), count.clone()));
    assert!(reached);
    let id = SourcePeer { peer_id: vec![], data: BlockId([0u8; 32]) };
    let txs = port.get_transactions(&id).unwrap();
    let elapsed = start.elapsed();
    assert!(txs.is_empty());
    assert_eq!(count.lock().unwrap().snapshot(), (0, 0, 1));
    assert!(elapsed >= Duration::from_millis(50));
}

#[test]
fn cancelled_header_fetch_counts_request_only() {
    let delays = DelayConfig::new(10_000 * MS, 0);
    let count = Arc::new(Mutex::new(Count::new()));
    let rt = runtime();
    let outcome = rt.block_on(async {
        tokio::time::timeout(
            Duration::from_millis(20),
            perform(delays.header_fetch_plan(), count.clone()),
        )
        .await
    });
    assert!(outcome.is_err());
    assert_eq!(count.lock().unwrap().snapshot(), (1, 0, 0));
}

#[test]
fn concurrent_header_fetches_count_exactly_and_overlap() {
    let delays = DelayConfig::new(100 * MS, 0);
    let count = Arc::new(Mutex::new(Count::new()));
    let rt = runtime();
    let n: u64 = 200;
    let start = Instant::now();
    rt.block_on(async {
        let mut handles = Vec::new();
        for _ in 0..n {
            handles.push(tokio::spawn(perform(delays.header_fetch_plan(), count.clone())));
        }
        for h in handles {
            assert!(h.await.unwrap());
        }
    });
    let elapsed = start.elapsed();
    assert_eq!(count.lock().unwrap().snapshot(), (n, n, 0));
    assert!(elapsed >= Duration::from_millis(100));
    assert!(elapsed < Duration::from_millis(100 * n / 4));
}
