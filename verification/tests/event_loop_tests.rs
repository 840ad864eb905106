use livegas::block::{BlockUpdate, ChainBlock};
use livegas::event_loop::{Action, ChainRead, Command, Event, EventLoop, StorageRead};
use livegas::network::Network;
use livegas::status::Code;

fn chain_block(number: u64, first_byte: u8, fee: Option<f64>) -> ChainBlock {
    let mut hash = [0u8; 32];
    hash[0] = first_byte;
    ChainBlock { number, hash, timestamp: 1_700_000_000 + number, gas_fee_bits: fee.map(f64::to_bits) }
}

fn stored_update(number: u64) -> BlockUpdate {
    BlockUpdate {
        network: Network::EthMainnet,
        block_number: number,
        block_hash: format!("0x{:064x}", number),
        timestamp: 1_600_000_000 + number,
        gas_fee_bits: 12.5f64.to_bits(),
    }
}

fn listening_loop() -> EventLoop {
    let mut l = EventLoop::new(Network::EthMainnet);
    assert!(matches!(l.step(Event::Subscribed), Action::Wait));
    l
}

fn expect_read(action: Action, number: i64) {
    match action {
        Action::ReadStored { network, block_number } => {
            assert_eq!(network, "ETH_MAINNET");
            assert_eq!(block_number, number);
        }
        _ => panic!("expected a storage read"),
    }
}

#[test]
fn new_loop_follows_its_network() {
    let l = EventLoop::new(Network::EthMainnet);
    assert_eq!(l.network(), Network::EthMainnet);
    assert!(!l.is_stopped());
    assert!(l.accepts(&Event::Subscribed));
    assert!(!l.accepts(&Event::Stored { ok: true }));
}

#[test]
fn failed_subscription_is_reported_and_stops() {
    let mut l = EventLoop::new(Network::EthMainnet);
    let action = l.step(Event::SubscribeFailed { reason: "connection refused".to_string() });
    match action {
        Action::ReportFailure(e) => {
            assert_eq!(e.code, Code::Internal);
            assert_eq!(e.message, "failed to subscribe to blocks: connection refused");
        }
        _ => panic!("expected a failure report"),
    }
    assert!(l.is_stopped());
    assert!(!l.accepts(&Event::Subscribed));
    assert!(!l.accepts(&Event::Command(Command::FetchBlocks { start_block: 0, end_block: 0 })));
}

#[test]
fn live_block_is_stored_then_published() {
    let mut l = listening_loop();
    let action = l.step(Event::NewBlock(chain_block(17, 0xab, Some(31.25))));
    let row = match action {
        Action::Store(row) => row,
        _ => panic!("expected a store"),
    };
    assert_eq!(row.network, "ETH_MAINNET");
    assert_eq!(row.block_number, 17);
    assert_eq!(row.block_timestamp, 1_700_000_017);
    assert_eq!(row.block_hash, format!("0xab{}", "0".repeat(62)));
    assert_eq!(f64::from_bits(row.gas_fee_bits), 31.25);
    match l.step(Event::Stored { ok: true }) {
        Action::Publish(u) => {
            assert_eq!(u.network, Network::EthMainnet);
            assert_eq!(u.block_number, 17);
            assert_eq!(u.block_hash, row.block_hash);
            assert_eq!(u.timestamp, 1_700_000_017);
            assert_eq!(f64::from_bits(u.gas_fee_bits), 31.25);
        }
        _ => panic!("expected a publish"),
    }
    assert!(matches!(l.step(Event::Published { ok: true }), Action::Wait));
    assert!(l.accepts(&Event::NewBlock(chain_block(18, 1, Some(1.0)))));
}

#[test]
fn live_block_that_fails_to_store_is_not_published() {
    let mut l = listening_loop();
    assert!(matches!(l.step(Event::NewBlock(chain_block(3, 1, Some(2.0)))), Action::Store(_)));
    assert!(matches!(l.step(Event::Stored { ok: false }), Action::Wait));
    assert!(!l.is_stopped());
    assert!(l.accepts(&Event::Command(Command::FetchBlocks { start_block: 0, end_block: 0 })));
}

#[test]
fn failed_publish_halts_the_loop() {
    let mut l = listening_loop();
    l.step(Event::NewBlock(chain_block(3, 1, Some(2.0))));
    l.step(Event::Stored { ok: true });
    assert!(matches!(l.step(Event::Published { ok: false }), Action::Halt));
    assert!(l.is_stopped());
}

#[test]
fn fetch_collects_stored_and_fetched_blocks_in_order() {
    let mut l = listening_loop();
    let action = l.step(Event::Command(Command::FetchBlocks { start_block: 10, end_block: 13 }));
    expect_read(action, 10);
    // 10 is in storage.
    let action = l.step(Event::StorageRead(StorageRead::Found(stored_update(10))));
    expect_read(action, 11);
    // 11 is not stored; the chain has it and storing it succeeds.
    match l.step(Event::StorageRead(StorageRead::Missing)) {
        Action::FetchFromChain { number } => assert_eq!(number, 11),
        _ => panic!("expected a chain fetch"),
    }
    match l.step(Event::ChainRead(ChainRead::Found(chain_block(11, 0x11, None)))) {
        Action::Store(row) => {
            assert_eq!(row.block_number, 11);
            assert_eq!(row.gas_fee_bits, 0.0f64.to_bits());
        }
        _ => panic!("expected a store"),
    }
    let action = l.step(Event::Stored { ok: true });
    expect_read(action, 12);
    // 12: the storage read fails; the chain has it, but storing it fails.
    assert!(matches!(l.step(Event::StorageRead(StorageRead::Failed)), Action::FetchFromChain { number: 12 }));
    assert!(matches!(l.step(Event::ChainRead(ChainRead::Found(chain_block(12, 0x12, Some(9.0))))), Action::Store(_)));
    let action = l.step(Event::Stored { ok: false });
    expect_read(action, 13);
    // 13 is nowhere.
    assert!(matches!(l.step(Event::StorageRead(StorageRead::Missing)), Action::FetchFromChain { number: 13 }));
    match l.step(Event::ChainRead(ChainRead::Missing)) {
        Action::Reply(blocks) => {
            assert_eq!(blocks.len(), 2);
            assert_eq!(blocks[0].block_number, 10);
            assert_eq!(blocks[0].block_hash, format!("0x{:064x}", 10));
            assert_eq!(f64::from_bits(blocks[0].gas_fee_bits), 12.5);
            assert_eq!(blocks[1].block_number, 11);
            assert_eq!(blocks[1].block_hash, format!("0x11{}", "0".repeat(62)));
            assert_eq!(blocks[1].gas_fee_bits, 0);
        }
        _ => panic!("expected a reply"),
    }
    assert!(l.accepts(&Event::NewBlock(chain_block(20, 0, Some(1.0)))));
}

#[test]
fn empty_range_is_answered_at_once() {
    let mut l = listening_loop();
    match l.step(Event::Command(Command::FetchBlocks { start_block: 200, end_block: 100 })) {
        Action::Reply(blocks) => assert!(blocks.is_empty()),
        _ => panic!("expected an empty reply"),
    }
}

#[test]
fn chain_failure_skips_the_block() {
    let mut l = listening_loop();
    expect_read(l.step(Event::Command(Command::FetchBlocks { start_block: 5, end_block: 5 })), 5);
    l.step(Event::StorageRead(StorageRead::Missing));
    match l.step(Event::ChainRead(ChainRead::Failed)) {
        Action::Reply(blocks) => assert!(blocks.is_empty()),
        _ => panic!("expected a reply"),
    }
}

#[test]
fn range_ending_at_the_largest_number_finishes() {
    let mut l = listening_loop();
    let start = u64::MAX - 1;
    expect_read(l.step(Event::Command(Command::FetchBlocks { start_block: start, end_block: u64::MAX })), -2);
    let mut last = stored_update(0);
    last.block_number = u64::MAX;
    let mut first = stored_update(0);
    first.block_number = start;
    expect_read(l.step(Event::StorageRead(StorageRead::Found(first))), -1);
    match l.step(Event::StorageRead(StorageRead::Found(last))) {
        Action::Reply(blocks) => {
            assert_eq!(blocks.len(), 2);
            assert_eq!(blocks[1].block_number, u64::MAX);
        }
        _ => panic!("expected a reply"),
    }
}
