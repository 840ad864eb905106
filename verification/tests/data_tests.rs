use livegas::block::{is_readable, updates_from_rows, BlockRow, BlockUpdate, ChainBlock};
use livegas::event_loop::Command;
use livegas::gas::{range_answer, GasService};
use livegas::hex::encode_prefixed;
use livegas::network::Network;
use livegas::status::{Code, RpcError};

fn update(number: u64, timestamp: u64) -> BlockUpdate {
    BlockUpdate {
        network: Network::EthMainnet,
        block_number: number,
        block_hash: "0xbeef".to_string(),
        timestamp,
        gas_fee_bits: 7.75f64.to_bits(),
    }
}

#[test]
fn hex_is_prefixed_and_lower_case() {
    assert_eq!(encode_prefixed(&[0xbe, 0xef]), "0xbeef");
    assert_eq!(encode_prefixed(&[0x0f, 0xa0, 0x00]), "0x0fa000");
    assert_eq!(encode_prefixed(&[]), "0x");
    assert_eq!(encode_prefixed(&[0u8; 32]), format!("0x{}", "0".repeat(64)));
}

#[test]
fn chain_block_hash_is_written_in_hex() {
    let mut hash = [0u8; 32];
    for (i, b) in hash.iter_mut().enumerate() {
        *b = i as u8 * 8;
    }
    let block = ChainBlock { number: 1, hash, timestamp: 2, gas_fee_bits: None };
    let u = BlockUpdate::from_chain(Network::EthMainnet, &block, 3);
    let expected: String = hash.iter().map(|b| format!("{:02x}", b)).collect();
    assert_eq!(u.block_hash, format!("0x{}", expected));
    assert_eq!(u.block_number, 1);
    assert_eq!(u.timestamp, 2);
    assert_eq!(u.gas_fee_bits, 3);
}

#[test]
fn network_names_and_codes() {
    assert_eq!(Network::EthMainnet.as_str_name(), "ETH_MAINNET");
    assert_eq!(Network::from_str_name("ETH_MAINNET"), Some(Network::EthMainnet));
    assert_eq!(Network::from_str_name("eth_mainnet"), None);
    assert_eq!(Network::from_str_name(""), None);
    assert_eq!(Network::EthMainnet.code(), 0);
    assert_eq!(Network::from_code(0), Some(Network::EthMainnet));
    assert_eq!(Network::from_code(7), None);
    assert_eq!(Network::from_field(7), Network::EthMainnet);
    assert_eq!(Network::from_field(0), Network::EthMainnet);
}

#[test]
fn row_holds_the_update() {
    let row = update(42, 1_700_000_000).to_row();
    assert_eq!(row.network, "ETH_MAINNET");
    assert_eq!(row.block_number, 42);
    assert_eq!(row.block_hash, "0xbeef");
    assert_eq!(row.block_timestamp, 1_700_000_000);
    assert_eq!(f64::from_bits(row.gas_fee_bits), 7.75);
}

#[test]
fn row_round_trip_keeps_large_numbers() {
    let original = update(u64::MAX, (i64::MAX as u64) + 5);
    let row = original.to_row();
    assert_eq!(row.block_number, -1);
    assert!(row.block_timestamp < 0);
    assert!(is_readable(&row));
    let back = BlockUpdate::from_row(&row);
    assert_eq!(back.network, original.network);
    assert_eq!(back.block_number, u64::MAX);
    assert_eq!(back.timestamp, (i64::MAX as u64) + 5);
    assert_eq!(back.block_hash, original.block_hash);
    assert_eq!(back.gas_fee_bits, original.gas_fee_bits);
}

#[test]
fn rows_read_back_in_order() {
    let rows = vec![update(3, 30).to_row(), update(1, 10).to_row(), update(2, 20).to_row()];
    let updates = updates_from_rows(&rows);
    let numbers: Vec<u64> = updates.iter().map(|u| u.block_number).collect();
    assert_eq!(numbers, vec![3, 1, 2]);
    assert_eq!(updates[2].timestamp, 20);
}

#[test]
fn row_of_unknown_network_is_not_readable() {
    let row = BlockRow {
        network: "POLYGON".to_string(),
        block_number: 1,
        block_hash: "0x00".to_string(),
        block_timestamp: 1,
        gas_fee_bits: 0,
    };
    assert!(!is_readable(&row));
}

#[test]
fn aligned_range_on_served_network_becomes_a_command() {
    let mut service = GasService::new();
    service.register(Network::EthMainnet);
    service.register(Network::EthMainnet);
    assert!(service.serves(Network::EthMainnet));
    match service.blocks(Network::EthMainnet, 100, 300) {
        Ok(Command::FetchBlocks { start_block, end_block }) => {
            assert_eq!(start_block, 100);
            assert_eq!(end_block, 300);
        }
        Err(_) => panic!("expected a command"),
    }
    assert!(service.blocks(Network::EthMainnet, 0, 0).is_ok());
}

#[test]
fn unaligned_range_is_refused_first() {
    let service = GasService::new();
    for (start, end) in [(150, 300), (100, 301), (1, 1)] {
        match service.blocks(Network::EthMainnet, start, end) {
            Err(e) => {
                assert_eq!(e.code, Code::InvalidArgument);
                assert_eq!(e.message, "start_block and end_block have to be multiples of 100");
            }
            Ok(_) => panic!("expected a refusal"),
        }
    }
}

#[test]
fn unserved_network_is_refused() {
    let service = GasService::new();
    assert!(!service.serves(Network::EthMainnet));
    match service.blocks(Network::EthMainnet, 100, 200) {
        Err(e) => {
            assert_eq!(e.code, Code::InvalidArgument);
            assert_eq!(e.message, "Unsupported network");
        }
        Ok(_) => panic!("expected a refusal"),
    }
    match service.subscribe(Network::EthMainnet) {
        Err(e) => {
            assert_eq!(e.code, Code::InvalidArgument);
            assert_eq!(e.message, "Unsupported network");
        }
        Ok(_) => panic!("expected a refusal"),
    }
}

#[test]
fn served_network_can_be_subscribed() {
    let mut service = GasService::new();
    service.register(Network::EthMainnet);
    assert_eq!(service.subscribe(Network::EthMainnet).ok(), Some(Network::EthMainnet));
}

#[test]
fn range_answer_reports_each_failure() {
    match range_answer(false, None) {
        Err(e) => {
            assert_eq!(e.code, Code::Internal);
            assert_eq!(e.message, "Failed to send command");
        }
        Ok(_) => panic!("expected an error"),
    }
    match range_answer(true, None) {
        Err(e) => {
            assert_eq!(e.code, Code::Internal);
            assert_eq!(e.message, "Failed to receive command response");
        }
        Ok(_) => panic!("expected an error"),
    }
    let inner = RpcError::new(Code::Internal, "loop failed");
    match range_answer(true, Some(Err(inner))) {
        Err(e) => assert_eq!(e.message, "loop failed"),
        Ok(_) => panic!("expected an error"),
    }
    match range_answer(true, Some(Ok(vec![update(5, 6)]))) {
        Ok(blocks) => {
            assert_eq!(blocks.len(), 1);
            assert_eq!(blocks[0].block_number, 5);
        }
        Err(_) => panic!("expected blocks"),
    }
}
