//! Blocks as they come from the chain, as they are sent to clients, and as
//! they are stored.
//!
//! Gas fees are floating-point numbers (gwei); this crate carries them as the
//! bit pattern of that `f64` (`f64::to_bits`), which it stores and passes on
//! unchanged.  The bit pattern `0` is the fee `0.0`.

use vstd::prelude::*;
use crate::hex::{encode_prefixed, prefixed_hex};
use crate::network::{Network, network_name, parse_network};

verus! {

/// A block header as received from the chain, reduced to what the service
/// reads from it.
pub struct ChainBlock {
    /// The block number.
    pub number: u64,
    /// The block hash.
    pub hash: [u8; 32],
    /// The block timestamp (seconds since the Unix epoch).
    pub timestamp: u64,
    /// The base fee per gas in gwei, as `f64` bits, when the block has one.
    pub gas_fee_bits: Option<u64>,
}

pub struct ChainBlockView {
    pub number: u64,
    pub hash: Seq<u8>,
    pub timestamp: u64,
    pub gas_fee_bits: Option<u64>,
}

impl View for ChainBlock {
    type V = ChainBlockView;

    open spec fn view(&self) -> ChainBlockView {
        ChainBlockView {
            number: self.number,
            hash: self.hash@,
            timestamp: self.timestamp,
            gas_fee_bits: self.gas_fee_bits,
        }
    }
}

/// A block as sent to subscribers and in range replies.
pub struct BlockUpdate {
    pub network: Network,
    pub block_number: u64,
    /// `0x` followed by the lower-case hexadecimal block hash.
    pub block_hash: String,
    pub timestamp: u64,
    /// The gas fee in gwei, as `f64` bits.
    pub gas_fee_bits: u64,
}

pub struct BlockUpdateView {
    pub network: Network,
    pub block_number: u64,
    pub block_hash: Seq<char>,
    pub timestamp: u64,
    pub gas_fee_bits: u64,
}

impl View for BlockUpdate {
    type V = BlockUpdateView;

    open spec fn view(&self) -> BlockUpdateView {
        BlockUpdateView {
            network: self.network,
            block_number: self.block_number,
            block_hash: self.block_hash@,
            timestamp: self.timestamp,
            gas_fee_bits: self.gas_fee_bits,
        }
    }
}

/// A row of the `blocks` table.
pub struct BlockRow {
    /// The network name, such as `ETH_MAINNET`.
    pub network: String,
    pub block_number: i64,
    pub block_hash: String,
    pub block_timestamp: i64,
    /// The gas fee in gwei, as `f64` bits.
    pub gas_fee_bits: u64,
}

pub struct BlockRowView {
    pub network: Seq<char>,
    pub block_number: i64,
    pub block_hash: Seq<char>,
    pub block_timestamp: i64,
    pub gas_fee_bits: u64,
}

impl View for BlockRow {
    type V = BlockRowView;

    open spec fn view(&self) -> BlockRowView {
        BlockRowView {
            network: self.network@,
            block_number: self.block_number,
            block_hash: self.block_hash@,
            block_timestamp: self.block_timestamp,
            gas_fee_bits: self.gas_fee_bits,
        }
    }
}

/// The update for a chain block on `network`, with the given gas fee.
pub open spec fn update_from_chain(
    network: Network,
    block: ChainBlockView,
    gas_fee_bits: u64,
) -> BlockUpdateView {
    BlockUpdateView {
        network,
        block_number: block.number,
        block_hash: prefixed_hex(block.hash),
        timestamp: block.timestamp,
        gas_fee_bits,
    }
}

/// The row written for an update: numbers are stored as `i64` by two's
/// complement.
pub open spec fn row_of(update: BlockUpdateView) -> BlockRowView {
    BlockRowView {
        network: network_name(update.network),
        block_number: update.block_number as i64,
        block_hash: update.block_hash,
        block_timestamp: update.timestamp as i64,
        gas_fee_bits: update.gas_fee_bits,
    }
}

/// A row can be read back when it names a known network.
pub open spec fn row_is_readable(row: BlockRowView) -> bool {
    parse_network(row.network) is Some
}

/// The update that a readable row stands for.
pub open spec fn update_of_row(row: BlockRowView) -> BlockUpdateView {
    BlockUpdateView {
        network: parse_network(row.network).unwrap(),
        block_number: row.block_number as u64,
        block_hash: row.block_hash,
        timestamp: row.block_timestamp as u64,
        gas_fee_bits: row.gas_fee_bits,
    }
}

impl BlockUpdate {
    /// The update for a block received from the chain on `network`, with the
    /// hash written as `0x`-prefixed lower-case hexadecimal.
    pub fn from_chain(network: Network, block: &ChainBlock, gas_fee_bits: u64) -> (update:
        BlockUpdate)
        ensures
            update@ == update_from_chain(network, block@, gas_fee_bits),
    {
        let block_hash = encode_prefixed(block.hash.as_slice());
        BlockUpdate {
            network,
            block_number: block.number,
            block_hash,
            timestamp: block.timestamp,
            gas_fee_bits,
        }
    }

    /// The row that stores this update.
    pub fn to_row(&self) -> (row: BlockRow)
        ensures
            row@ == row_of(self@),
    {
        BlockRow {
            network: String::from_str(self.network.as_str_name()),
            block_number: self.block_number as i64,
            block_hash: self.block_hash.clone(),
            block_timestamp: self.timestamp as i64,
            gas_fee_bits: self.gas_fee_bits,
        }
    }

    /// The update that a stored row stands for.  The row must name a known
    /// network.
    pub fn from_row(row: &BlockRow) -> (update: BlockUpdate)
        requires
            row_is_readable(row@),
        ensures
            update@ == update_of_row(row@),
    {
        let network = Network::from_str_name(row.network.as_str());
        BlockUpdate {
            network: network.unwrap(),
            block_number: row.block_number as u64,
            block_hash: row.block_hash.clone(),
            timestamp: row.block_timestamp as u64,
            gas_fee_bits: row.gas_fee_bits,
        }
    }
}

/// Whether a row can be read back, as `row_is_readable` says.
pub fn is_readable(row: &BlockRow) -> (readable: bool)
    ensures
        readable == row_is_readable(row@),
{
    Network::from_str_name(row.network.as_str()).is_some()
}

/// The updates that a list of rows stands for, in the rows' order.  Every row
/// must name a known network.
pub fn updates_from_rows(rows: &Vec<BlockRow>) -> (updates: Vec<BlockUpdate>)
    requires
        forall|i: int| 0 <= i < rows@.len() ==> row_is_readable(#[trigger] rows@[i]@),
    ensures
        updates@.len() == rows@.len(),
        forall|i: int| 0 <= i < rows@.len() ==> #[trigger] updates@[i]@ == update_of_row(rows@[i]@),
{
    let mut updates: Vec<BlockUpdate> = Vec::new();
    let n = rows.len();
    let mut i: usize = 0;
    while i < n
        invariant
            n == rows@.len(),
            i <= n,
            forall|j: int| 0 <= j < rows@.len() ==> row_is_readable(#[trigger] rows@[j]@),
            updates@.len() == i,
            forall|j: int| 0 <= j < i ==> #[trigger] updates@[j]@ == update_of_row(rows@[j]@),
        decreases n - i,
    {
        let update = BlockUpdate::from_row(&rows[i]);
        updates.push(update);
        i = i + 1;
    }
    updates
}

/// A stored update reads back unchanged: reading the row written for an
/// update gives that update again.
pub proof fn lemma_row_round_trip(update: BlockUpdateView)
    ensures
        row_is_readable(row_of(update)),
        update_of_row(row_of(update)) == update,
{
    let n = update.block_number;
    let t = update.timestamp;
    assert(((n as i64) as u64) == n) by (bit_vector);
    assert(((t as i64) as u64) == t) by (bit_vector);
}

} // verus!
