//! Decision logic of a service that records the gas fees of new blocks of a
//! chain and answers queries for ranges of past blocks.
//!
//! The crate holds what the service computes and decides: the network names,
//! the text form of block hashes, the rows written to and read from storage,
//! the state machine that drives the block event loop, and the checks made on
//! incoming requests.  Performing the I/O (chain subscription, database,
//! channels, gRPC) is left to the caller.

pub mod hex;
pub mod network;
pub mod block;
pub mod status;
pub mod event_loop;
pub mod laws;
pub mod gas;
