//! The values that the registry's contracts and logs hand out.

use crate::word::{Address, H256, U256};
use num_bigint::BigInt;
use vstd::prelude::*;

verus! {

/// The stake of one operator in one quorum.
#[derive(Clone, Copy, Debug, PartialEq, Eq)]
pub struct Operator {
    /// The operator's account.
    pub operator: Address,
    /// The operator's identifier.
    pub operator_id: H256,
    /// The operator's stake.
    pub stake: U256,
}

/// The indices that a signature check needs, as the retriever contract gives
/// them. They are handed on as they come.
#[derive(Clone, Debug, PartialEq, Eq)]
pub struct CheckSignaturesIndices {
    pub non_signer_quorum_bitmap_indices: Vec<u32>,
    pub quorum_apk_indices: Vec<u32>,
    pub total_stake_indices: Vec<u32>,
    pub non_signer_stake_indices: Vec<Vec<u32>>,
}

/// A point on the curve G1.
#[derive(Debug, PartialEq, Eq)]
pub struct G1Point {
    pub x: BigInt,
    pub y: BigInt,
}

/// A point on the curve G2; each coordinate has two parts.
#[derive(Debug, PartialEq, Eq)]
pub struct G2Point {
    pub x: (BigInt, BigInt),
    pub y: (BigInt, BigInt),
}

/// The BLS public keys of an operator.
#[derive(Debug, PartialEq, Eq)]
pub struct OperatorPubKeys {
    pub g1_pub_key: G1Point,
    pub g2_pub_key: G2Point,
}

/// A block height, or one of the chain's named blocks.
#[derive(Clone, Copy, Debug, PartialEq, Eq)]
pub enum BlockNumber {
    Latest,
    Finalized,
    Safe,
    Earliest,
    Pending,
    Number(u64),
}

/// Which logs to fetch: those of one contract, in a range of blocks with both
/// ends included, whose first topic is `topic0`. The other topics are free.
#[derive(Clone, Copy, Debug, PartialEq, Eq)]
pub struct LogFilter {
    pub address: Address,
    pub from_block: BlockNumber,
    pub to_block: BlockNumber,
    pub topic0: H256,
}

/// One log record.
#[derive(Clone, Debug, PartialEq, Eq)]
pub struct Log {
    /// The contract that wrote the log.
    pub address: Address,
    /// The topics: the event's signature, then its indexed arguments.
    pub topics: Vec<H256>,
    /// The arguments that are not indexed.
    pub data: Vec<u8>,
    /// The block of the log, where the chain gave it.
    pub block_number: Option<u64>,
    /// The place of the log in its block, where the chain gave it.
    pub log_index: Option<u64>,
}

} // verus!
