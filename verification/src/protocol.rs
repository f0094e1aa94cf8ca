//! What the reader asks of the chain, and what the chain may answer.
//!
//! The reader performs no input or output. It names each call that it needs
//! as a [`Request`]; whoever drives it performs the call and hands back a
//! [`Reply`].

use crate::types::{CheckSignaturesIndices, Log, LogFilter, Operator};
use crate::word::{Address, H256, U256};
use vstd::prelude::*;

verus! {

/// One call to the chain.
#[derive(Clone, Debug, PartialEq, Eq)]
pub enum Request {
    /// The coordinator's `blsApkRegistry()`.
    BlsApkRegistry { registry_coordinator: Address },
    /// The coordinator's `stakeRegistry()`.
    StakeRegistry { registry_coordinator: Address },
    /// The coordinator's `quorumCount()`.
    QuorumCount { registry_coordinator: Address },
    /// The retriever's `getOperatorState` for a list of quorums at a block.
    OperatorState {
        operator_state_retriever: Address,
        registry_coordinator: Address,
        quorum_numbers: Vec<u8>,
        block_number: u32,
    },
    /// The retriever's `getOperatorState` for the quorums of one operator at a block.
    OperatorStateOfOperator {
        operator_state_retriever: Address,
        registry_coordinator: Address,
        operator_id: H256,
        block_number: u32,
    },
    /// The height of the chain.
    BlockNumber,
    /// The coordinator's `getCurrentQuorumBitmap`.
    CurrentQuorumBitmap { registry_coordinator: Address, operator_id: H256 },
    /// The stake registry's `getCurrentStake`.
    CurrentStake { stake_registry: Address, operator_id: H256, quorum_number: u8 },
    /// The retriever's `getCheckSignaturesIndices`.
    CheckSignaturesIndices {
        operator_state_retriever: Address,
        registry_coordinator: Address,
        reference_block_number: u32,
        quorum_numbers: Vec<u8>,
        non_signer_operator_ids: Vec<H256>,
    },
    /// The coordinator's `getOperatorId`.
    OperatorId { registry_coordinator: Address, operator: Address },
    /// The coordinator's `getOperatorFromId`.
    OperatorFromId { registry_coordinator: Address, operator_id: H256 },
    /// The coordinator's `getOperatorStatus`.
    OperatorStatus { registry_coordinator: Address, operator: Address },
    /// The logs that match a filter.
    Logs { filter: LogFilter },
}

/// The outcome of one call. A reply of another shape than the call asks for
/// counts as a failure of the call.
#[derive(Clone, Debug, PartialEq, Eq)]
pub enum Reply {
    /// The call failed.
    Failed,
    /// An address: of a registry, or of an operator.
    Address(Address),
    /// The number of quorums.
    QuorumCount(u8),
    /// For each quorum asked for, its operators in the contract's order.
    OperatorState(Vec<Vec<Operator>>),
    /// The quorum bitmap of an operator, and for each of its quorums the operators.
    OperatorStateOfOperator(U256, Vec<Vec<Operator>>),
    /// The height of the chain.
    BlockNumber(u64),
    /// The quorum bitmap of an operator.
    QuorumBitmap(U256),
    /// The stake of an operator in a quorum.
    Stake(u128),
    /// The indices for a signature check.
    CheckSignaturesIndices(CheckSignaturesIndices),
    /// The identifier of an operator.
    OperatorId(H256),
    /// The registration status of an operator.
    OperatorStatus(u8),
    /// The logs that matched.
    Logs(Vec<Log>),
}

} // verus!
