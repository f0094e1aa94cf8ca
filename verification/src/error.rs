//! Errors of the registry reader.

use vstd::prelude::*;

verus! {

/// Why a query of the registry failed. Each variant names the step that failed.
#[derive(Clone, Copy, Debug, PartialEq, Eq, Structural)]
pub enum AvsRegistryError {
    /// The coordinator did not give the address of the BLS public-key registry.
    GetBlsApkRegistry,
    /// The coordinator did not give the address of the stake registry.
    GetStakeRegistry,
    /// The quorum count could not be read.
    GetQuorumCount,
    /// The operator state of the quorums could not be read.
    GetOperatorState,
    /// The operator state of the quorums of one operator could not be read.
    GetOperatorStateWithRegistryCoordinatorAndOperatorId,
    /// The current block number does not fit in 32 bits.
    BlockNumberOverflow,
    /// The operator state at the current block could not be read.
    GetOperatorStakeInQuorumAtBlockNumber,
    /// The current block number could not be read.
    GetBlockNumber,
    /// The quorums and operator state of one operator at a block could not be read.
    GetOperatorStakeInQuorumAtBlockOperatorId,
    /// The quorums and operator state of one operator at the current block could not be read.
    GetOperatorStakeInQuorumAtCurrentBlockNumber,
    /// The stake of the operator in one of its quorums could not be read.
    GetCurrentStake,
    /// The current quorum bitmap of the operator could not be read.
    GetCurrentQuorumBitmap,
    /// The signature-check indices could not be read.
    CheckSignatureIndices,
    /// The identifier of the operator could not be read.
    GetOperatorId,
    /// The address of the operator could not be read.
    GetOperatorFromId,
    /// The registration status of the operator could not be read.
    GetOperatorStatus,
    /// A log does not have the layout of a public-key registration.
    DecodeEventNewPubkeyRegistrationFilter,
    /// The logs could not be fetched.
    GetEthLogs,
}

/// The kind of an error: which outside dependency produced the failure.
#[derive(Clone, Copy, Debug, PartialEq, Eq, Structural)]
pub enum ErrorKind {
    /// A dependent contract address could not be discovered.
    ContractResolution,
    /// A read-only contract call, or the read of the block height, failed.
    RpcCall,
    /// The fetch of logs failed.
    LogFetch,
    /// The current block height exceeds 32 bits.
    BlockNumberOverflow,
    /// The current quorum bitmap of an operator could not be read.
    BitmapLookup,
    /// A per-quorum stake could not be read.
    StakeLookup,
    /// An operator identifier or address could not be resolved.
    OperatorLookup,
    /// The registration status of an operator could not be read.
    OperatorStatus,
    /// The signature-check indices call failed.
    CheckSignaturesIndices,
    /// A log did not match the layout of the event.
    EventDecode,
}

impl AvsRegistryError {
    /// The kind of this error.
    pub open spec fn spec_kind(self) -> ErrorKind {
        match self {
            AvsRegistryError::GetBlsApkRegistry => ErrorKind::ContractResolution,
            AvsRegistryError::GetStakeRegistry => ErrorKind::ContractResolution,
            AvsRegistryError::GetQuorumCount => ErrorKind::RpcCall,
            AvsRegistryError::GetOperatorState => ErrorKind::RpcCall,
            AvsRegistryError::GetOperatorStateWithRegistryCoordinatorAndOperatorId => {
                ErrorKind::RpcCall
            },
            AvsRegistryError::BlockNumberOverflow => ErrorKind::BlockNumberOverflow,
            AvsRegistryError::GetOperatorStakeInQuorumAtBlockNumber => ErrorKind::RpcCall,
            AvsRegistryError::GetBlockNumber => ErrorKind::RpcCall,
            AvsRegistryError::GetOperatorStakeInQuorumAtBlockOperatorId => ErrorKind::RpcCall,
            AvsRegistryError::GetOperatorStakeInQuorumAtCurrentBlockNumber => ErrorKind::RpcCall,
            AvsRegistryError::GetCurrentStake => ErrorKind::StakeLookup,
            AvsRegistryError::GetCurrentQuorumBitmap => ErrorKind::BitmapLookup,
            AvsRegistryError::CheckSignatureIndices => ErrorKind::CheckSignaturesIndices,
            AvsRegistryError::GetOperatorId => ErrorKind::OperatorLookup,
            AvsRegistryError::GetOperatorFromId => ErrorKind::OperatorLookup,
            AvsRegistryError::GetOperatorStatus => ErrorKind::OperatorStatus,
            AvsRegistryError::DecodeEventNewPubkeyRegistrationFilter => ErrorKind::EventDecode,
            AvsRegistryError::GetEthLogs => ErrorKind::LogFetch,
        }
    }

    /// The kind of this error.
    #[verifier::when_used_as_spec(spec_kind)]
    pub fn kind(self) -> (r: ErrorKind)
        ensures
            r == self.spec_kind(),
    {
        match self {
            AvsRegistryError::GetBlsApkRegistry => ErrorKind::ContractResolution,
            AvsRegistryError::GetStakeRegistry => ErrorKind::ContractResolution,
            AvsRegistryError::GetQuorumCount => ErrorKind::RpcCall,
            AvsRegistryError::GetOperatorState => ErrorKind::RpcCall,
            AvsRegistryError::GetOperatorStateWithRegistryCoordinatorAndOperatorId => {
                ErrorKind::RpcCall
            },
            AvsRegistryError::BlockNumberOverflow => ErrorKind::BlockNumberOverflow,
            AvsRegistryError::GetOperatorStakeInQuorumAtBlockNumber => ErrorKind::RpcCall,
            AvsRegistryError::GetBlockNumber => ErrorKind::RpcCall,
            AvsRegistryError::GetOperatorStakeInQuorumAtBlockOperatorId => ErrorKind::RpcCall,
            AvsRegistryError::GetOperatorStakeInQuorumAtCurrentBlockNumber => ErrorKind::RpcCall,
            AvsRegistryError::GetCurrentStake => ErrorKind::StakeLookup,
            AvsRegistryError::GetCurrentQuorumBitmap => ErrorKind::BitmapLookup,
            AvsRegistryError::CheckSignatureIndices => ErrorKind::CheckSignaturesIndices,
            AvsRegistryError::GetOperatorId => ErrorKind::OperatorLookup,
            AvsRegistryError::GetOperatorFromId => ErrorKind::OperatorLookup,
            AvsRegistryError::GetOperatorStatus => ErrorKind::OperatorStatus,
            AvsRegistryError::DecodeEventNewPubkeyRegistrationFilter => ErrorKind::EventDecode,
            AvsRegistryError::GetEthLogs => ErrorKind::LogFetch,
        }
    }
}

} // verus!
