//! The registry reader: its queries, as state machines over requests and replies.
//!
//! A method of [`AvsRegistryChainReader`] starts a query and returns its first
//! [`Step`]. While the step is a call, the driver performs the request and
//! hands the reply to [`Query::resume`], which returns the next step. The
//! query ends with an answer or an error.

use crate::bigint::{bigint_from_u128, u128_to_bigint};
use crate::bitmap::{bitmap_to_quorum_ids, decodes};
use crate::error::AvsRegistryError;
use crate::events::{
    all_registrations, decode_registrations, registrations_decoded,
    NEW_BLS_APK_REGISTRATION_EVENT_SIGNATURE,
};
use crate::protocol::{Reply, Request};
use crate::types::{BlockNumber, CheckSignaturesIndices, LogFilter, Operator, OperatorPubKeys};
use crate::word::{Address, H256, U256};
use num_bigint::BigInt;
use std::collections::HashMap;
use vstd::prelude::*;

verus! {

broadcast use vstd::std_specs::hash::group_hash_axioms;

/// The status that the coordinator gives to a registered operator.
pub const OPERATOR_STATUS_REGISTERED: u8 = 1;

/// The addresses of the contracts of one AVS registry.
#[derive(Clone, Copy, Debug, PartialEq, Eq)]
pub struct AvsRegistryChainReader {
    pub bls_apk_registry_addr: Address,
    pub registry_coordinator_addr: Address,
    pub operator_state_retriever: Address,
    pub stake_registry_addr: Address,
}

/// What a query gives when it succeeds.
#[derive(Debug, PartialEq, Eq)]
pub enum Answer {
    /// A reader whose registries the coordinator named.
    Reader(AvsRegistryChainReader),
    /// The number of quorums.
    QuorumCount(u8),
    /// For each quorum asked for, its operators.
    OperatorState(Vec<Vec<Operator>>),
    /// The quorum bitmap of an operator, and for each of its quorums the operators.
    BitmapAndOperatorState(U256, Vec<Vec<Operator>>),
    /// For each quorum asked for, the addresses of its operators.
    OperatorAddrs(Vec<Vec<Address>>),
    /// The quorums of an operator, and for each of them the operators.
    QuorumsAndOperatorState(Vec<u8>, Vec<Vec<Operator>>),
    /// The stake of an operator in each of its quorums.
    Stakes(HashMap<u8, BigInt>),
    /// The indices for a signature check.
    CheckSignaturesIndices(CheckSignaturesIndices),
    /// The identifier of an operator.
    OperatorId(H256),
    /// The address of an operator.
    Operator(Address),
    /// Whether an operator is registered.
    Registered(bool),
    /// The operators that registered public keys, and their keys.
    PubKeys(Vec<Address>, Vec<OperatorPubKeys>),
}

/// A query in progress: what it waits for, and what it needs to go on.
#[derive(Debug, PartialEq, Eq)]
pub enum Query {
    /// Building a reader: waits for the address of the BLS public-key registry.
    BlsApkRegistry { registry_coordinator: Address, operator_state_retriever: Address },
    /// Building a reader: waits for the address of the stake registry.
    StakeRegistry {
        registry_coordinator: Address,
        operator_state_retriever: Address,
        bls_apk_registry: Address,
    },
    /// Waits for the quorum count.
    QuorumCount,
    /// Waits for the operator state of `quorum_count` quorums at a given block.
    OperatorState { quorum_count: usize },
    /// Waits for the bitmap and operator state of an operator at a given block.
    OperatorStateOfOperator,
    /// Stakes at the current block: waits for the height.
    StakesHeight {
        operator_state_retriever: Address,
        registry_coordinator: Address,
        quorum_numbers: Vec<u8>,
    },
    /// Stakes at the current block: waits for the operator state.
    StakesAtHeight { quorum_count: usize },
    /// Addresses at the current block: waits for the height.
    AddrsHeight {
        operator_state_retriever: Address,
        registry_coordinator: Address,
        quorum_numbers: Vec<u8>,
    },
    /// Addresses at the current block: waits for the operator state.
    AddrsAtHeight { quorum_count: usize },
    /// Quorums and stakes of an operator at a given block: waits for the state.
    QuorumsOfOperator,
    /// Quorums and stakes of an operator at the current block: waits for the height.
    QuorumsOfOperatorHeight {
        operator_state_retriever: Address,
        registry_coordinator: Address,
        operator_id: H256,
    },
    /// Quorums and stakes of an operator at the current block: waits for the state.
    QuorumsOfOperatorAtHeight,
    /// Stake of an operator in its quorums: waits for the quorum bitmap.
    StakeBitmap { stake_registry: Address, operator_id: H256 },
    /// Stake of an operator in its quorums: waits for the stake in quorum
    /// `quorums[next]`; `stakes` holds the stakes in the quorums before it.
    /// Where `next` is no place in `quorums` the query waits for nothing, and
    /// fails on whatever comes.
    StakeOfQuorum {
        stake_registry: Address,
        operator_id: H256,
        quorums: Vec<u8>,
        next: usize,
        stakes: HashMap<u8, BigInt>,
    },
    /// Waits for the indices of a signature check.
    CheckSignaturesIndices,
    /// Waits for the identifier of an operator.
    OperatorId,
    /// Waits for the address of an operator.
    OperatorFromId,
    /// Waits for the status of an operator.
    OperatorStatus,
    /// Waits for the logs of public-key registrations.
    Logs,
}

/// Where a query stands: it needs a call, or it has ended.
#[derive(Debug, PartialEq, Eq)]
pub enum Step {
    /// Perform the request and hand its reply to the query.
    Call(Query, Request),
    /// The query has ended with this result.
    Done(Result<Answer, AvsRegistryError>),
}

/// The block number that a height stands for, if it fits in 32 bits.
pub fn block_number_from_height(height: u64) -> (r: Result<u32, AvsRegistryError>)
    ensures
        height <= u32::MAX ==> r == Ok::<u32, AvsRegistryError>(height as u32),
        height > u32::MAX ==> r == Err::<u32, AvsRegistryError>(
            AvsRegistryError::BlockNumberOverflow,
        ),
{
    if height > 0xffff_ffff {
        Err(AvsRegistryError::BlockNumberOverflow)
    } else {
        Ok(height as u32)
    }
}

/// Whether `addrs` holds, place by place, the addresses of the operators of `state`.
pub open spec fn addrs_of_state(addrs: Seq<Vec<Address>>, state: Seq<Vec<Operator>>) -> bool {
    &&& addrs.len() == state.len()
    &&& forall|i: int| 0 <= i < state.len() ==> (#[trigger] addrs[i])@.len() == state[i]@.len()
    &&& forall|i: int, j: int|
        0 <= i < state.len() && 0 <= j < state[i]@.len() ==> (#[trigger] addrs[i]@[j])
            == state[i]@[j].operator
}

/// The addresses of the operators of each quorum, in the same order.
pub fn operator_addrs(state: &Vec<Vec<Operator>>) -> (addrs: Vec<Vec<Address>>)
    ensures
        addrs_of_state(addrs@, state@),
{
    let mut addrs: Vec<Vec<Address>> = Vec::new();
    let mut i: usize = 0;
    while i < state.len()
        invariant
            i <= state.len(),
            addrs_of_state(addrs@, state@.take(i as int)),
        decreases state.len() - i,
    {
        let quorum = &state[i];
        let mut row: Vec<Address> = Vec::new();
        let mut j: usize = 0;
        while j < quorum.len()
            invariant
                j <= quorum.len(),
                row@.len() == j,
                forall|k: int| 0 <= k < j ==> (#[trigger] row@[k]) == quorum@[k].operator,
            decreases quorum.len() - j,
        {
            row.push(quorum[j].operator);
            j += 1;
        }
        addrs.push(row);
        i += 1;
    }
    assert(state@.take(i as int) =~= state@);
    addrs
}

impl Query {
    /// Whether `step` is what follows when the query gets `reply`.
    pub open spec fn resumes(self, reply: Reply, step: Step) -> bool {
        match self {
            Query::BlsApkRegistry { registry_coordinator, operator_state_retriever } => match reply {
                Reply::Address(bls_apk_registry) => step == Step::Call(
                    Query::StakeRegistry {
                        registry_coordinator,
                        operator_state_retriever,
                        bls_apk_registry,
                    },
                    Request::StakeRegistry { registry_coordinator },
                ),
                _ => step == Step::Done(Err(AvsRegistryError::GetBlsApkRegistry)),
            },
            Query::StakeRegistry {
                registry_coordinator,
                operator_state_retriever,
                bls_apk_registry,
            } => match reply {
                Reply::Address(stake_registry) => step == Step::Done(
                    Ok(
                        Answer::Reader(
                            AvsRegistryChainReader {
                                bls_apk_registry_addr: bls_apk_registry,
                                registry_coordinator_addr: registry_coordinator,
                                operator_state_retriever,
                                stake_registry_addr: stake_registry,
                            },
                        ),
                    ),
                ),
                _ => step == Step::Done(Err(AvsRegistryError::GetStakeRegistry)),
            },
            Query::QuorumCount => match reply {
                Reply::QuorumCount(count) => step == Step::Done(Ok(Answer::QuorumCount(count))),
                _ => step == Step::Done(Err(AvsRegistryError::GetQuorumCount)),
            },
            Query::OperatorState { quorum_count } => state_resumes(
                quorum_count,
                AvsRegistryError::GetOperatorState,
                reply,
                step,
            ),
            Query::OperatorStateOfOperator => match reply {
                Reply::OperatorStateOfOperator(bitmap, state) => step == Step::Done(
                    Ok(Answer::BitmapAndOperatorState(bitmap, state)),
                ),
                _ => step == Step::Done(
                    Err(AvsRegistryError::GetOperatorStateWithRegistryCoordinatorAndOperatorId),
                ),
            },
            Query::StakesHeight {
                operator_state_retriever,
                registry_coordinator,
                quorum_numbers,
            } => match reply {
                Reply::BlockNumber(height) => if height > u32::MAX {
                    step == Step::Done(Err(AvsRegistryError::BlockNumberOverflow))
                } else {
                    step == Step::Call(
                        Query::StakesAtHeight { quorum_count: quorum_numbers.len() },
                        Request::OperatorState {
                            operator_state_retriever,
                            registry_coordinator,
                            quorum_numbers,
                            block_number: height as u32,
                        },
                    )
                },
                _ => step == Step::Done(Err(AvsRegistryError::GetBlockNumber)),
            },
            Query::StakesAtHeight { quorum_count } => state_resumes(
                quorum_count,
                AvsRegistryError::GetOperatorStakeInQuorumAtBlockNumber,
                reply,
                step,
            ),
            Query::AddrsHeight {
                operator_state_retriever,
                registry_coordinator,
                quorum_numbers,
            } => match reply {
                Reply::BlockNumber(height) => if height > u32::MAX {
                    step == Step::Done(Err(AvsRegistryError::BlockNumberOverflow))
                } else {
                    step == Step::Call(
                        Query::AddrsAtHeight { quorum_count: quorum_numbers.len() },
                        Request::OperatorState {
                            operator_state_retriever,
                            registry_coordinator,
                            quorum_numbers,
                            block_number: height as u32,
                        },
                    )
                },
                _ => step == Step::Done(Err(AvsRegistryError::GetBlockNumber)),
            },
            Query::AddrsAtHeight { quorum_count } => match reply {
                Reply::OperatorState(state) => if state@.len() == quorum_count {
                    step matches Step::Done(Ok(Answer::OperatorAddrs(addrs))) && addrs_of_state(
                        addrs@,
                        state@,
                    )
                } else {
                    step == Step::Done(Err(AvsRegistryError::GetOperatorStakeInQuorumAtBlockNumber))
                },
                _ => step == Step::Done(
                    Err(AvsRegistryError::GetOperatorStakeInQuorumAtBlockNumber),
                ),
            },
            Query::QuorumsOfOperator => quorums_resume(
                AvsRegistryError::GetOperatorStakeInQuorumAtBlockOperatorId,
                reply,
                step,
            ),
            Query::QuorumsOfOperatorHeight {
                operator_state_retriever,
                registry_coordinator,
                operator_id,
            } => match reply {
                Reply::BlockNumber(height) => if height > u32::MAX {
                    step == Step::Done(Err(AvsRegistryError::BlockNumberOverflow))
                } else {
                    step == Step::Call(
                        Query::QuorumsOfOperatorAtHeight,
                        Request::OperatorStateOfOperator {
                            operator_state_retriever,
                            registry_coordinator,
                            operator_id,
                            block_number: height as u32,
                        },
                    )
                },
                _ => step == Step::Done(Err(AvsRegistryError::GetBlockNumber)),
            },
            Query::QuorumsOfOperatorAtHeight => quorums_resume(
                AvsRegistryError::GetOperatorStakeInQuorumAtCurrentBlockNumber,
                reply,
                step,
            ),
            Query::StakeBitmap { stake_registry, operator_id } => match reply {
                Reply::QuorumBitmap(bitmap) => if bitmap.popcount() == 0 {
                    step matches Step::Done(Ok(Answer::Stakes(stakes))) && stakes@ == Map::<
                        u8,
                        BigInt,
                    >::empty()
                } else {
                    &&& step matches Step::Call(
                        Query::StakeOfQuorum {
                            stake_registry: registry,
                            operator_id: operator,
                            quorums,
                            next,
                            stakes,
                        },
                        request,
                    )
                    &&& registry == stake_registry
                    &&& operator == operator_id
                    &&& decodes(quorums@, bitmap)
                    &&& next == 0
                    &&& stakes@ == Map::<u8, BigInt>::empty()
                    &&& request == Request::CurrentStake {
                        stake_registry,
                        operator_id,
                        quorum_number: quorums@[0],
                    }
                },
                _ => step == Step::Done(Err(AvsRegistryError::GetCurrentQuorumBitmap)),
            },
            Query::StakeOfQuorum { stake_registry, operator_id, quorums, next, stakes } => match reply {
                Reply::Stake(stake) => {
                    let recorded = stakes@.insert(quorums@[next as int], bigint_from_u128(stake));
                    if next >= quorums@.len() {
                        step == Step::Done(Err(AvsRegistryError::GetCurrentStake))
                    } else if next + 1 < quorums@.len() {
                        &&& step matches Step::Call(
                            Query::StakeOfQuorum {
                                stake_registry: registry,
                                operator_id: operator,
                                quorums: rest,
                                next: following,
                                stakes: so_far,
                            },
                            request,
                        )
                        &&& registry == stake_registry
                        &&& operator == operator_id
                        &&& rest@ == quorums@
                        &&& following == next + 1
                        &&& so_far@ == recorded
                        &&& request == Request::CurrentStake {
                            stake_registry,
                            operator_id,
                            quorum_number: quorums@[next + 1],
                        }
                    } else {
                        step matches Step::Done(Ok(Answer::Stakes(all))) && all@ == recorded
                    }
                },
                _ => step == Step::Done(Err(AvsRegistryError::GetCurrentStake)),
            },
            Query::CheckSignaturesIndices => match reply {
                Reply::CheckSignaturesIndices(indices) => step == Step::Done(
                    Ok(Answer::CheckSignaturesIndices(indices)),
                ),
                _ => step == Step::Done(Err(AvsRegistryError::CheckSignatureIndices)),
            },
            Query::OperatorId => match reply {
                Reply::OperatorId(operator_id) => step == Step::Done(
                    Ok(Answer::OperatorId(operator_id)),
                ),
                _ => step == Step::Done(Err(AvsRegistryError::GetOperatorId)),
            },
            Query::OperatorFromId => match reply {
                Reply::Address(operator) => step == Step::Done(Ok(Answer::Operator(operator))),
                _ => step == Step::Done(Err(AvsRegistryError::GetOperatorFromId)),
            },
            Query::OperatorStatus => match reply {
                Reply::OperatorStatus(status) => step == Step::Done(
                    Ok(Answer::Registered(status == OPERATOR_STATUS_REGISTERED)),
                ),
                _ => step == Step::Done(Err(AvsRegistryError::GetOperatorStatus)),
            },
            Query::Logs => match reply {
                Reply::Logs(logs) => if all_registrations(logs@) {
                    step matches Step::Done(Ok(Answer::PubKeys(operators, keys)))
                        && registrations_decoded(logs@, operators@, keys@)
                } else {
                    step == Step::Done(
                        Err(AvsRegistryError::DecodeEventNewPubkeyRegistrationFilter),
                    )
                },
                _ => step == Step::Done(Err(AvsRegistryError::GetEthLogs)),
            },
        }
    }
}

/// What follows a reply to the request for the operator state of `quorums`
/// quorums: the state as it came, if it has one entry for each quorum; else
/// the error `failure`.
pub open spec fn state_resumes(
    quorums: usize,
    failure: AvsRegistryError,
    reply: Reply,
    step: Step,
) -> bool {
    match reply {
        Reply::OperatorState(state) => if state@.len() == quorums {
            step == Step::Done(Ok(Answer::OperatorState(state)))
        } else {
            step == Step::Done(Err(failure))
        },
        _ => step == Step::Done(Err(failure)),
    }
}

/// What follows a reply to the request for the quorums and operator state of
/// one operator: the quorums of the bitmap and the state as it came, if the
/// state has one entry for each quorum; else the error `failure`.
pub open spec fn quorums_resume(failure: AvsRegistryError, reply: Reply, step: Step) -> bool {
    match reply {
        Reply::OperatorStateOfOperator(bitmap, state) => if state@.len() == bitmap.popcount() {
            step matches Step::Done(Ok(Answer::QuorumsAndOperatorState(quorums, same)))
                && decodes(quorums@, bitmap) && same == state
        } else {
            step == Step::Done(Err(failure))
        },
        _ => step == Step::Done(Err(failure)),
    }
}

/// Ends a query for the operator state of `quorums` quorums.
fn resume_state(quorums: usize, failure: AvsRegistryError, reply: Reply) -> (step: Step)
    ensures
        state_resumes(quorums, failure, reply, step),
        step is Done,
{
    match reply {
        Reply::OperatorState(state) => {
            if state.len() == quorums {
                Step::Done(Ok(Answer::OperatorState(state)))
            } else {
                Step::Done(Err(failure))
            }
        },
        _ => Step::Done(Err(failure)),
    }
}

/// Ends a query for the quorums and operator state of one operator.
fn resume_quorums(failure: AvsRegistryError, reply: Reply) -> (step: Step)
    ensures
        quorums_resume(failure, reply, step),
        step is Done,
{
    match reply {
        Reply::OperatorStateOfOperator(bitmap, state) => {
            let quorums = bitmap_to_quorum_ids(bitmap);
            if state.len() == quorums.len() {
                Step::Done(Ok(Answer::QuorumsAndOperatorState(quorums, state)))
            } else {
                Step::Done(Err(failure))
            }
        },
        _ => Step::Done(Err(failure)),
    }
}

/// Goes on after the height of the chain has come: asks for the operator state
/// at that height, unless the height does not fit in 32 bits.
fn resume_height(
    operator_state_retriever: Address,
    registry_coordinator: Address,
    quorum_numbers: Vec<u8>,
    addrs: bool,
    reply: Reply,
) -> (step: Step)
    ensures
        addrs ==> (Query::AddrsHeight {
            operator_state_retriever,
            registry_coordinator,
            quorum_numbers,
        }).resumes(reply, step),
        !addrs ==> (Query::StakesHeight {
            operator_state_retriever,
            registry_coordinator,
            quorum_numbers,
        }).resumes(reply, step),
{
    match reply {
        Reply::BlockNumber(height) => match block_number_from_height(height) {
            Ok(block_number) => {
                let quorum_count = quorum_numbers.len();
                let request = Request::OperatorState {
                    operator_state_retriever,
                    registry_coordinator,
                    quorum_numbers,
                    block_number,
                };
                if addrs {
                    Step::Call(Query::AddrsAtHeight { quorum_count }, request)
                } else {
                    Step::Call(Query::StakesAtHeight { quorum_count }, request)
                }
            },
            Err(e) => Step::Done(Err(e)),
        },
        _ => Step::Done(Err(AvsRegistryError::GetBlockNumber)),
    }
}

/// Goes on after the quorum bitmap of an operator has come: asks for the stake
/// in its first quorum, or ends with no stakes if it has no quorum.
fn resume_bitmap(stake_registry: Address, operator_id: H256, reply: Reply) -> (step: Step)
    ensures
        (Query::StakeBitmap { stake_registry, operator_id }).resumes(reply, step),
{
    match reply {
        Reply::QuorumBitmap(bitmap) => {
            let quorums = bitmap_to_quorum_ids(bitmap);
            let stakes: HashMap<u8, BigInt> = HashMap::new();
            if quorums.len() == 0 {
                Step::Done(Ok(Answer::Stakes(stakes)))
            } else {
                let request = Request::CurrentStake {
                    stake_registry,
                    operator_id,
                    quorum_number: quorums[0],
                };
                Step::Call(
                    Query::StakeOfQuorum { stake_registry, operator_id, quorums, next: 0, stakes },
                    request,
                )
            }
        },
        _ => Step::Done(Err(AvsRegistryError::GetCurrentQuorumBitmap)),
    }
}

/// Goes on after the stake in quorum `quorums[next]` has come: records it and
/// asks for the stake in the next quorum, or ends with all stakes. A failure
/// ends the query, and the stakes recorded so far are dropped.
fn resume_stake(
    stake_registry: Address,
    operator_id: H256,
    quorums: Vec<u8>,
    next: usize,
    stakes: HashMap<u8, BigInt>,
    reply: Reply,
) -> (step: Step)
    ensures
        (Query::StakeOfQuorum { stake_registry, operator_id, quorums, next, stakes }).resumes(
            reply,
            step,
        ),
{
    match reply {
        Reply::Stake(stake) => {
            let count = quorums.len();
            if next >= count {
                return Step::Done(Err(AvsRegistryError::GetCurrentStake));
            }
            let mut stakes = stakes;
            let quorum: u8 = quorums[next];
            stakes.insert(quorum, u128_to_bigint(stake));
            if next + 1 < count {
                let request = Request::CurrentStake {
                    stake_registry,
                    operator_id,
                    quorum_number: quorums[next + 1],
                };
                Step::Call(
                    Query::StakeOfQuorum {
                        stake_registry,
                        operator_id,
                        quorums,
                        next: next + 1,
                        stakes,
                    },
                    request,
                )
            } else {
                Step::Done(Ok(Answer::Stakes(stakes)))
            }
        },
        _ => Step::Done(Err(AvsRegistryError::GetCurrentStake)),
    }
}

impl Query {
    /// Takes the reply to the request that the query waits for, and gives the
    /// next step: another call, or the end of the query.
    pub fn resume(self, reply: Reply) -> (step: Step)
        ensures
            self.resumes(reply, step),
        {
        match self {
            Query::BlsApkRegistry { registry_coordinator, operator_state_retriever } => match reply {
                Reply::Address(bls_apk_registry) => Step::Call(
                    Query::StakeRegistry {
                        registry_coordinator,
                        operator_state_retriever,
                        bls_apk_registry,
                    },
                    Request::StakeRegistry { registry_coordinator },
                ),
                _ => Step::Done(Err(AvsRegistryError::GetBlsApkRegistry)),
            },
            Query::StakeRegistry {
                registry_coordinator,
                operator_state_retriever,
                bls_apk_registry,
            } => match reply {
                Reply::Address(stake_registry) => Step::Done(
                    Ok(
                        Answer::Reader(
                            AvsRegistryChainReader::new(
                                registry_coordinator,
                                bls_apk_registry,
                                operator_state_retriever,
                                stake_registry,
                            ),
                        ),
                    ),
                ),
                _ => Step::Done(Err(AvsRegistryError::GetStakeRegistry)),
            },
            Query::QuorumCount => match reply {
                Reply::QuorumCount(count) => Step::Done(Ok(Answer::QuorumCount(count))),
                _ => Step::Done(Err(AvsRegistryError::GetQuorumCount)),
            },
            Query::OperatorState { quorum_count } => resume_state(
                quorum_count,
                AvsRegistryError::GetOperatorState,
                reply,
            ),
            Query::OperatorStateOfOperator => match reply {
                Reply::OperatorStateOfOperator(bitmap, state) => Step::Done(
                    Ok(Answer::BitmapAndOperatorState(bitmap, state)),
                ),
                _ => Step::Done(
                    Err(AvsRegistryError::GetOperatorStateWithRegistryCoordinatorAndOperatorId),
                ),
            },
            Query::StakesHeight {
                operator_state_retriever,
                registry_coordinator,
                quorum_numbers,
            } => resume_height(
                operator_state_retriever,
                registry_coordinator,
                quorum_numbers,
                false,
                reply,
            ),
            Query::StakesAtHeight { quorum_count } => resume_state(
                quorum_count,
                AvsRegistryError::GetOperatorStakeInQuorumAtBlockNumber,
                reply,
            ),
            Query::AddrsHeight {
                operator_state_retriever,
                registry_coordinator,
                quorum_numbers,
            } => resume_height(
                operator_state_retriever,
                registry_coordinator,
                quorum_numbers,
                true,
                reply,
            ),
            Query::AddrsAtHeight { quorum_count } => match reply {
                Reply::OperatorState(state) => {
                    if state.len() == quorum_count {
                        Step::Done(Ok(Answer::OperatorAddrs(operator_addrs(&state))))
                    } else {
                        Step::Done(Err(AvsRegistryError::GetOperatorStakeInQuorumAtBlockNumber))
                    }
                },
                _ => Step::Done(Err(AvsRegistryError::GetOperatorStakeInQuorumAtBlockNumber)),
            },
            Query::QuorumsOfOperator => resume_quorums(
                AvsRegistryError::GetOperatorStakeInQuorumAtBlockOperatorId,
                reply,
            ),
            Query::QuorumsOfOperatorHeight {
                operator_state_retriever,
                registry_coordinator,
                operator_id,
            } => match reply {
                Reply::BlockNumber(height) => match block_number_from_height(height) {
                    Ok(block_number) => Step::Call(
                        Query::QuorumsOfOperatorAtHeight,
                        Request::OperatorStateOfOperator {
                            operator_state_retriever,
                            registry_coordinator,
                            operator_id,
                            block_number,
                        },
                    ),
                    Err(e) => Step::Done(Err(e)),
                },
                _ => Step::Done(Err(AvsRegistryError::GetBlockNumber)),
            },
            Query::QuorumsOfOperatorAtHeight => resume_quorums(
                AvsRegistryError::GetOperatorStakeInQuorumAtCurrentBlockNumber,
                reply,
            ),
            Query::StakeBitmap { stake_registry, operator_id } => resume_bitmap(
                stake_registry,
                operator_id,
                reply,
            ),
            Query::StakeOfQuorum { stake_registry, operator_id, quorums, next, stakes } => {
                resume_stake(stake_registry, operator_id, quorums, next, stakes, reply)
            },
            Query::CheckSignaturesIndices => match reply {
                Reply::CheckSignaturesIndices(indices) => Step::Done(
                    Ok(Answer::CheckSignaturesIndices(indices)),
                ),
                _ => Step::Done(Err(AvsRegistryError::CheckSignatureIndices)),
            },
            Query::OperatorId => match reply {
                Reply::OperatorId(operator_id) => Step::Done(Ok(Answer::OperatorId(operator_id))),
                _ => Step::Done(Err(AvsRegistryError::GetOperatorId)),
            },
            Query::OperatorFromId => match reply {
                Reply::Address(operator) => Step::Done(Ok(Answer::Operator(operator))),
                _ => Step::Done(Err(AvsRegistryError::GetOperatorFromId)),
            },
            Query::OperatorStatus => match reply {
                Reply::OperatorStatus(status) => Step::Done(
                    Ok(Answer::Registered(status == OPERATOR_STATUS_REGISTERED)),
                ),
                _ => Step::Done(Err(AvsRegistryError::GetOperatorStatus)),
            },
            Query::Logs => match reply {
                Reply::Logs(logs) => match decode_registrations(&logs) {
                    Ok((operators, keys)) => Step::Done(Ok(Answer::PubKeys(operators, keys))),
                    Err(e) => Step::Done(Err(e)),
                },
                _ => Step::Done(Err(AvsRegistryError::GetEthLogs)),
            },
        }
    }
}

impl AvsRegistryChainReader {
    /// A reader of the registry whose four contracts have these addresses.
    pub fn new(
        registry_coordinator_addr: Address,
        bls_apk_registry_addr: Address,
        operator_state_retriever: Address,
        stake_registry_addr: Address,
    ) -> (reader: Self)
        ensures
            reader == (AvsRegistryChainReader {
                bls_apk_registry_addr,
                registry_coordinator_addr,
                operator_state_retriever,
                stake_registry_addr,
            }),
    {
        AvsRegistryChainReader {
            bls_apk_registry_addr,
            registry_coordinator_addr,
            operator_state_retriever,
            stake_registry_addr,
        }
    }

    /// Starts building a reader from the coordinator and the retriever alone:
    /// the coordinator is asked for the two registries, first for the BLS
    /// public-key registry.
    pub fn build_avs_registry_chain_reader(
        registry_coordinator_addr: Address,
        operator_state_retriever_addr: Address,
    ) -> (step: Step)
        ensures
            step == Step::Call(
                Query::BlsApkRegistry {
                    registry_coordinator: registry_coordinator_addr,
                    operator_state_retriever: operator_state_retriever_addr,
                },
                Request::BlsApkRegistry { registry_coordinator: registry_coordinator_addr },
            ),
    {
        Step::Call(
            Query::BlsApkRegistry {
                registry_coordinator: registry_coordinator_addr,
                operator_state_retriever: operator_state_retriever_addr,
            },
            Request::BlsApkRegistry { registry_coordinator: registry_coordinator_addr },
        )
    }

    /// Starts the query for the number of quorums.
    pub fn get_quorum_count(&self) -> (step: Step)
        ensures
            step == Step::Call(
                Query::QuorumCount,
                Request::QuorumCount { registry_coordinator: self.registry_coordinator_addr },
            ),
    {
        Step::Call(
            Query::QuorumCount,
            Request::QuorumCount { registry_coordinator: self.registry_coordinator_addr },
        )
    }

    /// Starts the query for the operators of each of the given quorums, with
    /// their stakes, at a block.
    pub fn get_operators_stake_in_quorums_at_block(
        &self,
        block_number: u32,
        quorum_numbers: Vec<u8>,
    ) -> (step: Step)
        ensures
            step == Step::Call(
                Query::OperatorState { quorum_count: quorum_numbers.len() },
                Request::OperatorState {
                    operator_state_retriever: self.operator_state_retriever,
                    registry_coordinator: self.registry_coordinator_addr,
                    quorum_numbers,
                    block_number,
                },
            ),
    {
        Step::Call(
            Query::OperatorState { quorum_count: quorum_numbers.len() },
            Request::OperatorState {
                operator_state_retriever: self.operator_state_retriever,
                registry_coordinator: self.registry_coordinator_addr,
                quorum_numbers,
                block_number,
            },
        )
    }

    /// Starts the query for the quorum bitmap of an operator at a block and
    /// the operators of each of its quorums.
    pub fn get_operators_stake_in_quorums_at_block_operator_id(
        &self,
        block_number: u32,
        operator_id: H256,
    ) -> (step: Step)
        ensures
            step == Step::Call(
                Query::OperatorStateOfOperator,
                Request::OperatorStateOfOperator {
                    operator_state_retriever: self.operator_state_retriever,
                    registry_coordinator: self.registry_coordinator_addr,
                    operator_id,
                    block_number,
                },
            ),
    {
        Step::Call(
            Query::OperatorStateOfOperator,
            Request::OperatorStateOfOperator {
                operator_state_retriever: self.operator_state_retriever,
                registry_coordinator: self.registry_coordinator_addr,
                operator_id,
                block_number,
            },
        )
    }

    /// Starts the query for the operators of each of the given quorums at the
    /// current block: the height of the chain is asked for first.
    pub fn get_operators_stake_in_quorums_at_current_block(
        &self,
        quorum_numbers: Vec<u8>,
    ) -> (step: Step)
        ensures
            step == Step::Call(
                Query::StakesHeight {
                    operator_state_retriever: self.operator_state_retriever,
                    registry_coordinator: self.registry_coordinator_addr,
                    quorum_numbers,
                },
                Request::BlockNumber,
            ),
    {
        Step::Call(
            Query::StakesHeight {
                operator_state_retriever: self.operator_state_retriever,
                registry_coordinator: self.registry_coordinator_addr,
                quorum_numbers,
            },
            Request::BlockNumber,
        )
    }

    /// Starts the query for the addresses of the operators of each of the
    /// given quorums at the current block: the height is asked for first.
    pub fn get_operator_addrs_in_quorums_at_current_block(
        &self,
        quorum_numbers: Vec<u8>,
    ) -> (step: Step)
        ensures
            step == Step::Call(
                Query::AddrsHeight {
                    operator_state_retriever: self.operator_state_retriever,
                    registry_coordinator: self.registry_coordinator_addr,
                    quorum_numbers,
                },
                Request::BlockNumber,
            ),
    {
        Step::Call(
            Query::AddrsHeight {
                operator_state_retriever: self.operator_state_retriever,
                registry_coordinator: self.registry_coordinator_addr,
                quorum_numbers,
            },
            Request::BlockNumber,
        )
    }

    /// Starts the query for the quorums of an operator at a block and the
    /// operators of each of them.
    pub fn get_operators_stake_in_quorums_of_operator_at_block(
        &self,
        operator_id: H256,
        block_number: u32,
    ) -> (step: Step)
        ensures
            step == Step::Call(
                Query::QuorumsOfOperator,
                Request::OperatorStateOfOperator {
                    operator_state_retriever: self.operator_state_retriever,
                    registry_coordinator: self.registry_coordinator_addr,
                    operator_id,
                    block_number,
                },
            ),
    {
        Step::Call(
            Query::QuorumsOfOperator,
            Request::OperatorStateOfOperator {
                operator_state_retriever: self.operator_state_retriever,
                registry_coordinator: self.registry_coordinator_addr,
                operator_id,
                block_number,
            },
        )
    }

    /// Starts the query for the quorums of an operator at the current block
    /// and the operators of each of them: the height is asked for first.
    pub fn get_operators_stake_in_quorums_of_operator_at_current_block(
        &self,
        operator_id: H256,
    ) -> (step: Step)
        ensures
            step == Step::Call(
                Query::QuorumsOfOperatorHeight {
                    operator_state_retriever: self.operator_state_retriever,
                    registry_coordinator: self.registry_coordinator_addr,
                    operator_id,
                },
                Request::BlockNumber,
            ),
    {
        Step::Call(
            Query::QuorumsOfOperatorHeight {
                operator_state_retriever: self.operator_state_retriever,
                registry_coordinator: self.registry_coordinator_addr,
                operator_id,
            },
            Request::BlockNumber,
        )
    }

    /// Starts the query for the current stake of an operator in each of its
    /// quorums: its current quorum bitmap is asked for first.
    pub fn get_operator_stake_in_quorums_of_operator_at_current_block(
        &self,
        operator_id: H256,
    ) -> (step: Step)
        ensures
            step == Step::Call(
                Query::StakeBitmap { stake_registry: self.stake_registry_addr, operator_id },
                Request::CurrentQuorumBitmap {
                    registry_coordinator: self.registry_coordinator_addr,
                    operator_id,
                },
            ),
    {
        Step::Call(
            Query::StakeBitmap { stake_registry: self.stake_registry_addr, operator_id },
            Request::CurrentQuorumBitmap {
                registry_coordinator: self.registry_coordinator_addr,
                operator_id,
            },
        )
    }

    /// Starts the query for the indices that a signature check needs.
    pub fn get_check_signatures_indices(
        &self,
        reference_block_number: u32,
        quorum_numbers: Vec<u8>,
        non_signer_operator_ids: Vec<H256>,
    ) -> (step: Step)
        ensures
            step == Step::Call(
                Query::CheckSignaturesIndices,
                Request::CheckSignaturesIndices {
                    operator_state_retriever: self.operator_state_retriever,
                    registry_coordinator: self.registry_coordinator_addr,
                    reference_block_number,
                    quorum_numbers,
                    non_signer_operator_ids,
                },
            ),
    {
        Step::Call(
            Query::CheckSignaturesIndices,
            Request::CheckSignaturesIndices {
                operator_state_retriever: self.operator_state_retriever,
                registry_coordinator: self.registry_coordinator_addr,
                reference_block_number,
                quorum_numbers,
                non_signer_operator_ids,
            },
        )
    }

    /// Starts the query for the identifier of the operator with an address.
    pub fn get_operator_id(&self, operator_address: Address) -> (step: Step)
        ensures
            step == Step::Call(
                Query::OperatorId,
                Request::OperatorId {
                    registry_coordinator: self.registry_coordinator_addr,
                    operator: operator_address,
                },
            ),
    {
        Step::Call(
            Query::OperatorId,
            Request::OperatorId {
                registry_coordinator: self.registry_coordinator_addr,
                operator: operator_address,
            },
        )
    }

    /// Starts the query for the address of the operator with an identifier.
    pub fn get_operator_from_id(&self, operator_id: H256) -> (step: Step)
        ensures
            step == Step::Call(
                Query::OperatorFromId,
                Request::OperatorFromId {
                    registry_coordinator: self.registry_coordinator_addr,
                    operator_id,
                },
            ),
    {
        Step::Call(
            Query::OperatorFromId,
            Request::OperatorFromId {
                registry_coordinator: self.registry_coordinator_addr,
                operator_id,
            },
        )
    }

    /// Starts the query whether the operator with an address is registered.
    pub fn is_operator_registered(&self, operator_address: Address) -> (step: Step)
        ensures
            step == Step::Call(
                Query::OperatorStatus,
                Request::OperatorStatus {
                    registry_coordinator: self.registry_coordinator_addr,
                    operator: operator_address,
                },
            ),
    {
        Step::Call(
            Query::OperatorStatus,
            Request::OperatorStatus {
                registry_coordinator: self.registry_coordinator_addr,
                operator: operator_address,
            },
        )
    }

    /// The filter for the logs of public-key registrations between two blocks,
    /// both included.
    pub open spec fn registration_filter(
        self,
        start_block: BlockNumber,
        stop_block: BlockNumber,
    ) -> LogFilter {
        LogFilter {
            address: self.bls_apk_registry_addr,
            from_block: start_block,
            to_block: stop_block,
            topic0: H256 { bytes: NEW_BLS_APK_REGISTRATION_EVENT_SIGNATURE },
        }
    }

    /// Starts the scan for the operators that registered public keys between
    /// two blocks, both included.
    pub fn query_existing_registered_operator_pub_keys(
        &self,
        start_block: BlockNumber,
        stop_block: BlockNumber,
    ) -> (step: Step)
        ensures
            step == Step::Call(
                Query::Logs,
                Request::Logs { filter: self.registration_filter(start_block, stop_block) },
            ),
    {
        Step::Call(
            Query::Logs,
            Request::Logs {
                filter: LogFilter {
                    address: self.bls_apk_registry_addr,
                    from_block: start_block,
                    to_block: stop_block,
                    topic0: H256 { bytes: NEW_BLS_APK_REGISTRATION_EVENT_SIGNATURE },
                },
            },
        )
    }
}

} // verus!
