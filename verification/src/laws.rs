//! Laws of the reader: what holds of its queries whatever the chain answers.

use crate::bigint::bigint_from_u128;
use crate::bitmap::{decodes, strictly_ascending};
use crate::error::AvsRegistryError;
use crate::events::registrations_decoded;
use crate::protocol::{Reply, Request};
use crate::types::Operator;
use crate::reader::{
    addrs_of_state, Answer, AvsRegistryChainReader, Query, Step, OPERATOR_STATUS_REGISTERED,
};
use crate::word::{Address, H256, U256};
use vstd::prelude::*;

verus! {

/// Two strictly ascending sequences with the same items agree up to any place.
proof fn lemma_ascending_agree(a: Seq<u8>, b: Seq<u8>, n: int)
    requires
        strictly_ascending(a),
        strictly_ascending(b),
        a.len() == b.len(),
        forall|q: u8| a.contains(q) <==> b.contains(q),
        0 <= n <= a.len(),
    ensures
        forall|i: int| 0 <= i < n ==> a[i] == b[i],
    decreases n,
{
    if n > 0 {
        lemma_ascending_agree(a, b, n - 1);
        let i = n - 1;
        assert(a.contains(a[i]));
        assert(b.contains(b[i]));
        let j = choose|j: int| 0 <= j < b.len() && b[j] == a[i];
        let k = choose|k: int| 0 <= k < a.len() && a[k] == b[i];
        if j < i {
            assert(a[j] == b[j]);
        }
        if k < i {
            assert(a[k] == b[k]);
        }
    }
}

/// A bitmap has one decoding only.
pub proof fn lemma_decoding_unique(a: Seq<u8>, b: Seq<u8>, bitmap: U256)
    requires
        decodes(a, bitmap),
        decodes(b, bitmap),
    ensures
        a == b,
{
    lemma_ascending_agree(a, b, a.len() as int);
    assert(a =~= b);
}

/// The operator state of a query at a block has one entry for each quorum
/// that was asked for.
pub proof fn lemma_operator_state_is_parallel(
    reader: AvsRegistryChainReader,
    block_number: u32,
    quorum_numbers: Vec<u8>,
    reply: Reply,
    step: Step,
)
    requires
        (Query::OperatorState { quorum_count: quorum_numbers.len() }).resumes(reply, step),
    ensures
        step matches Step::Done(Ok(answer)) ==> answer matches Answer::OperatorState(state)
            && state@.len() == quorum_numbers@.len(),
{
}

/// The quorums of an operator that a query gives are those of the bitmap that
/// came, and the operator state beside them has one entry for each of them.
pub proof fn lemma_quorums_are_parallel(
    query: Query,
    bitmap: U256,
    state: Vec<Vec<Operator>>,
    step: Step,
)
    requires
        query is QuorumsOfOperator || query is QuorumsOfOperatorAtHeight,
        query.resumes(Reply::OperatorStateOfOperator(bitmap, state), step),
    ensures
        step matches Step::Done(Ok(answer)) ==> {
            &&& answer matches Answer::QuorumsAndOperatorState(quorums, operators)
            &&& decodes(quorums@, bitmap)
            &&& operators == state
            &&& quorums@.len() == operators@.len()
        },
{
}

/// The query for addresses at the current block and the query for stakes at
/// the current block, given the same quorums and the same replies, ask for
/// the same calls and end alike: in the same error, or in addresses that are,
/// place by place, the addresses of the operators in the stakes.
pub proof fn lemma_addrs_are_those_of_stakes(
    reader: AvsRegistryChainReader,
    quorum_numbers: Vec<u8>,
    height: Reply,
    state: Reply,
    stakes_first: Step,
    stakes_last: Step,
    addrs_first: Step,
    addrs_last: Step,
)
    requires
        (Query::StakesHeight {
            operator_state_retriever: reader.operator_state_retriever,
            registry_coordinator: reader.registry_coordinator_addr,
            quorum_numbers,
        }).resumes(height, stakes_first),
        (Query::AddrsHeight {
            operator_state_retriever: reader.operator_state_retriever,
            registry_coordinator: reader.registry_coordinator_addr,
            quorum_numbers,
        }).resumes(height, addrs_first),
        stakes_first matches Step::Call(q, _) ==> q.resumes(state, stakes_last),
        addrs_first matches Step::Call(q, _) ==> q.resumes(state, addrs_last),
    ensures
        stakes_first matches Step::Done(end) ==> end is Err && addrs_first == stakes_first,
        stakes_first matches Step::Call(_, request) ==> addrs_first is Call && addrs_first->Call_1
            == request,
        stakes_first is Call ==> stakes_last is Done && addrs_last is Done,
        stakes_first is Call ==> (stakes_last matches Step::Done(Err(e)) ==> addrs_last
            == stakes_last),
        stakes_first is Call ==> (stakes_last matches Step::Done(Ok(answer)) ==> {
            &&& answer matches Answer::OperatorState(stakes)
            &&& addrs_last matches Step::Done(Ok(Answer::OperatorAddrs(addrs)))
            &&& addrs_of_state(addrs@, stakes@)
            &&& forall|i: int, j: int|
                0 <= i < stakes@.len() && 0 <= j < stakes@[i]@.len() ==> addrs@[i]@[j]
                    == stakes@[i]@[j].operator
        }),
{
}

/// A scan gives as many addresses as public keys.
pub proof fn lemma_scan_is_parallel(reply: Reply, step: Step)
    requires
        Query::Logs.resumes(reply, step),
    ensures
        step matches Step::Done(Ok(answer)) ==> {
            &&& reply matches Reply::Logs(logs)
            &&& answer matches Answer::PubKeys(operators, keys)
            &&& operators@.len() == keys@.len()
            &&& operators@.len() == logs@.len()
            &&& registrations_decoded(logs@, operators@, keys@)
        },
{
}

impl Query {
    /// Whether the query waits for the height of the chain.
    pub open spec fn awaits_height(self) -> bool {
        self is StakesHeight || self is AddrsHeight || self is QuorumsOfOperatorHeight
    }
}

/// A query at the current block ends at once with `BlockNumberOverflow`, and
/// asks for nothing more, where the height does not fit in 32 bits; where it
/// fits, the query asks at that height.
pub proof fn lemma_overflow_guard(query: Query, height: u64, step: Step)
    requires
        query.awaits_height(),
        query.resumes(Reply::BlockNumber(height), step),
    ensures
        height > u32::MAX ==> step == Step::Done(Err(AvsRegistryError::BlockNumberOverflow)),
        height <= u32::MAX ==> step is Call && (step->Call_1 matches Request::OperatorState {
            block_number,
            ..
        } ==> block_number == height) && (step->Call_1 matches Request::OperatorStateOfOperator {
            block_number,
            ..
        } ==> block_number == height),
{
}

/// An operator counts as registered if and only if its status is 1.
pub proof fn lemma_registered_iff_status_is_one(status: u8, step: Step)
    requires
        Query::OperatorStatus.resumes(Reply::OperatorStatus(status), step),
    ensures
        step == Step::Done(Ok(Answer::Registered(status == 1))),
        OPERATOR_STATUS_REGISTERED == 1,
{
}

/// A query that waits for the stake in one quorum and gets anything but a
/// stake ends in `GetCurrentStake`: the stakes recorded before are not handed out.
pub proof fn lemma_stake_failure_is_whole(query: Query, reply: Reply, step: Step)
    requires
        query is StakeOfQuorum,
        !(reply is Stake),
        query.resumes(reply, step),
    ensures
        step == Step::Done(Err(AvsRegistryError::GetCurrentStake)),
{
}

/// Whether `steps` are the steps of one query that got `replies` one after
/// another: each step but the last is a call, and the step after it is what
/// follows from its reply.
pub open spec fn is_run(steps: Seq<Step>, replies: Seq<Reply>) -> bool {
    &&& steps.len() == replies.len() + 1
    &&& forall|k: int|
        0 <= k < replies.len() ==> (#[trigger] steps[k]) is Call && steps[k]->Call_0.resumes(
            replies[k],
            steps[k + 1],
        )
}

/// Whether the step is the call for the stake in quorum `quorums[next]`,
/// with the stakes in the quorums before it recorded as `replies` gave them.
pub open spec fn asks_stake(
    step: Step,
    stake_registry: Address,
    operator_id: H256,
    quorums: Seq<u8>,
    next: int,
    replies: Seq<Reply>,
) -> bool {
    &&& step matches Step::Call(
        Query::StakeOfQuorum { stake_registry: registry, operator_id: operator, quorums: all, next: at, stakes },
        request,
    )
    &&& registry == stake_registry
    &&& operator == operator_id
    &&& all@ == quorums
    &&& at == next
    &&& request == Request::CurrentStake {
        stake_registry,
        operator_id,
        quorum_number: quorums[next],
    }
    &&& stakes_recorded(stakes@, quorums, next, replies)
}

/// Whether `stakes` holds the stake of each of the first `count` quorums, and
/// of no other: that of `quorums[i]` as reply `i + 1` gave it.
pub open spec fn stakes_recorded(
    stakes: Map<u8, num_bigint::BigInt>,
    quorums: Seq<u8>,
    count: int,
    replies: Seq<Reply>,
) -> bool {
    &&& forall|q: u8|
        stakes.dom().contains(q) <==> exists|i: int| 0 <= i < count && #[trigger] quorums[i] == q
    &&& forall|i: int|
        0 <= i < count ==> stakes[#[trigger] quorums[i]] == bigint_from_u128(
            replies[i + 1]->Stake_0,
        )
}

/// After the bitmap and `k - 1` stakes have come, the query asks for the
/// stake in quorum number `k - 1`.
proof fn lemma_stake_run_prefix(
    stake_registry: Address,
    operator_id: H256,
    bitmap: U256,
    quorums: Seq<u8>,
    steps: Seq<Step>,
    replies: Seq<Reply>,
    k: int,
)
    requires
        is_run(steps, replies),
        steps[0] is Call,
        steps[0]->Call_0 == (Query::StakeBitmap { stake_registry, operator_id }),
        replies.len() >= 1,
        replies[0] == Reply::QuorumBitmap(bitmap),
        decodes(quorums, bitmap),
        1 <= k <= quorums.len(),
        k <= replies.len(),
        forall|i: int| 1 <= i < k ==> (#[trigger] replies[i]) is Stake,
    ensures
        asks_stake(steps[k], stake_registry, operator_id, quorums, k - 1, replies),
    decreases k,
{
    if k == 1 {
        assert(steps[0] is Call && steps[0]->Call_0.resumes(replies[0], steps[1]));
        let found = steps[1]->Call_0->StakeOfQuorum_quorums;
        lemma_decoding_unique(found@, quorums, bitmap);
    } else {
        lemma_stake_run_prefix(stake_registry, operator_id, bitmap, quorums, steps, replies, k - 1);
        assert(steps[k - 1] is Call && steps[k - 1]->Call_0.resumes(replies[k - 1], steps[k]));
        assert(replies[k - 1] is Stake);
        let before = steps[k - 1]->Call_0->StakeOfQuorum_stakes@;
        let after = steps[k]->Call_0->StakeOfQuorum_stakes@;
        lemma_record_stake(before, after, quorums, k - 2, replies);
    }
}

/// Recording the stake of one more quorum keeps the record of those before it.
proof fn lemma_record_stake(
    before: Map<u8, num_bigint::BigInt>,
    after: Map<u8, num_bigint::BigInt>,
    quorums: Seq<u8>,
    next: int,
    replies: Seq<Reply>,
)
    requires
        strictly_ascending(quorums),
        0 <= next < quorums.len(),
        stakes_recorded(before, quorums, next, replies),
        after == before.insert(quorums[next], bigint_from_u128(replies[next + 1]->Stake_0)),
    ensures
        stakes_recorded(after, quorums, next + 1, replies),
{
    assert forall|q: u8|
        after.dom().contains(q) <==> exists|i: int|
            0 <= i < next + 1 && #[trigger] quorums[i] == q by {
        if before.dom().contains(q) {
            let i = choose|i: int| 0 <= i < next && #[trigger] quorums[i] == q;
            assert(0 <= i < next + 1 && quorums[i] == q);
        }
        if q == quorums[next] {
            assert(0 <= next < next + 1 && quorums[next] == q);
        }
    }
    assert forall|i: int| 0 <= i < next + 1 implies after[#[trigger] quorums[i]]
        == bigint_from_u128(replies[i + 1]->Stake_0) by {
        if i < next {
            assert(quorums[i] < quorums[next]);
        }
    }
}

/// The query for the stake of an operator in its quorums, when the bitmap and
/// then a stake for each quorum of the bitmap come, ends with a stake for
/// exactly the quorums whose bits are set: for quorum `quorums[i]` the stake
/// that reply `i + 1` gave.
pub proof fn lemma_stakes_cover_bitmap(
    stake_registry: Address,
    operator_id: H256,
    bitmap: U256,
    quorums: Seq<u8>,
    steps: Seq<Step>,
    replies: Seq<Reply>,
)
    requires
        is_run(steps, replies),
        steps[0] is Call,
        steps[0]->Call_0 == (Query::StakeBitmap { stake_registry, operator_id }),
        replies.len() == 1 + quorums.len(),
        replies[0] == Reply::QuorumBitmap(bitmap),
        decodes(quorums, bitmap),
        forall|i: int| 1 <= i < replies.len() ==> (#[trigger] replies[i]) is Stake,
    ensures
        steps.last() matches Step::Done(Ok(Answer::Stakes(stakes))) && stakes_recorded(
            stakes@,
            quorums,
            quorums.len() as int,
            replies,
        ) && (forall|q: u8| stakes@.dom().contains(q) <==> bitmap.bit(q as nat)),
{
    let n = quorums.len() as int;
    if n == 0 {
        assert(steps[0] is Call && steps[0]->Call_0.resumes(replies[0], steps[1]));
        let stakes = steps[1]->Done_0->Ok_0->Stakes_0;
        assert(stakes@.dom() =~= Set::<u8>::empty());
        assert forall|q: u8| stakes@.dom().contains(q) <==> bitmap.bit(q as nat) by {
            if bitmap.bit(q as nat) {
                assert(quorums.contains(q));
            }
        }
    } else {
        lemma_stake_run_prefix(stake_registry, operator_id, bitmap, quorums, steps, replies, n);
        assert(steps[n] is Call && steps[n]->Call_0.resumes(replies[n], steps[n + 1]));
        assert(replies[n] is Stake);
        let before = steps[n]->Call_0->StakeOfQuorum_stakes@;
        let stakes = steps[n + 1]->Done_0->Ok_0->Stakes_0;
        lemma_record_stake(before, stakes@, quorums, n - 1, replies);
        assert forall|q: u8| stakes@.dom().contains(q) <==> bitmap.bit(q as nat) by {
            if stakes@.dom().contains(q) {
                let i = choose|i: int| 0 <= i < n && #[trigger] quorums[i] == q;
                assert(quorums.contains(q));
            }
            if bitmap.bit(q as nat) {
                assert(quorums.contains(q));
                let i = choose|i: int| 0 <= i < quorums.len() && quorums[i] == q;
                assert(0 <= i < n && quorums[i] == q);
            }
        }
    }
}

/// The query for the stake of an operator in its quorums fails as a whole
/// with `GetCurrentStake` as soon as one stake does not come: where the
/// stakes of the first `k - 1` quorums came and reply `k` is no stake, the
/// step after it is that error, and no stake is handed out.
pub proof fn lemma_stakes_fail_as_a_whole(
    stake_registry: Address,
    operator_id: H256,
    bitmap: U256,
    quorums: Seq<u8>,
    steps: Seq<Step>,
    replies: Seq<Reply>,
    k: int,
)
    requires
        is_run(steps, replies),
        steps[0] is Call,
        steps[0]->Call_0 == (Query::StakeBitmap { stake_registry, operator_id }),
        replies[0] == Reply::QuorumBitmap(bitmap),
        decodes(quorums, bitmap),
        1 <= k <= quorums.len(),
        k < replies.len(),
        forall|i: int| 1 <= i < k ==> (#[trigger] replies[i]) is Stake,
        !(replies[k] is Stake),
    ensures
        steps[k + 1] == Step::Done(Err(AvsRegistryError::GetCurrentStake)),
        steps.len() == k + 2,
{
    lemma_stake_run_prefix(stake_registry, operator_id, bitmap, quorums, steps, replies, k);
    assert(steps[k] is Call && steps[k]->Call_0.resumes(replies[k], steps[k + 1]));
    if replies.len() > k + 1 {
        assert(steps[k + 1] is Call);
    }
}

} // verus!
