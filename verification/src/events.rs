//! Decoding of the logs that record the registration of a BLS public key.
//!
//! Such a log has two topics: the event's signature, then a word that carries
//! the operator's address. Its data are six 32-byte words: the two
//! coordinates of the G1 key, then the two parts of the G2 key's first
//! coordinate, then the two parts of its second. Bytes after them are ignored.

use crate::bigint::{bigint_from_be_bytes, u256_to_bigint256};
use crate::error::AvsRegistryError;
use crate::types::{G1Point, G2Point, Log, OperatorPubKeys};
use crate::word::{Address, H256, U256};
use vstd::prelude::*;

verus! {

/// The signature of the event `NewPubkeyRegistration`: the first topic of its logs.
pub const NEW_BLS_APK_REGISTRATION_EVENT_SIGNATURE: [u8; 32] = [
    0xe3, 0xfb, 0x66, 0x13, 0xaf, 0x2e, 0x89, 0x30, 0xcf, 0x85, 0xd4, 0x7f, 0xcf, 0x6d, 0xb1, 0x01,
    0x92, 0x22, 0x4a, 0x64, 0xc6, 0xcb, 0xe8, 0x02, 0x3e, 0x0e, 0xee, 0x1b, 0xa3, 0x82, 0x80, 0x41,
];

/// The number of data bytes that a registration holds.
pub const REGISTRATION_DATA_LEN: usize = 192;

/// The event's signature as a topic.
pub fn registration_topic() -> (r: H256)
    ensures
        r.bytes@ == NEW_BLS_APK_REGISTRATION_EVENT_SIGNATURE@,
{
    H256 { bytes: NEW_BLS_APK_REGISTRATION_EVENT_SIGNATURE }
}

/// Whether a log has the layout of a public-key registration.
pub open spec fn is_registration(log: Log) -> bool {
    &&& log.topics@.len() == 2
    &&& log.topics@[0].bytes@ == NEW_BLS_APK_REGISTRATION_EVENT_SIGNATURE@
    &&& log.data@.len() >= REGISTRATION_DATA_LEN
}

/// The word number `i` of the data.
pub open spec fn data_word(data: Seq<u8>, i: int) -> Seq<u8> {
    data.subrange(32 * i, 32 * i + 32)
}

/// The operator that a registration names: the last twenty bytes of its second topic.
pub open spec fn registration_operator(log: Log) -> Seq<u8> {
    log.topics@[1].bytes@.subrange(12, 32)
}

/// The keys that the data of a registration hold.
pub open spec fn registration_keys(data: Seq<u8>) -> OperatorPubKeys {
    OperatorPubKeys {
        g1_pub_key: G1Point {
            x: bigint_from_be_bytes(data_word(data, 0)),
            y: bigint_from_be_bytes(data_word(data, 1)),
        },
        g2_pub_key: G2Point {
            x: (bigint_from_be_bytes(data_word(data, 2)), bigint_from_be_bytes(data_word(data, 3))),
            y: (bigint_from_be_bytes(data_word(data, 4)), bigint_from_be_bytes(data_word(data, 5))),
        },
    }
}

/// Decodes one log into the operator's address and public keys, or tells
/// that the log is no registration.
pub fn decode_new_pubkey_registration(log: &Log) -> (r: Result<
    (Address, OperatorPubKeys),
    AvsRegistryError,
>)
    ensures
        r is Ok <==> is_registration(*log),
        r matches Ok((operator, keys)) ==> operator.bytes@ == registration_operator(*log) && keys
            == registration_keys(log.data@),
        r matches Err(e) ==> e == AvsRegistryError::DecodeEventNewPubkeyRegistrationFilter,
{
    if log.topics.len() != 2 || log.data.len() < REGISTRATION_DATA_LEN {
        return Err(AvsRegistryError::DecodeEventNewPubkeyRegistrationFilter);
    }
    let signature = registration_topic();
    if !log.topics[0].same(&signature) {
        return Err(AvsRegistryError::DecodeEventNewPubkeyRegistrationFilter);
    }
    let operator = Address::from_word(&log.topics[1]);
    let g1_x = u256_to_bigint256(&U256::from_be_slice(&log.data, 0));
    let g1_y = u256_to_bigint256(&U256::from_be_slice(&log.data, 32));
    let g2_x0 = u256_to_bigint256(&U256::from_be_slice(&log.data, 64));
    let g2_x1 = u256_to_bigint256(&U256::from_be_slice(&log.data, 96));
    let g2_y0 = u256_to_bigint256(&U256::from_be_slice(&log.data, 128));
    let g2_y1 = u256_to_bigint256(&U256::from_be_slice(&log.data, 160));
    let keys = OperatorPubKeys {
        g1_pub_key: G1Point { x: g1_x, y: g1_y },
        g2_pub_key: G2Point { x: (g2_x0, g2_x1), y: (g2_y0, g2_y1) },
    };
    Ok((operator, keys))
}

/// Whether every log of a sequence is a registration.
pub open spec fn all_registrations(logs: Seq<Log>) -> bool {
    forall|i: int| 0 <= i < logs.len() ==> is_registration(#[trigger] logs[i])
}

/// Whether `operators` and `keys` are what the logs hold, one item for each
/// log, in the order of the logs.
pub open spec fn registrations_decoded(
    logs: Seq<Log>,
    operators: Seq<Address>,
    keys: Seq<OperatorPubKeys>,
) -> bool {
    &&& operators.len() == logs.len()
    &&& keys.len() == logs.len()
    &&& forall|i: int|
        0 <= i < logs.len() ==> (#[trigger] operators[i]).bytes@ == registration_operator(logs[i])
    &&& forall|i: int|
        0 <= i < logs.len() ==> #[trigger] keys[i] == registration_keys(logs[i].data@)
}

/// Decodes the logs of a scan, in their order, into the operators' addresses
/// and their public keys. One log that is no registration fails the whole scan.
pub fn decode_registrations(logs: &Vec<Log>) -> (r: Result<
    (Vec<Address>, Vec<OperatorPubKeys>),
    AvsRegistryError,
>)
    ensures
        r is Ok <==> all_registrations(logs@),
        r matches Ok((operators, keys)) ==> registrations_decoded(logs@, operators@, keys@),
        r matches Err(e) ==> e == AvsRegistryError::DecodeEventNewPubkeyRegistrationFilter,
{
    let mut operators: Vec<Address> = Vec::new();
    let mut keys: Vec<OperatorPubKeys> = Vec::new();
    let mut i: usize = 0;
    while i < logs.len()
        invariant
            i <= logs.len(),
            all_registrations(logs@.take(i as int)),
            registrations_decoded(logs@.take(i as int), operators@, keys@),
        decreases logs.len() - i,
    {
        match decode_new_pubkey_registration(&logs[i]) {
            Ok((operator, key)) => {
                operators.push(operator);
                keys.push(key);
            },
            Err(e) => {
                return Err(e);
            },
        }
        i += 1;
    }
    assert(logs@.take(i as int) =~= logs@);
    Ok((operators, keys))
}

} // verus!
