use avsregistry::events::{
    decode_new_pubkey_registration, registration_topic, NEW_BLS_APK_REGISTRATION_EVENT_SIGNATURE,
};
use avsregistry::types::{Log, OperatorPubKeys};
use avsregistry::word::{Address, H256};
use ethers::abi::{Event, EventParam, ParamType, RawLog, Token};
use num_bigint::{BigInt, Sign};

fn event() -> Event {
    let uint = ParamType::Uint(256);
    Event {
        name: "NewPubkeyRegistration".to_string(),
        inputs: vec![
            EventParam {
                name: "operator".to_string(),
                kind: ParamType::Address,
                indexed: true,
            },
            EventParam {
                name: "pubkeyG1".to_string(),
                kind: ParamType::Tuple(vec![uint.clone(), uint.clone()]),
                indexed: false,
            },
            EventParam {
                name: "pubkeyG2".to_string(),
                kind: ParamType::Tuple(vec![
                    ParamType::FixedArray(Box::new(uint.clone()), 2),
                    ParamType::FixedArray(Box::new(uint), 2),
                ]),
                indexed: false,
            },
        ],
        anonymous: false,
    }
}

fn numbers(token: &Token, out: &mut Vec<BigInt>) {
    match token {
        Token::Uint(u) => {
            let mut bytes = [0u8; 32];
            u.to_big_endian(&mut bytes);
            out.push(BigInt::from_bytes_be(Sign::Plus, &bytes));
        },
        Token::Tuple(items) | Token::FixedArray(items) => {
            for t in items {
                numbers(t, out);
            }
        },
        _ => {},
    }
}

fn coordinates(keys: &OperatorPubKeys) -> Vec<BigInt> {
    vec![
        keys.g1_pub_key.x.clone(),
        keys.g1_pub_key.y.clone(),
        keys.g2_pub_key.x.0.clone(),
        keys.g2_pub_key.x.1.clone(),
        keys.g2_pub_key.y.0.clone(),
        keys.g2_pub_key.y.1.clone(),
    ]
}

fn next(seed: &mut u64) -> u8 {
    *seed = seed.wrapping_mul(6364136223846793005).wrapping_add(1442695040888963407);
    (*seed >> 33) as u8
}

/// Decodes with the library and with the ABI decoder, and holds one against the other.
fn agree(log: &Log) -> bool {
    let raw = RawLog {
        topics: log.topics.iter().map(|t| ethers::types::H256(t.bytes)).collect(),
        data: log.data.clone(),
    };
    let theirs = event().parse_log(raw);
    let ours = decode_new_pubkey_registration(log);
    assert_eq!(ours.is_ok(), theirs.is_ok());
    if let (Ok((operator, keys)), Ok(parsed)) = (ours, theirs) {
        assert_eq!(parsed.params.len(), 3);
        match &parsed.params[0].value {
            Token::Address(a) => assert_eq!(a.0, operator.bytes),
            other => panic!("{:?}", other),
        }
        let mut expected = Vec::new();
        numbers(&parsed.params[1].value, &mut expected);
        numbers(&parsed.params[2].value, &mut expected);
        assert_eq!(coordinates(&keys), expected);
        true
    } else {
        false
    }
}

#[test]
fn signature_agrees_with_the_abi() {
    assert_eq!(event().signature().0, NEW_BLS_APK_REGISTRATION_EVENT_SIGNATURE);
}

#[test]
fn decoding_agrees_with_the_abi_decoder() {
    let mut seed: u64 = 7;
    let mut accepted = 0;
    let mut rejected = 0;
    for topics in 0..5usize {
        for good_signature in [true, false] {
            for len in [0usize, 1, 31, 32, 160, 191, 192, 193, 224, 300] {
                let mut log = Log {
                    address: Address::from_low_u64_be(1),
                    topics: Vec::new(),
                    data: (0..len).map(|_| next(&mut seed)).collect(),
                    block_number: None,
                    log_index: None,
                };
                for t in 0..topics {
                    if t == 0 && good_signature {
                        log.topics.push(registration_topic());
                    } else {
                        let mut bytes = [0u8; 32];
                        for b in bytes.iter_mut() {
                            *b = next(&mut seed);
                        }
                        log.topics.push(H256 { bytes });
                    }
                }
                if agree(&log) {
                    accepted += 1;
                    assert!(topics == 2 && good_signature && len >= 192);
                } else {
                    rejected += 1;
                }
            }
        }
    }
    assert_eq!(accepted, 4);
    assert_eq!(rejected, 96);
}
