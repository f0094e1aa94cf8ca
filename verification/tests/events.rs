use avsregistry::error::{AvsRegistryError, ErrorKind};
use avsregistry::events::{
    decode_new_pubkey_registration, decode_registrations, registration_topic,
    NEW_BLS_APK_REGISTRATION_EVENT_SIGNATURE,
};
use avsregistry::types::Log;
use avsregistry::word::{Address, H256};
use num_bigint::BigInt;

fn word(v: u64) -> [u8; 32] {
    let mut w = [0u8; 32];
    w[24..].copy_from_slice(&v.to_be_bytes());
    w
}

fn registration(operator: Address, coordinates: [u64; 6]) -> Log {
    let mut data: Vec<u8> = Vec::new();
    for c in coordinates {
        data.extend_from_slice(&word(c));
    }
    Log {
        address: Address::from_low_u64_be(544),
        topics: vec![registration_topic(), H256::from_address(&operator)],
        data,
        block_number: Some(7),
        log_index: Some(0),
    }
}

#[test]
fn signature_is_the_hash_of_the_event() {
    let hex: String =
        NEW_BLS_APK_REGISTRATION_EVENT_SIGNATURE.iter().map(|b| format!("{:02x}", b)).collect();
    assert_eq!(hex, "e3fb6613af2e8930cf85d47fcf6db10192224a64c6cbe8023e0eee1ba3828041");
    assert_eq!(registration_topic().bytes, NEW_BLS_APK_REGISTRATION_EVENT_SIGNATURE);
}

#[test]
fn scan_of_two_registrations() {
    let a = Address::from_low_u64_be(0x0a);
    let b = Address::from_low_u64_be(0x0b);
    let logs = vec![registration(a, [1; 6]), registration(b, [1; 6])];
    let (operators, keys) = decode_registrations(&logs).unwrap();
    assert_eq!(operators, vec![a, b]);
    assert_eq!(keys.len(), 2);
    let one = BigInt::from(1);
    for k in &keys {
        assert_eq!(k.g1_pub_key.x, one);
        assert_eq!(k.g1_pub_key.y, one);
        assert_eq!(k.g2_pub_key.x, (one.clone(), one.clone()));
        assert_eq!(k.g2_pub_key.y, (one.clone(), one.clone()));
    }
}

#[test]
fn registration_words_go_to_their_coordinates() {
    let a = Address::from_low_u64_be(77);
    let (operator, keys) =
        decode_new_pubkey_registration(&registration(a, [1, 2, 3, 4, 5, 6])).unwrap();
    assert_eq!(operator, a);
    assert_eq!(keys.g1_pub_key.x, BigInt::from(1));
    assert_eq!(keys.g1_pub_key.y, BigInt::from(2));
    assert_eq!(keys.g2_pub_key.x, (BigInt::from(3), BigInt::from(4)));
    assert_eq!(keys.g2_pub_key.y, (BigInt::from(5), BigInt::from(6)));
}

#[test]
fn coordinate_is_the_full_unsigned_word() {
    let mut log = registration(Address::from_low_u64_be(1), [0; 6]);
    for b in log.data[0..32].iter_mut() {
        *b = 0xff;
    }
    log.data[32] = 0x01;
    let (_, keys) = decode_new_pubkey_registration(&log).unwrap();
    let max = (BigInt::from(1) << 256) - 1;
    assert_eq!(keys.g1_pub_key.x, max);
    assert_eq!(keys.g1_pub_key.y, BigInt::from(1) << 248);
    assert_eq!(keys.g2_pub_key.x.0, BigInt::from(0));
}

#[test]
fn operator_is_the_low_twenty_bytes_of_the_topic() {
    let mut log = registration(Address { bytes: [0x11; 20] }, [1; 6]);
    log.topics[1].bytes[0] = 0xee;
    let (operator, _) = decode_new_pubkey_registration(&log).unwrap();
    assert_eq!(operator, Address { bytes: [0x11; 20] });
}

#[test]
fn operator_comes_from_the_second_topic_of_each_log() {
    let logs: Vec<Log> =
        (0..5u64).map(|i| registration(Address::from_low_u64_be(100 + i), [i; 6])).collect();
    let (operators, keys) = decode_registrations(&logs).unwrap();
    assert_eq!(operators.len(), keys.len());
    for i in 0..5u64 {
        assert_eq!(operators[i as usize], Address::from_low_u64_be(100 + i));
        assert_eq!(keys[i as usize].g1_pub_key.x, BigInt::from(i));
    }
}

#[test]
fn trailing_data_is_ignored() {
    let mut log = registration(Address::from_low_u64_be(1), [9; 6]);
    log.data.extend_from_slice(&[0xaa; 40]);
    let (_, keys) = decode_new_pubkey_registration(&log).unwrap();
    assert_eq!(keys.g2_pub_key.y.1, BigInt::from(9));
}

#[test]
fn short_data_is_no_registration() {
    let mut log = registration(Address::from_low_u64_be(1), [1; 6]);
    log.data.pop();
    assert_eq!(
        decode_new_pubkey_registration(&log),
        Err(AvsRegistryError::DecodeEventNewPubkeyRegistrationFilter)
    );
    log.data.clear();
    assert!(decode_new_pubkey_registration(&log).is_err());
}

#[test]
fn wrong_topics_are_no_registration() {
    let good = registration(Address::from_low_u64_be(1), [1; 6]);
    let mut one_topic = good.clone();
    one_topic.topics.pop();
    assert!(decode_new_pubkey_registration(&one_topic).is_err());
    let mut three_topics = good.clone();
    three_topics.topics.push(H256 { bytes: [0; 32] });
    assert!(decode_new_pubkey_registration(&three_topics).is_err());
    let mut no_topics = good.clone();
    no_topics.topics.clear();
    assert!(decode_new_pubkey_registration(&no_topics).is_err());
    let mut other_event = good.clone();
    other_event.topics[0].bytes[31] ^= 1;
    assert_eq!(
        decode_new_pubkey_registration(&other_event),
        Err(AvsRegistryError::DecodeEventNewPubkeyRegistrationFilter)
    );
    assert!(decode_new_pubkey_registration(&good).is_ok());
}

#[test]
fn one_bad_log_fails_the_scan() {
    let mut logs: Vec<Log> =
        (0..4u64).map(|i| registration(Address::from_low_u64_be(i), [1; 6])).collect();
    logs[2].data.truncate(100);
    let r = decode_registrations(&logs);
    assert_eq!(r, Err(AvsRegistryError::DecodeEventNewPubkeyRegistrationFilter));
    assert_eq!(r.unwrap_err().kind(), ErrorKind::EventDecode);
}

#[test]
fn empty_scan_gives_nothing() {
    let (operators, keys) = decode_registrations(&Vec::new()).unwrap();
    assert!(operators.is_empty());
    assert!(keys.is_empty());
}
