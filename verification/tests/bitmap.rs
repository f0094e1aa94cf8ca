use avsregistry::bitmap::bitmap_to_quorum_ids;
use avsregistry::word::{Address, H256, U256};

fn bitmap_of(ids: &[u8]) -> U256 {
    let mut bytes = [0u8; 32];
    for q in ids {
        bytes[31 - (*q as usize) / 8] |= 1 << (*q % 8);
    }
    U256 { bytes }
}

#[test]
fn decode_low_bits() {
    assert_eq!(bitmap_to_quorum_ids(U256::from_u64(0b1011)), vec![0u8, 1, 3]);
}

#[test]
fn decode_zero() {
    assert_eq!(bitmap_to_quorum_ids(U256::from_u64(0)), Vec::<u8>::new());
}

#[test]
fn decode_top_bit() {
    let mut bytes = [0u8; 32];
    bytes[0] = 0x80;
    assert_eq!(bitmap_to_quorum_ids(U256 { bytes }), vec![255u8]);
}

#[test]
fn decode_all_bits() {
    let ids = bitmap_to_quorum_ids(U256 { bytes: [0xff; 32] });
    assert_eq!(ids.len(), 256);
    for (i, q) in ids.iter().enumerate() {
        assert_eq!(*q as usize, i);
    }
}

#[test]
fn decode_round_trip() {
    let cases: Vec<Vec<u8>> = vec![
        vec![],
        vec![0],
        vec![7, 8],
        vec![0, 1, 3],
        vec![63, 64, 65, 127, 128, 191, 192, 254, 255],
        vec![5, 17, 100, 200],
    ];
    for ids in cases {
        let decoded = bitmap_to_quorum_ids(bitmap_of(&ids));
        assert_eq!(decoded, ids);
        assert_eq!(bitmap_of(&decoded), bitmap_of(&ids));
    }
}

#[test]
fn decode_is_strictly_ascending() {
    let mut bytes = [0u8; 32];
    for (i, b) in bytes.iter_mut().enumerate() {
        *b = (i as u8).wrapping_mul(37).wrapping_add(11);
    }
    let bitmap = U256 { bytes };
    let ids = bitmap_to_quorum_ids(bitmap);
    for w in ids.windows(2) {
        assert!(w[0] < w[1]);
    }
    let ones: u32 = bytes.iter().map(|b| b.count_ones()).sum();
    assert_eq!(ids.len() as u32, ones);
    for q in 0..=255u8 {
        assert_eq!(ids.contains(&q), bitmap.test_bit(q));
    }
    assert_eq!(bitmap_of(&ids), bitmap);
}

#[test]
fn u256_from_u64_is_big_endian() {
    let v = U256::from_u64(0x0102_0304_0506_0708);
    let mut expected = [0u8; 32];
    expected[24..].copy_from_slice(&[1, 2, 3, 4, 5, 6, 7, 8]);
    assert_eq!(v.bytes, expected);
    assert!(v.test_bit(3));
    assert!(!v.test_bit(0));
    assert!(v.test_bit(56));
}

#[test]
fn u256_from_be_slice_reads_at_offset() {
    let data: Vec<u8> = (0..100u8).collect();
    let v = U256::from_be_slice(&data, 5);
    let expected: Vec<u8> = (5..37u8).collect();
    assert_eq!(v.bytes.to_vec(), expected);
}

#[test]
fn address_from_low_u64_be() {
    let a = Address::from_low_u64_be(0x0a);
    let mut expected = [0u8; 20];
    expected[19] = 0x0a;
    assert_eq!(a.bytes, expected);
    let b = Address::from_low_u64_be(0x1122_3344_5566_7788);
    assert_eq!(&b.bytes[..12], &[0u8; 12]);
    assert_eq!(&b.bytes[12..], &[0x11, 0x22, 0x33, 0x44, 0x55, 0x66, 0x77, 0x88]);
}

#[test]
fn address_and_word_convert() {
    let a = Address { bytes: [0xab; 20] };
    let w = H256::from_address(&a);
    assert_eq!(&w.bytes[..12], &[0u8; 12]);
    assert_eq!(&w.bytes[12..], &[0xab; 20]);
    assert_eq!(Address::from_word(&w), a);
    let mut dirty = w;
    dirty.bytes[0] = 0xff;
    assert_eq!(Address::from_word(&dirty), a);
    assert!(w.same(&H256::from_address(&a)));
    assert!(!w.same(&dirty));
}
