//! Fixed-width chain values: account addresses, 32-byte words and 256-bit integers.

use vstd::arithmetic::power2::pow2;
use vstd::prelude::*;

verus! {

/// A 20-byte account address.
#[derive(Clone, Copy, Debug, PartialEq, Eq, Hash)]
pub struct Address {
    pub bytes: [u8; 20],
}

/// A 32-byte word: an operator identifier, or one topic of a log.
#[derive(Clone, Copy, Debug, PartialEq, Eq, Hash)]
pub struct H256 {
    pub bytes: [u8; 32],
}

/// An unsigned 256-bit integer, held as its 32 bytes in big-endian order.
#[derive(Clone, Copy, Debug, PartialEq, Eq, Hash)]
pub struct U256 {
    pub bytes: [u8; 32],
}

/// Byte `i` of the big-endian form of `v`, counted from the least significant byte.
pub open spec fn u64_byte(v: u64, i: int) -> u8 {
    ((v >> ((8 * i) as u64)) & 0xff) as u8
}

impl Address {
    /// The address whose last eight bytes are `v` in big-endian order and whose
    /// first twelve bytes are zero.
    pub fn from_low_u64_be(v: u64) -> (r: Address)
        ensures
            forall|i: int| 0 <= i < 12 ==> r.bytes@[i] == 0u8,
            forall|i: int| 12 <= i < 20 ==> r.bytes@[i] == u64_byte(v, 19 - i),
    {
        let mut bytes: [u8; 20] = [0u8; 20];
        let mut i: usize = 0;
        while i < 8
            invariant
                i <= 8,
                forall|k: int| 0 <= k < 12 ==> bytes@[k] == 0u8,
                forall|k: int| 12 <= k < 12 + i ==> bytes@[k] == u64_byte(v, 19 - k),
            decreases 8 - i,
        {
            let shift: u64 = 8 * (7 - i as u64);
            bytes[12 + i] = ((v >> shift) & 0xff) as u8;
            i += 1;
        }
        Address { bytes }
    }

    /// The address carried by a 32-byte word: its last twenty bytes.
    pub fn from_word(word: &H256) -> (r: Address)
        ensures
            r.bytes@ == word.bytes@.subrange(12, 32),
    {
        let mut bytes: [u8; 20] = [0u8; 20];
        let mut i: usize = 0;
        while i < 20
            invariant
                i <= 20,
                forall|k: int| 0 <= k < i ==> bytes@[k] == word.bytes@[12 + k],
            decreases 20 - i,
        {
            bytes[i] = word.bytes[12 + i];
            i += 1;
        }
        assert(bytes@ =~= word.bytes@.subrange(12, 32));
        Address { bytes }
    }
}

impl H256 {
    /// The word that carries `address`: twelve zero bytes, then the address.
    pub fn from_address(address: &Address) -> (r: H256)
        ensures
            forall|i: int| 0 <= i < 12 ==> r.bytes@[i] == 0u8,
            r.bytes@.subrange(12, 32) == address.bytes@,
    {
        let mut bytes: [u8; 32] = [0u8; 32];
        let mut i: usize = 0;
        while i < 20
            invariant
                i <= 20,
                forall|k: int| 0 <= k < 12 ==> bytes@[k] == 0u8,
                forall|k: int| 0 <= k < i ==> bytes@[12 + k] == address.bytes@[k],
            decreases 20 - i,
        {
            bytes[12 + i] = address.bytes[i];
            i += 1;
        }
        assert(bytes@.subrange(12, 32) =~= address.bytes@);
        H256 { bytes }
    }

    /// Whether two words hold the same bytes.
    pub fn same(&self, other: &H256) -> (r: bool)
        ensures
            r == (self.bytes@ == other.bytes@),
    {
        let mut i: usize = 0;
        while i < 32
            invariant
                i <= 32,
                forall|k: int| 0 <= k < i ==> self.bytes@[k] == other.bytes@[k],
            decreases 32 - i,
        {
            if self.bytes[i] != other.bytes[i] {
                return false;
            }
            i += 1;
        }
        assert(self.bytes@ =~= other.bytes@);
        true
    }
}

/// The number that the last `n` bytes of a big-endian string stand for:
/// the byte at distance `i` from the end weighs `256^i`.
pub open spec fn be_low_value(bytes: Seq<u8>, n: nat) -> nat
    decreases n,
{
    if n == 0 {
        0
    } else {
        be_low_value(bytes, (n - 1) as nat) + bytes[bytes.len() - n] as nat * pow2(
            (8 * (n - 1)) as nat,
        )
    }
}

/// The eight bytes of a `u64` add up to it, each at its weight.
proof fn lemma_u64_bytes(v: u64)
    ensures
        v == u64_byte(v, 0) + u64_byte(v, 1) * 0x100 + u64_byte(v, 2) * 0x1_0000 + u64_byte(v, 3)
            * 0x100_0000 + u64_byte(v, 4) * 0x1_0000_0000 + u64_byte(v, 5) * 0x100_0000_0000
            + u64_byte(v, 6) * 0x1_0000_0000_0000 + u64_byte(v, 7) * 0x100_0000_0000_0000,
{
    assert(v == ((v >> 0u64) & 0xff) + ((v >> 8u64) & 0xff) * 0x100 + ((v >> 16u64) & 0xff)
        * 0x1_0000 + ((v >> 24u64) & 0xff) * 0x100_0000 + ((v >> 32u64) & 0xff) * 0x1_0000_0000 + ((v
        >> 40u64) & 0xff) * 0x100_0000_0000 + ((v >> 48u64) & 0xff) * 0x1_0000_0000_0000 + ((v
        >> 56u64) & 0xff) * 0x100_0000_0000_0000) by (bit_vector);
    assert(((v >> 0u64) & 0xff) <= 0xff && ((v >> 8u64) & 0xff) <= 0xff && ((v >> 16u64) & 0xff)
        <= 0xff && ((v >> 24u64) & 0xff) <= 0xff && ((v >> 32u64) & 0xff) <= 0xff && ((v >> 40u64)
        & 0xff) <= 0xff && ((v >> 48u64) & 0xff) <= 0xff && ((v >> 56u64) & 0xff) <= 0xff)
        by (bit_vector);
}

/// A 32-byte string that holds a `u64` in its last eight bytes, and zeros
/// before them, stands for that `u64`.
proof fn lemma_u64_value(bytes: Seq<u8>, v: u64)
    requires
        bytes.len() == 32,
        forall|i: int| 0 <= i < 24 ==> bytes[i] == 0u8,
        forall|i: int| 24 <= i < 32 ==> bytes[i] == u64_byte(v, 31 - i),
    ensures
        be_low_value(bytes, 32) == v,
{
    lemma_u64_bytes(v);
    vstd::arithmetic::power2::lemma2_to64();
    vstd::arithmetic::power2::lemma2_to64_rest();
    reveal_with_fuel(be_low_value, 2);
    assert(be_low_value(bytes, 1) == u64_byte(v, 0) * 0x1);
    assert(be_low_value(bytes, 2) == be_low_value(bytes, 1) + u64_byte(v, 1) * 0x100);
    assert(be_low_value(bytes, 3) == be_low_value(bytes, 2) + u64_byte(v, 2) * 0x1_0000);
    assert(be_low_value(bytes, 4) == be_low_value(bytes, 3) + u64_byte(v, 3) * 0x100_0000);
    assert(be_low_value(bytes, 5) == be_low_value(bytes, 4) + u64_byte(v, 4) * 0x1_0000_0000);
    assert(be_low_value(bytes, 6) == be_low_value(bytes, 5) + u64_byte(v, 5) * 0x100_0000_0000);
    assert(be_low_value(bytes, 7) == be_low_value(bytes, 6) + u64_byte(v, 6)
        * 0x1_0000_0000_0000);
    assert(be_low_value(bytes, 8) == be_low_value(bytes, 7) + u64_byte(v, 7)
        * 0x100_0000_0000_0000);
    lemma_zero_bytes_weigh_nothing(bytes, 32);
}

/// Zero bytes before the last eight add nothing.
proof fn lemma_zero_bytes_weigh_nothing(bytes: Seq<u8>, n: nat)
    requires
        bytes.len() == 32,
        8 <= n <= 32,
        forall|i: int| 0 <= i < 24 ==> bytes[i] == 0u8,
    ensures
        be_low_value(bytes, n) == be_low_value(bytes, 8),
    decreases n,
{
    if n > 8 {
        lemma_zero_bytes_weigh_nothing(bytes, (n - 1) as nat);
        assert(bytes[32 - n] == 0u8);
        assert(0 * pow2((8 * (n - 1)) as nat) == 0);
    }
}

impl U256 {
    /// The integer that the 32 bytes stand for.
    pub open spec fn value(self) -> nat {
        be_low_value(self.bytes@, 32)
    }

    /// Whether bit `k` is set, bit 0 being the least significant.
    pub open spec fn bit(self, k: nat) -> bool
        recommends
            k < 256,
    {
        (self.bytes@[31 - k / 8] >> ((k % 8) as u8)) & 1u8 == 1u8
    }

    /// The integer `v`.
    pub fn from_u64(v: u64) -> (r: U256)
        ensures
            r.value() == v,
            forall|i: int| 0 <= i < 24 ==> r.bytes@[i] == 0u8,
            forall|i: int| 24 <= i < 32 ==> r.bytes@[i] == u64_byte(v, 31 - i),
    {
        let mut bytes: [u8; 32] = [0u8; 32];
        let mut i: usize = 0;
        while i < 8
            invariant
                i <= 8,
                forall|k: int| 0 <= k < 24 ==> bytes@[k] == 0u8,
                forall|k: int| 24 <= k < 24 + i ==> bytes@[k] == u64_byte(v, 31 - k),
            decreases 8 - i,
        {
            let shift: u64 = 8 * (7 - i as u64);
            bytes[24 + i] = ((v >> shift) & 0xff) as u8;
            i += 1;
        }
        proof {
            lemma_u64_value(bytes@, v);
        }
        U256 { bytes }
    }

    /// The word that starts at `offset` in `data`, read as a big-endian integer.
    pub fn from_be_slice(data: &Vec<u8>, offset: usize) -> (r: U256)
        requires
            offset + 32 <= data.len(),
        ensures
            r.bytes@ == data@.subrange(offset as int, offset + 32),
    {
        let mut bytes: [u8; 32] = [0u8; 32];
        let mut i: usize = 0;
        while i < 32
            invariant
                i <= 32,
                offset + 32 <= data.len(),
                forall|k: int| 0 <= k < i ==> bytes@[k] == data@[offset + k],
            decreases 32 - i,
        {
            bytes[i] = data[offset + i];
            i += 1;
        }
        assert(bytes@ =~= data@.subrange(offset as int, offset + 32));
        U256 { bytes }
    }

    /// Whether bit `k` is set.
    pub fn test_bit(&self, k: u8) -> (r: bool)
        ensures
            r == self.bit(k as nat),
    {
        let byte: u8 = self.bytes[31 - (k / 8) as usize];
        (byte >> (k % 8)) & 1 == 1
    }
}

} // verus!
