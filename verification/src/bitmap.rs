//! Quorum bitmaps: a 256-bit integer whose set bits name the quorums of an operator.

use crate::word::{be_low_value, U256};
use vstd::arithmetic::power2::{lemma2_to64, lemma_pow2_adds, pow2};
use vstd::prelude::*;

verus! {

/// The bitmap that a sequence of quorum identifiers stands for: the sum of `2^q`
/// over its items.
pub open spec fn quorum_sum(ids: Seq<u8>) -> nat
    decreases ids.len(),
{
    if ids.len() == 0 {
        0
    } else {
        quorum_sum(ids.drop_last()) + pow2(ids.last() as nat)
    }
}

/// Each item is smaller than the one after it.
pub open spec fn strictly_ascending(ids: Seq<u8>) -> bool {
    forall|i: int, j: int| 0 <= i < j < ids.len() ==> ids[i] < ids[j]
}

/// Bit `j` of a byte, as 0 or 1.
pub open spec fn byte_bit(b: u8, j: nat) -> nat {
    if (b >> (j as u8)) & 1u8 == 1u8 {
        1
    } else {
        0
    }
}

/// A byte is the sum of its bits at their weights.
proof fn lemma_byte_bits(b: u8)
    ensures
        b as nat == byte_bit(b, 0) + 2 * byte_bit(b, 1) + 4 * byte_bit(b, 2) + 8 * byte_bit(b, 3)
            + 16 * byte_bit(b, 4) + 32 * byte_bit(b, 5) + 64 * byte_bit(b, 6) + 128 * byte_bit(
            b,
            7,
        ),
{
    assert(b == ((b >> 0u8) & 1u8) + 2 * ((b >> 1u8) & 1u8) + 4 * ((b >> 2u8) & 1u8) + 8 * ((b
        >> 3u8) & 1u8) + 16 * ((b >> 4u8) & 1u8) + 32 * ((b >> 5u8) & 1u8) + 64 * ((b >> 6u8)
        & 1u8) + 128 * ((b >> 7u8) & 1u8)) by (bit_vector);
    assert(((b >> 0u8) & 1u8) <= 1 && ((b >> 1u8) & 1u8) <= 1 && ((b >> 2u8) & 1u8) <= 1 && ((b
        >> 3u8) & 1u8) <= 1 && ((b >> 4u8) & 1u8) <= 1 && ((b >> 5u8) & 1u8) <= 1 && ((b >> 6u8)
        & 1u8) <= 1 && ((b >> 7u8) & 1u8) <= 1) by (bit_vector);
}

/// A bit times a weight is the weight or nothing.
proof fn lemma_unit_mul(c: nat, w: nat)
    by (nonlinear_arith)
    requires
        c <= 1,
    ensures
        c * w == if c == 1 { w } else { 0 },
{
}

/// Adding a weighted bit before or after weighing by `p` comes to the same.
proof fn lemma_weigh_step(a: nat, c: nat, k: nat, p: nat)
    by (nonlinear_arith)
    ensures
        (a + k * c) * p == a * p + c * (k * p),
{
}

/// Weighing each bit of a byte by `p` weighs the byte by `p`.
proof fn lemma_weigh_byte(
    c0: nat,
    c1: nat,
    c2: nat,
    c3: nat,
    c4: nat,
    c5: nat,
    c6: nat,
    c7: nat,
    p: nat,
)
    ensures
        c0 * (1 * p) + c1 * (2 * p) + c2 * (4 * p) + c3 * (8 * p) + c4 * (16 * p) + c5 * (32 * p)
            + c6 * (64 * p) + c7 * (128 * p) == (c0 + 2 * c1 + 4 * c2 + 8 * c3 + 16 * c4 + 32 * c5
            + 64 * c6 + 128 * c7) * p,
{
    let s0: nat = 0;
    let s1: nat = s0 + 1 * c0;
    let s2: nat = s1 + 2 * c1;
    let s3: nat = s2 + 4 * c2;
    let s4: nat = s3 + 8 * c3;
    let s5: nat = s4 + 16 * c4;
    let s6: nat = s5 + 32 * c5;
    let s7: nat = s6 + 64 * c6;
    lemma_weigh_step(s0, c0, 1, p);
    lemma_weigh_step(s1, c1, 2, p);
    lemma_weigh_step(s2, c2, 4, p);
    lemma_weigh_step(s3, c3, 8, p);
    lemma_weigh_step(s4, c4, 16, p);
    lemma_weigh_step(s5, c5, 32, p);
    lemma_weigh_step(s6, c6, 64, p);
    lemma_weigh_step(s7, c7, 128, p);
    assert(s0 * p == 0) by (nonlinear_arith)
        requires
            s0 == 0,
    ;
}

impl U256 {
    /// The integer made of the `k` lowest bits.
    pub open spec fn low_bits(self, k: nat) -> nat
        decreases k,
    {
        if k == 0 {
            0
        } else {
            self.low_bits((k - 1) as nat) + if self.bit((k - 1) as nat) {
                pow2((k - 1) as nat)
            } else {
                0
            }
        }
    }

    /// How many of the `k` lowest bits are set.
    pub open spec fn count_bits(self, k: nat) -> nat
        decreases k,
    {
        if k == 0 {
            0
        } else {
            self.count_bits((k - 1) as nat) + if self.bit((k - 1) as nat) {
                1nat
            } else {
                0nat
            }
        }
    }

    /// How many bits are set.
    pub open spec fn popcount(self) -> nat {
        self.count_bits(256)
    }

    /// The weight that bit `k` adds to the integer.
    pub open spec fn bit_weight(self, k: nat) -> nat {
        if self.bit(k) {
            pow2(k)
        } else {
            0
        }
    }

    /// Eight more bits add their eight weights.
    proof fn lemma_low_bits_unfold(self, k: nat)
        ensures
            self.low_bits(k + 8) == self.low_bits(k) + self.bit_weight(k + 0) + self.bit_weight(
                k + 1,
            ) + self.bit_weight(k + 2) + self.bit_weight(k + 3) + self.bit_weight(k + 4)
                + self.bit_weight(k + 5) + self.bit_weight(k + 6) + self.bit_weight(k + 7),
    {
        reveal_with_fuel(U256::low_bits, 9);
    }

    /// The eight bits of one byte add up to the byte, at the byte's weight.
    proof fn lemma_low_bits_byte(self, m: nat)
        requires
            m < 32,
        ensures
            self.low_bits(8 * m + 8) == self.low_bits(8 * m) + self.bytes@[31 - m] as nat * pow2(
                8 * m,
            ),
    {
        let b: u8 = self.bytes@[31 - m];
        let p: nat = pow2(8 * m);
        let base: nat = 8 * m;
        self.lemma_low_bits_unfold(8 * m);
        lemma2_to64();
        assert forall|j: nat| j < 8 implies #[trigger] self.bit_weight(base + j) == byte_bit(b, j)
            * (pow2(j) * p) by {
            lemma_pow2_adds(8 * m, j);
            assert(self.bit(base + j) == ((b >> (j as u8)) & 1u8 == 1u8));
            lemma_unit_mul(byte_bit(b, j), pow2(j) * p);
        }
        lemma_byte_bits(b);
        lemma_weigh_byte(
            byte_bit(b, 0),
            byte_bit(b, 1),
            byte_bit(b, 2),
            byte_bit(b, 3),
            byte_bit(b, 4),
            byte_bit(b, 5),
            byte_bit(b, 6),
            byte_bit(b, 7),
            p,
        );
        assert(self.bit_weight(base + 0) == byte_bit(b, 0) * (1 * p));
        assert(self.bit_weight(base + 1) == byte_bit(b, 1) * (2 * p));
        assert(self.bit_weight(base + 2) == byte_bit(b, 2) * (4 * p));
        assert(self.bit_weight(base + 3) == byte_bit(b, 3) * (8 * p));
        assert(self.bit_weight(base + 4) == byte_bit(b, 4) * (16 * p));
        assert(self.bit_weight(base + 5) == byte_bit(b, 5) * (32 * p));
        assert(self.bit_weight(base + 6) == byte_bit(b, 6) * (64 * p));
        assert(self.bit_weight(base + 7) == byte_bit(b, 7) * (128 * p));
    }

    /// The lowest `8 * m` bits are the integer of the last `m` bytes.
    proof fn lemma_low_bits_bytes(self, m: nat)
        requires
            m <= 32,
        ensures
            self.low_bits(8 * m) == be_low_value(self.bytes@, m),
        decreases m,
    {
        if m > 0 {
            self.lemma_low_bits_bytes((m - 1) as nat);
            self.lemma_low_bits_byte((m - 1) as nat);
        }
    }

    /// All 256 bits together are the integer itself.
    pub proof fn lemma_low_bits_all(self)
        ensures
            self.low_bits(256) == self.value(),
    {
        self.lemma_low_bits_bytes(32);
    }
}

/// Whether `ids` is the decoding of `bitmap`: the quorums whose bits are set,
/// each once, in ascending order; as many as bits are set; and their powers of
/// two add up to the bitmap.
pub open spec fn decodes(ids: Seq<u8>, bitmap: U256) -> bool {
    &&& strictly_ascending(ids)
    &&& forall|q: u8| ids.contains(q) <==> bitmap.bit(q as nat)
    &&& ids.len() == bitmap.popcount()
    &&& quorum_sum(ids) == bitmap.value()
}

/// Decodes a quorum bitmap into the quorum identifiers whose bits are set, in
/// ascending order.
pub fn bitmap_to_quorum_ids(bitmap: U256) -> (ids: Vec<u8>)
    ensures
        decodes(ids@, bitmap),
{
    let mut ids: Vec<u8> = Vec::new();
    let mut k: usize = 0;
    while k < 256
        invariant
            k <= 256,
            strictly_ascending(ids@),
            forall|i: int| 0 <= i < ids@.len() ==> (#[trigger] ids@[i]) < k,
            forall|q: u8| ids@.contains(q) <==> (q < k && bitmap.bit(q as nat)),
            ids@.len() == bitmap.count_bits(k as nat),
            quorum_sum(ids@) == bitmap.low_bits(k as nat),
        decreases 256 - k,
    {
        let q: u8 = k as u8;
        if bitmap.test_bit(q) {
            let ghost before = ids@;
            ids.push(q);
            proof {
                assert(ids@.drop_last() =~= before);
                assert(ids@[before.len() as int] == q);
                assert forall|r: u8| ids@.contains(r) <==> (r < k + 1 && bitmap.bit(r as nat)) by {
                    if ids@.contains(r) {
                        let i = choose|i: int| 0 <= i < ids@.len() && ids@[i] == r;
                        if i < before.len() {
                            assert(before[i] == r);
                            assert(before.contains(r));
                        }
                    }
                    if r < k + 1 && bitmap.bit(r as nat) {
                        if r < k {
                            assert(before.contains(r));
                            let i = choose|i: int| 0 <= i < before.len() && before[i] == r;
                            assert(ids@[i] == r);
                        }
                    }
                }
            }
        }
        k += 1;
    }
    proof {
        bitmap.lemma_low_bits_all();
        assert forall|q: u8| ids@.contains(q) <==> bitmap.bit(q as nat) by {
            assert(q < 256);
        }
    }
    ids
}

} // verus!
