//! Byte-level framing helpers: big-endian integers and the revealed-index
//! bitvector that prefixes a serialized proof. The bitvector is stored in
//! big-endian byte order: the byte covering positions 0..8 is the last one.

use vstd::prelude::*;

verus! {

/// Whether bit `bit` of `x` is set.
pub open spec fn bit_set(x: u8, bit: u8) -> bool {
    (x >> bit) & 1 == 1
}

/// The value of two big-endian bytes.
pub open spec fn be_u16_value(b: Seq<u8>) -> int {
    b[0] * 0x100 + b[1]
}

/// The value of four big-endian bytes.
pub open spec fn be_u32_value(b: Seq<u8>) -> int {
    b[0] * 0x1000000 + b[1] * 0x10000 + b[2] * 0x100 + b[3]
}

/// Reads two big-endian bytes starting at `offset`.
pub fn read_be_u16(data: &Vec<u8>, offset: usize) -> (r: u16)
    requires
        offset + 2 <= data@.len(),
    ensures
        r == be_u16_value(data@.subrange(offset as int, offset + 2)),
{
    // binding the length tells the prover the view fits in a machine word
    let n = data.len();
    let hi = data[offset];
    let lo = data[offset + 1];
    proof {
        let s = data@.subrange(offset as int, offset + 2);
        assert(s[0] == hi && s[1] == lo);
    }
    (hi as u16) * 0x100 + (lo as u16)
}

/// Reads four big-endian bytes starting at `offset`.
pub fn read_be_u32(data: &Vec<u8>, offset: usize) -> (r: u32)
    requires
        offset + 4 <= data@.len(),
    ensures
        r == be_u32_value(data@.subrange(offset as int, offset + 4)),
{
    let n = data.len();
    let b0 = data[offset];
    let b1 = data[offset + 1];
    let b2 = data[offset + 2];
    let b3 = data[offset + 3];
    proof {
        let s = data@.subrange(offset as int, offset + 4);
        assert(s[0] == b0 && s[1] == b1 && s[2] == b2 && s[3] == b3);
    }
    (b0 as u32) * 0x1000000 + (b1 as u32) * 0x10000 + (b2 as u32) * 0x100 + (b3 as u32)
}

/// The two big-endian bytes of a 16-bit value.
pub open spec fn u16_be_bytes(v: u16) -> Seq<u8> {
    seq![(v / 0x100) as u8, (v % 0x100) as u8]
}

/// Writes a 16-bit value as two big-endian bytes.
pub fn be_u16_to_bytes(v: u16) -> (r: Vec<u8>)
    ensures
        r@ == u16_be_bytes(v),
        r@.len() == 2,
{
    let mut out: Vec<u8> = Vec::new();
    out.push((v / 0x100) as u8);
    out.push((v % 0x100) as u8);
    proof {
        assert(out@ =~= u16_be_bytes(v));
    }
    out
}

/// Whether `pos` occurs in the index sequence.
pub open spec fn seq_has(s: Seq<usize>, pos: usize) -> bool {
    exists|j: int| 0 <= j < s.len() && s[j] == pos
}

/// What the revealed-index bitvector of a proof over `total` messages says:
/// the vector has `total / 8 + 1` bytes, stored most significant first, and
/// bit `b` of the byte covering positions `8k..8k+8` is set exactly for the
/// revealed positions.
pub open spec fn bitvector_ok(bv: Seq<u8>, total: usize, revealed: Seq<usize>) -> bool {
    &&& bv.len() == total / 8 + 1
    &&& forall|k: int, b: u8|
        0 <= k < bv.len() && b < 8 ==> (#[trigger] bit_set(bv[bv.len() - 1 - k], b) <==> seq_has(
            revealed,
            (8 * k + b) as usize,
        ))
}

proof fn lemma_or_bit(x: u8, b: u8, t: u8)
    requires
        b < 8,
        t < 8,
    ensures
        bit_set(x | (1u8 << b), t) <==> (t == b || bit_set(x, t)),
{
    assert((((x | (1u8 << b)) >> t) & 1 == 1) <==> (t == b || ((x >> t) & 1 == 1))) by (bit_vector)
        requires
            b < 8,
            t < 8,
    ;
}

proof fn lemma_zero_bit(t: u8)
    ensures
        !bit_set(0u8, t),
{
    assert((0u8 >> t) & 1 != 1) by (bit_vector);
}

/// Encodes the revealed positions of a proof over `total` messages as the
/// big-endian bitvector that prefixes the serialized proof.
pub fn revealed_to_bitvector(total: usize, revealed: &Vec<usize>) -> (r: Vec<u8>)
    requires
        total < usize::MAX,
        forall|j: int| 0 <= j < revealed@.len() ==> #[trigger] revealed@[j] < 8 * (total / 8 + 1),
    ensures
        bitvector_ok(r@, total, revealed@),
{
    let len = total / 8 + 1;
    let mut bytes: Vec<u8> = Vec::new();
    while bytes.len() < len
        invariant
            bytes@.len() <= len,
            forall|i: int| 0 <= i < bytes@.len() ==> bytes@[i] == 0u8,
        decreases len - bytes@.len(),
    {
        bytes.push(0u8);
    }
    proof {
        assert forall|k: int, b: u8| 0 <= k < len && b < 8 implies (#[trigger] bit_set(
            bytes@[k],
            b,
        ) <==> exists|j: int| 0 <= j < 0 && revealed@[j] == (8 * k + b) as usize) by {
            lemma_zero_bit(b);
        }
    }
    let mut i: usize = 0;
    while i < revealed.len()
        invariant
            i <= revealed@.len(),
            bytes@.len() == len,
            len == total / 8 + 1,
            forall|j: int| 0 <= j < revealed@.len() ==> #[trigger] revealed@[j] < 8 * len,
            forall|k: int, b: u8|
                0 <= k < len && b < 8 ==> (#[trigger] bit_set(bytes@[k], b) <==> exists|j: int|
                    0 <= j < i && revealed@[j] == (8 * k + b) as usize),
        decreases revealed@.len() - i,
    {
        let r = revealed[i];
        let idx = r / 8;
        let bit = (r % 8) as u8;
        let ghost old_bytes = bytes@;
        proof {
            assert(idx < len);
        }
        let updated = bytes[idx] | (1u8 << bit);
        bytes.set(idx, updated);
        proof {
            assert(8 * (r / 8) + (r % 8) == r);
            assert forall|t: u8| t < 8 implies (bit_set(updated, t) <==> (t == bit || bit_set(
                old_bytes[idx as int],
                t,
            ))) by {
                lemma_or_bit(old_bytes[idx as int], bit, t);
            }
            assert forall|k: int, b: u8| 0 <= k < len && b < 8 implies (#[trigger] bit_set(
                bytes@[k],
                b,
            ) <==> exists|j: int| 0 <= j < i + 1 && revealed@[j] == (8 * k + b) as usize) by {
                if k == idx && b == bit {
                    assert(revealed@[i as int] == (8 * k + b) as usize);
                    assert(bit_set(bytes@[k], b));
                } else {
                    // position 8k + b is not the one just written
                    assert((8 * k + b) as usize != r) by {
                        if k == idx {
                            assert(b != bit);
                        }
                        assert((8 * idx + bit) as usize == r);
                    }
                    assert(forall|j: int|
                        0 <= j < i + 1 && revealed@[j] == (8 * k + b) as usize ==> j < i);
                    if k == idx {
                        assert(bit_set(bytes@[k], b) <==> bit_set(old_bytes[k], b));
                    } else {
                        assert(bytes@[k] == old_bytes[k]);
                    }
                }
            }
        }
        i = i + 1;
    }
    // store most significant byte first
    let mut out: Vec<u8> = Vec::new();
    let mut k: usize = len;
    while k > 0
        invariant
            k <= len,
            bytes@.len() == len,
            out@.len() == len - k,
            forall|t: int| 0 <= t < out@.len() ==> out@[t] == bytes@[len - 1 - t],
        decreases k,
    {
        k = k - 1;
        out.push(bytes[k]);
    }
    proof {
        assert forall|k2: int, b: u8| 0 <= k2 < len && b < 8 implies (#[trigger] bit_set(
            out@[out@.len() - 1 - k2],
            b,
        ) <==> seq_has(revealed@, (8 * k2 + b) as usize)) by {
            assert(out@[len - 1 - k2] == bytes@[k2]);
        }
    }
    out
}

/// Decodes a big-endian revealed-index bitvector into the ascending list of
/// set positions.
pub fn bitvector_to_revealed(data: &Vec<u8>) -> (r: Vec<usize>)
    requires
        data@.len() * 8 <= usize::MAX,
    ensures
        forall|p: usize| seq_has(r@, p) <==> (p < 8 * data@.len() && bit_set(
            data@[data@.len() - 1 - p / 8],
            (p % 8) as u8,
        )),
        forall|a: int, b: int| 0 <= a < b < r@.len() ==> r@[a] < r@[b],
{
    let n = data.len();
    let mut out: Vec<usize> = Vec::new();
    let mut p: usize = 0;
    while p < 8 * n
        invariant
            data@.len() == n,
            8 * n <= usize::MAX,
            p <= 8 * n,
            forall|q: usize| seq_has(out@, q) <==> (q < p && bit_set(
                data@[n - 1 - q / 8],
                (q % 8) as u8,
            )),
            forall|a: int, b: int| 0 <= a < b < out@.len() ==> out@[a] < out@[b],
            forall|a: int| 0 <= a < out@.len() ==> out@[a] < p,
        decreases 8 * n - p,
    {
        let ghost out0 = out@;
        let byte = data[n - 1 - p / 8];
        let bit = (p % 8) as u8;
        let is_set = (byte >> bit) & 1 == 1;
        if is_set {
            out.push(p);
        }
        proof {
            assert forall|q: usize| seq_has(out@, q) implies (q < p + 1 && bit_set(
                data@[n - 1 - q / 8],
                (q % 8) as u8,
            )) by {
                let j = choose|j: int| 0 <= j < out@.len() && out@[j] == q;
                if j < out0.len() {
                    assert(out0[j] == q);
                    assert(seq_has(out0, q));
                } else {
                    assert(q == p);
                }
            }
            assert forall|q: usize| (q < p + 1 && bit_set(
                data@[n - 1 - q / 8],
                (q % 8) as u8,
            )) implies seq_has(out@, q) by {
                if q < p {
                    assert(seq_has(out0, q));
                    let j = choose|j: int| 0 <= j < out0.len() && out0[j] == q;
                    assert(out@[j] == q);
                } else {
                    assert(q == p);
                    assert(is_set);
                    assert(out@[out@.len() - 1] == p);
                }
            }
        }
        p = p + 1;
    }
    out
}

/// The byte length of the revealed-index bitvector for `total` messages.
pub fn bitvector_length(total: usize) -> (r: usize)
    ensures
        r == total / 8 + 1,
{
    total / 8 + 1
}


/// A copy of the bytes from `start` (inclusive) to `end` (exclusive).
pub fn copy_bytes_range(data: &Vec<u8>, start: usize, end: usize) -> (r: Vec<u8>)
    requires
        start <= end,
        end <= data@.len(),
    ensures
        r@ == data@.subrange(start as int, end as int),
{
    let mut out: Vec<u8> = Vec::new();
    let mut i: usize = start;
    while i < end
        invariant
            start <= i <= end,
            end <= data@.len(),
            out@ == data@.subrange(start as int, i as int),
        decreases end - i,
    {
        out.push(data[i]);
        proof {
            assert(out@ =~= data@.subrange(start as int, i + 1));
        }
        i = i + 1;
    }
    out
}

/// The concatenation of two byte vectors.
pub fn concat_bytes(a: &Vec<u8>, b: &Vec<u8>) -> (r: Vec<u8>)
    ensures
        r@ == a@ + b@,
{
    let mut out = copy_bytes_range(a, 0, a.len());
    let mut i: usize = 0;
    proof {
        assert(out@ =~= a@);
    }
    while i < b.len()
        invariant
            i <= b@.len(),
            out@ == a@ + b@.subrange(0, i as int),
        decreases b@.len() - i,
    {
        out.push(b[i]);
        proof {
            assert(out@ =~= a@ + b@.subrange(0, i + 1));
        }
        i = i + 1;
    }
    proof {
        assert(out@ =~= a@ + b@);
    }
    out
}


/// Decoding recovers exactly what was encoded: any ascending position list
/// below the vector's capacity, once written as a bitvector, is the unique
/// ascending list whose members are the set bits.
pub proof fn lemma_bitvector_round_trip(
    total: usize,
    revealed: Seq<usize>,
    bv: Seq<u8>,
    decoded: Seq<usize>,
)
    requires
        forall|a: int, b: int| 0 <= a < b < revealed.len() ==> revealed[a] < revealed[b],
        forall|j: int| 0 <= j < revealed.len() ==> #[trigger] revealed[j] < 8 * (total / 8 + 1),
        bitvector_ok(bv, total, revealed),
        forall|a: int, b: int| 0 <= a < b < decoded.len() ==> decoded[a] < decoded[b],
        forall|p: usize| seq_has(decoded, p) <==> (p < 8 * bv.len() && bit_set(
            bv[bv.len() - 1 - p / 8],
            (p % 8) as u8,
        )),
    ensures
        decoded == revealed,
{
    assert forall|p: usize| seq_has(decoded, p) <==> seq_has(revealed, p) by {
        if p < 8 * bv.len() {
            let k = p as int / 8;
            let b = (p % 8) as u8;
            assert(0 <= k < bv.len() && b < 8);
            assert(8 * k + b == p);
            assert(bit_set(bv[bv.len() - 1 - k], b) <==> seq_has(revealed, (8 * k + b) as usize));
        } else {
            if seq_has(revealed, p) {
                let w = choose|w: int| 0 <= w < revealed.len() && revealed[w] == p;
                assert(revealed[w] < 8 * (total / 8 + 1));
            }
        }
    }
    crate::index_map::lemma_sorted_unique_membership_eq(decoded, revealed);
}

} // verus!
