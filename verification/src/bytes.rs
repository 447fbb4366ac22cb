use vstd::prelude::*;

verus! {

/// Big-endian value of two bytes.
pub open spec fn be_u16(hi: u8, lo: u8) -> u16 {
    (hi as int * 0x100 + lo as int) as u16
}

/// Big-endian value of four bytes.
pub open spec fn be_u32(b0: u8, b1: u8, b2: u8, b3: u8) -> u32 {
    (b0 as int * 0x100_0000 + b1 as int * 0x1_0000 + b2 as int * 0x100 + b3 as int) as u32
}

/// Little-endian value of four bytes.
pub open spec fn le_u32(b0: u8, b1: u8, b2: u8, b3: u8) -> u32 {
    be_u32(b3, b2, b1, b0)
}

/// Big-endian value of the eight bytes of `s` starting at `at`.
pub open spec fn be_u64_at(s: Seq<u8>, at: int) -> u64 {
    (be_u32(s[at], s[at + 1], s[at + 2], s[at + 3]) as int * 0x1_0000_0000 + be_u32(
        s[at + 4],
        s[at + 5],
        s[at + 6],
        s[at + 7],
    ) as int) as u64
}

/// Byte `i` (counting from the most significant, `0 <= i < 4`) of `x`.
pub open spec fn be_u32_byte(x: u32, i: int) -> u8 {
    ((x as int / pow256(3 - i)) % 0x100) as u8
}

/// Byte `i` (counting from the most significant, `0 <= i < 8`) of `x`.
pub open spec fn be_u64_byte(x: u64, i: int) -> u8 {
    ((x as int / pow256(7 - i)) % 0x100) as u8
}

/// The big-endian bytes of `x`.
pub open spec fn be_u32_bytes(x: u32) -> Seq<u8> {
    Seq::new(4, |i: int| be_u32_byte(x, i))
}

/// The big-endian bytes of `x`.
pub open spec fn be_u64_bytes(x: u64) -> Seq<u8> {
    Seq::new(8, |i: int| be_u64_byte(x, i))
}

/// `256` to the power `k`, for `0 <= k < 8`.
pub open spec fn pow256(k: int) -> int {
    if k <= 0 {
        1
    } else if k == 1 {
        0x100
    } else if k == 2 {
        0x1_0000
    } else if k == 3 {
        0x100_0000
    } else if k == 4 {
        0x1_0000_0000
    } else if k == 5 {
        0x100_0000_0000
    } else if k == 6 {
        0x1_0000_0000_0000
    } else {
        0x100_0000_0000_0000
    }
}

/// Reads a big-endian `u16`.
pub fn read_be_u16(hi: u8, lo: u8) -> (r: u16)
    ensures
        r == be_u16(hi, lo),
{
    let r: u16 = ((hi as u16) << 8) | (lo as u16);
    assert(((hi as u16) << 8) | (lo as u16) == (hi as u16) * 0x100 + (lo as u16)) by (bit_vector);
    r
}

/// Reads a big-endian `u32`.
pub fn read_be_u32(b0: u8, b1: u8, b2: u8, b3: u8) -> (r: u32)
    ensures
        r == be_u32(b0, b1, b2, b3),
{
    let r: u32 = ((b0 as u32) << 24) | ((b1 as u32) << 16) | ((b2 as u32) << 8) | (b3 as u32);
    assert(((b0 as u32) << 24) | ((b1 as u32) << 16) | ((b2 as u32) << 8) | (b3 as u32) == (b0
        as u32) * 0x100_0000 + (b1 as u32) * 0x1_0000 + (b2 as u32) * 0x100 + (b3 as u32))
        by (bit_vector);
    r
}

/// Writes `x` as four big-endian bytes.
pub fn write_be_u32(x: u32) -> (r: [u8; 4])
    ensures
        r@ == be_u32_bytes(x),
{
    let r: [u8; 4] = [(x >> 24) as u8, (x >> 16) as u8, (x >> 8) as u8, x as u8];
    assert((x >> 24) as u8 == x / 0x100_0000) by (bit_vector);
    assert((x >> 16) as u8 == (x / 0x1_0000) % 0x100) by (bit_vector);
    assert((x >> 8) as u8 == (x / 0x100) % 0x100) by (bit_vector);
    assert(x as u8 == x % 0x100) by (bit_vector);
    assert(r@ =~= be_u32_bytes(x));
    r
}

/// Reads a big-endian `u64` from the eight bytes of `s` starting at `at`.
pub fn read_be_u64(s: &[u8], at: usize) -> (r: u64)
    requires
        at + 8 <= s@.len(),
    ensures
        r == be_u64_at(s@, at as int),
{
    let hi = read_be_u32(s[at], s[at + 1], s[at + 2], s[at + 3]);
    let lo = read_be_u32(s[at + 4], s[at + 5], s[at + 6], s[at + 7]);
    let r: u64 = ((hi as u64) << 32) | (lo as u64);
    assert(((hi as u64) << 32) | (lo as u64) == (hi as u64) * 0x1_0000_0000 + (lo as u64))
        by (bit_vector);
    r
}

/// Writes `x` as eight big-endian bytes.
pub fn write_be_u64(x: u64) -> (r: [u8; 8])
    ensures
        r@ == be_u64_bytes(x),
{
    let hi = write_be_u32((x >> 32) as u32);
    let lo = write_be_u32(x as u32);
    let r: [u8; 8] = [hi[0], hi[1], hi[2], hi[3], lo[0], lo[1], lo[2], lo[3]];
    proof {
        assert((x >> 32) as u32 == x / 0x1_0000_0000) by (bit_vector);
        assert(x as u32 == x % 0x1_0000_0000) by (bit_vector);
        lemma_split_u64_bytes(x, (x >> 32) as u32, x as u32);
    }
    assert(r@ =~= be_u64_bytes(x));
    r
}

proof fn lemma_split_u64_bytes(x: u64, h: u32, l: u32)
    requires
        h == x / 0x1_0000_0000,
        l == x % 0x1_0000_0000,
    ensures
        forall|i: int| 0 <= i < 4 ==> #[trigger] be_u32_byte(h, i) == be_u64_byte(x, i),
        forall|i: int| 0 <= i < 4 ==> #[trigger] be_u32_byte(l, i) == be_u64_byte(x, i + 4),
{
    assert forall|i: int| 0 <= i < 4 implies #[trigger] be_u32_byte(h, i) == be_u64_byte(x, i) by {
        let p = pow256(3 - i);
        assert(p > 0);
        assert(pow256(7 - i) == p * 0x1_0000_0000);
        vstd::arithmetic::div_mod::lemma_div_denominator(x as int, 0x1_0000_0000, p);
    }
    assert forall|i: int| 0 <= i < 4 implies #[trigger] be_u32_byte(l, i) == be_u64_byte(
        x,
        i + 4,
    ) by {
        let p = pow256(3 - i);
        assert(p > 0);
        assert(pow256(7 - (i + 4)) == p);
        assert(0x1_0000_0000int == p * (0x1_0000_0000int / p)) by {
            assert(p == 1 || p == 0x100 || p == 0x1_0000 || p == 0x100_0000);
        }
        lemma_mod_div_mod(x as int, p, 0x1_0000_0000int / p);
    }
}

/// For `m = p * q`, taking `x mod m` does not change `(x / p) mod 256` when `q` is a
/// multiple of 256.
proof fn lemma_mod_div_mod(x: int, p: int, q: int)
    requires
        x >= 0,
        p > 0,
        q > 0,
        q % 0x100 == 0,
    ensures
        ((x % (p * q)) / p) % 0x100 == (x / p) % 0x100,
{
    vstd::arithmetic::div_mod::lemma_mod_breakdown(x, p, q);
    // x % (p*q) == p * ((x / p) % q) + x % p
    let a = (x / p) % q;
    let r = x % p;
    vstd::arithmetic::div_mod::lemma_mod_pos_bound(x, p);
    assert((p * a + r) / p == a) by {
        vstd::arithmetic::mul::lemma_mul_is_commutative(p, a);
        vstd::arithmetic::div_mod::lemma_fundamental_div_mod_converse(p * a + r, p, a, r);
    }
    vstd::arithmetic::div_mod::lemma_mod_mod(x / p, 0x100, q / 0x100);
    assert(q == 0x100 * (q / 0x100));
}

/// Reading back written bytes gives the value that was written.
pub proof fn lemma_be_u32_roundtrip(x: u32)
    ensures
        be_u32(be_u32_byte(x, 0), be_u32_byte(x, 1), be_u32_byte(x, 2), be_u32_byte(x, 3)) == x,
{
    assert(be_u32_byte(x, 0) == x / 0x100_0000);
    assert(be_u32_byte(x, 1) == (x / 0x1_0000) % 0x100);
    assert(be_u32_byte(x, 2) == (x / 0x100) % 0x100);
    assert(be_u32_byte(x, 3) == x % 0x100);
    assert((x / 0x100_0000) * 0x100_0000 + ((x / 0x1_0000) % 0x100) * 0x1_0000 + ((x / 0x100)
        % 0x100) * 0x100 + x % 0x100 == x) by (bit_vector);
}

/// Writing the value read from four bytes gives back those bytes.
pub proof fn lemma_be_u32_bytes_roundtrip(b0: u8, b1: u8, b2: u8, b3: u8)
    ensures
        be_u32_bytes(be_u32(b0, b1, b2, b3)) == seq![b0, b1, b2, b3],
{
    let x = be_u32(b0, b1, b2, b3);
    assert(x == (b0 as u32) * 0x100_0000 + (b1 as u32) * 0x1_0000 + (b2 as u32) * 0x100 + (b3
        as u32));
    assert(x / 0x100_0000 == b0 && (x / 0x1_0000) % 0x100 == b1 && (x / 0x100) % 0x100 == b2
        && x % 0x100 == b3) by (bit_vector)
        requires
            x == (b0 as u32) * 0x100_0000 + (b1 as u32) * 0x1_0000 + (b2 as u32) * 0x100 + (b3
                as u32),
    ;
    assert(be_u32_bytes(x) =~= seq![b0, b1, b2, b3]);
}

} // verus!
