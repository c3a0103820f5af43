//! The CRC-8 checksum: polynomial 0x1D, initial value 0, no reflection and
//! no final XOR, computed through a table of the 256 one-byte remainders.
use vstd::prelude::*;

verus! {

/// One step of polynomial division: shift left, and subtract the polynomial
/// when a bit falls off the top.
pub open spec fn poly_shift(r: u8) -> u8 {
    if r < 0x80u8 {
        (r * 2) as u8
    } else {
        ((r - 0x80u8) * 2) as u8 ^ 0x1Du8
    }
}

/// The remainder of `x` times x^8 modulo the polynomial: eight division steps.
pub open spec fn crc_divide(x: u8) -> u8 {
    poly_shift(poly_shift(poly_shift(poly_shift(poly_shift(poly_shift(poly_shift(poly_shift(x))))))))
}

/// The register after feeding `s` into a register that held `reg`.
pub open spec fn crc_reg(reg: u8, s: Seq<u8>) -> u8
    decreases s.len(),
{
    if s.len() == 0 {
        reg
    } else {
        crc_divide(crc_reg(reg, s.drop_last()) ^ s.last())
    }
}

/// The CRC-8 of a byte sequence.
pub open spec fn crc8(s: Seq<u8>) -> u8 {
    crc_reg(0, s)
}

fn shift_once(r: u8) -> (s: u8)
    ensures
        s == poly_shift(r),
{
    if r < 0x80 {
        r * 2
    } else {
        ((r - 0x80) * 2) ^ 0x1D
    }
}

fn divide_byte(x: u8) -> (r: u8)
    ensures
        r == crc_divide(x),
{
    let r = shift_once(x);
    let r = shift_once(r);
    let r = shift_once(r);
    let r = shift_once(r);
    let r = shift_once(r);
    let r = shift_once(r);
    let r = shift_once(r);
    shift_once(r)
}

/// The lookup table: entry `i` is the remainder of the byte `i`.
pub fn crc8_table() -> (t: Vec<u8>)
    ensures
        t@.len() == 256,
        forall|i: int| 0 <= i < 256 ==> #[trigger] t@[i] == crc_divide(i as u8),
{
    let mut t: Vec<u8> = Vec::with_capacity(256);
    let mut i: usize = 0;
    while i < 256
        invariant
            i <= 256,
            t@.len() == i,
            forall|j: int| 0 <= j < i ==> #[trigger] t@[j] == crc_divide(j as u8),
        decreases 256 - i,
    {
        t.push(divide_byte(i as u8));
        i += 1;
    }
    t
}

/// The CRC-8 of `data`.
pub fn calculate_crc8(data: &[u8]) -> (c: u8)
    ensures
        c == crc8(data@),
{
    let table = crc8_table();
    let mut crc: u8 = 0;
    let mut i: usize = 0;
    while i < data.len()
        invariant
            i <= data@.len(),
            table@.len() == 256,
            forall|j: int| 0 <= j < 256 ==> #[trigger] table@[j] == crc_divide(j as u8),
            crc == crc8(data@.subrange(0, i as int)),
        decreases data@.len() - i,
    {
        assert(data@.subrange(0, i + 1).drop_last() =~= data@.subrange(0, i as int));
        crc = table[(crc ^ data[i]) as usize];
        i += 1;
    }
    assert(data@.subrange(0, data@.len() as int) =~= data@);
    crc
}

proof fn lemma_divide_facts(x: u8, y: u8)
    by (bit_vector)
    ensures
        crc_divide(0u8) == 0u8,
        x ^ x == 0u8,
        crc_divide(x) == crc_divide(y) ==> x == y,
{
}

proof fn lemma_xor_distinct(a: u8, b: u8, c: u8)
    by (bit_vector)
    ensures
        a != b ==> a ^ c != b ^ c,
{
}

/// Appending a sequence's checksum leaves a remainder of zero.
pub proof fn lemma_zero_remainder(d: Seq<u8>)
    ensures
        crc8(d.push(crc8(d))) == 0,
{
    let c = crc8(d);
    assert(d.push(c).drop_last() =~= d);
    lemma_divide_facts(c, c);
}

/// Feeding `a` and then `b` is feeding `a + b`.
pub proof fn lemma_crc_concat(reg: u8, a: Seq<u8>, b: Seq<u8>)
    ensures
        crc_reg(reg, a + b) == crc_reg(crc_reg(reg, a), b),
    decreases b.len(),
{
    if b.len() == 0 {
        assert(a + b =~= a);
    } else {
        lemma_crc_concat(reg, a, b.drop_last());
        assert((a + b).drop_last() =~= a + b.drop_last());
    }
}

/// Registers that differ stay different after the same bytes are fed in.
pub proof fn lemma_crc_distinct(r1: u8, r2: u8, s: Seq<u8>)
    requires
        r1 != r2,
    ensures
        crc_reg(r1, s) != crc_reg(r2, s),
    decreases s.len(),
{
    if s.len() > 0 {
        lemma_crc_distinct(r1, r2, s.drop_last());
        let x = crc_reg(r1, s.drop_last()) ^ s.last();
        let y = crc_reg(r2, s.drop_last()) ^ s.last();
        lemma_xor_distinct(crc_reg(r1, s.drop_last()), crc_reg(r2, s.drop_last()), s.last());
        lemma_divide_facts(x, y);
    }
}

} // verus!
