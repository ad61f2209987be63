use vstd::prelude::*;

verus! {

/// The four bytes of `x`, most significant first.
pub open spec fn be32_bytes(x: nat) -> Seq<u8> {
    seq![
        (x / 0x100_0000 % 0x100) as u8,
        (x / 0x1_0000 % 0x100) as u8,
        (x / 0x100 % 0x100) as u8,
        (x % 0x100) as u8,
    ]
}

/// The two bytes of `x`, most significant first.
pub open spec fn be16_bytes(x: nat) -> Seq<u8> {
    seq![(x / 0x100 % 0x100) as u8, (x % 0x100) as u8]
}

/// The number held, most significant first, in the four bytes of `b` from `off`.
pub open spec fn be32_value(b: Seq<u8>, off: int) -> nat {
    (b[off] as nat) * 0x100_0000 + (b[off + 1] as nat) * 0x1_0000 + (b[off + 2] as nat) * 0x100 + (
    b[off + 3] as nat)
}

/// The number held, most significant first, in the two bytes of `b` from `off`.
pub open spec fn be16_value(b: Seq<u8>, off: int) -> nat {
    (b[off] as nat) * 0x100 + (b[off + 1] as nat)
}


/// Append the four bytes of `x`, most significant first.
pub fn push_be32(out: &mut Vec<u8>, x: u32)
    ensures
        final(out)@ == old(out)@ + be32_bytes(x as nat),
{
    out.push((x / 0x100_0000 % 0x100) as u8);
    out.push((x / 0x1_0000 % 0x100) as u8);
    out.push((x / 0x100 % 0x100) as u8);
    out.push((x % 0x100) as u8);
    assert(out@ =~= old(out)@ + be32_bytes(x as nat));
}

/// Append the two bytes of `x`, most significant first.
pub fn push_be16(out: &mut Vec<u8>, x: u16)
    ensures
        final(out)@ == old(out)@ + be16_bytes(x as nat),
{
    out.push((x / 0x100 % 0x100) as u8);
    out.push((x % 0x100) as u8);
    assert(out@ =~= old(out)@ + be16_bytes(x as nat));
}


/// The number held in four bytes of `b` from `off`.
pub fn read_be32(b: &Vec<u8>, off: usize) -> (r: u32)
    requires
        off + 4 <= b@.len(),
    ensures
        r as nat == be32_value(b@, off as int),
{
    let len = b.len();
    assert(off + 4 <= len);
    let x0: u32 = b[off] as u32;
    let x1: u32 = b[off + 1] as u32;
    let x2: u32 = b[off + 2] as u32;
    let x3: u32 = b[off + 3] as u32;
    x0 * 0x100_0000 + x1 * 0x1_0000 + x2 * 0x100 + x3
}

/// The number held in two bytes of `b` from `off`.
pub fn read_be16(b: &Vec<u8>, off: usize) -> (r: u16)
    requires
        off + 2 <= b@.len(),
    ensures
        r as nat == be16_value(b@, off as int),
{
    let len = b.len();
    assert(off + 2 <= len);
    let x0: u16 = b[off] as u16;
    let x1: u16 = b[off + 1] as u16;
    x0 * 0x100 + x1
}


/// Reading back the four bytes of `x` gives `x`.
pub proof fn lemma_be32_value(x: u32)
    ensures
        be32_value(be32_bytes(x as nat), 0) == x as nat,
{
    assert(x / 0x100_0000 % 0x100 * 0x100_0000 + x / 0x1_0000 % 0x100 * 0x1_0000 + x / 0x100 % 0x100
        * 0x100 + x % 0x100 == x) by (bit_vector);
}

/// Reading back the two bytes of `x` gives `x`.
pub proof fn lemma_be16_value(x: u16)
    ensures
        be16_value(be16_bytes(x as nat), 0) == x as nat,
{
    assert(x / 0x100 % 0x100 * 0x100 + x % 0x100 == x) by (bit_vector);
}

} // verus!
