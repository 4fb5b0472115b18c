//! Little-endian encoding of the integers that make up the serialized
//! automata.
use vstd::prelude::*;

verus! {

/// The `n` least significant bytes of `v`, least significant first.
pub open spec fn le_bytes(v: nat, n: nat) -> Seq<u8>
    decreases n,
{
    if n == 0 {
        seq![]
    } else {
        seq![(v % 256) as u8] + le_bytes(v / 256, (n - 1) as nat)
    }
}

/// Appends the byte `value` to `writer`.
pub fn write_u8(writer: &mut Vec<u8>, value: u8)
    ensures
        final(writer)@ == old(writer)@ + le_bytes(value as nat, 1),
{
    writer.push(value);
    reveal_with_fuel(le_bytes, 2);
    assert(le_bytes(value as nat, 1) =~= seq![value]);
}

/// Appends `value` to `writer` on two bytes, least significant first.
pub fn write_u16(writer: &mut Vec<u8>, value: u16)
    ensures
        final(writer)@ == old(writer)@ + le_bytes(value as nat, 2),
{
    let ghost start = writer@;
    writer.push((value % 256) as u8);
    writer.push((value / 256) as u8);
    reveal_with_fuel(le_bytes, 3);
    assert(le_bytes(value as nat, 2) =~= seq![(value % 256) as u8, ((value / 256) % 256) as u8]);
    assert(writer@ =~= start + le_bytes(value as nat, 2));
}

/// Appends `value` to `writer` on four bytes, least significant first.
pub fn write_u32(writer: &mut Vec<u8>, value: u32)
    ensures
        final(writer)@ == old(writer)@ + le_bytes(value as nat, 4),
{
    let ghost start = writer@;
    let b0 = (value % 256) as u8;
    let v1 = value / 256;
    let b1 = (v1 % 256) as u8;
    let v2 = v1 / 256;
    let b2 = (v2 % 256) as u8;
    let b3 = (v2 / 256) as u8;
    writer.push(b0);
    writer.push(b1);
    writer.push(b2);
    writer.push(b3);
    assert(v2 / 256 < 256) by (nonlinear_arith)
        requires
            v1 == value / 256,
            v2 == v1 / 256,
            value <= u32::MAX,
    ;
    reveal_with_fuel(le_bytes, 5);
    assert(le_bytes(value as nat, 4) =~= seq![b0, b1, b2, ((v2 / 256) % 256) as u8]);
    assert(writer@ =~= start + le_bytes(value as nat, 4));
}

} // verus!
