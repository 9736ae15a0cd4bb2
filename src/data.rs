//! Little-endian integers written to and read from byte buffers.

use vstd::prelude::*;

verus! {

/// Why a read failed.
#[derive(Clone, Copy, PartialEq, Eq, Structural, Debug)]
pub enum DataError {
    /// The buffer ended before the value did.
    UnexpectedEof,
}

/// The little-endian bytes of the `n`-byte value `v`.
pub open spec fn le_bytes(v: nat, n: nat) -> Seq<u8>
    decreases n,
{
    if n == 0 {
        seq![]
    } else {
        seq![(v % 256) as u8] + le_bytes(v / 256, (n - 1) as nat)
    }
}

/// The value of little-endian bytes `s`.
pub open spec fn le_value(s: Seq<u8>) -> nat
    decreases s.len(),
{
    if s.len() == 0 {
        0
    } else {
        s[0] as nat + 256 * le_value(s.drop_first())
    }
}

pub fn write_u8(writer: &mut Vec<u8>, value: u8)
    ensures
        final(writer)@ == old(writer)@ + le_bytes(value as nat, 1),
{
    writer.push(value);
    assert(le_bytes(value as nat, 1) =~= seq![value]) by {
        reveal_with_fuel(le_bytes, 2);
    }
}

pub fn write_u16(writer: &mut Vec<u8>, value: u16)
    ensures
        final(writer)@ == old(writer)@ + le_bytes(value as nat, 2),
{
    writer.push((value % 256) as u8);
    writer.push((value / 256) as u8);
    assert(le_bytes(value as nat, 2) =~= seq![(value % 256) as u8, (value / 256) as u8]) by {
        reveal_with_fuel(le_bytes, 3);
    }
    assert(final(writer)@ =~= old(writer)@ + le_bytes(value as nat, 2));
}

pub fn write_u32(writer: &mut Vec<u8>, value: u32)
    ensures
        final(writer)@ == old(writer)@ + le_bytes(value as nat, 4),
{
    writer.push((value % 256) as u8);
    writer.push(((value / 256) % 256) as u8);
    writer.push(((value / 65536) % 256) as u8);
    writer.push((value / 16777216) as u8);
    assert(le_bytes(value as nat, 4) =~= seq![
        (value % 256) as u8,
        ((value / 256) % 256) as u8,
        ((value / 65536) % 256) as u8,
        (value / 16777216) as u8,
    ]) by {
        reveal_with_fuel(le_bytes, 5);
        assert(value as nat / 256 / 256 == value as nat / 65536) by (nonlinear_arith);
        assert(value as nat / 256 / 256 / 256 == value as nat / 16777216) by (nonlinear_arith);
        assert(value as nat / 16777216 < 256) by (nonlinear_arith)
            requires value < 0x1_0000_0000;
    }
    assert(final(writer)@ =~= old(writer)@ + le_bytes(value as nat, 4));
}

/// Reads one byte at `*position` and moves past it.
pub fn read_u8(reader: &[u8], position: &mut usize) -> (r: Result<u8, DataError>)
    ensures
        *old(position) < reader@.len() <==> r is Ok,
        r is Ok ==> r->Ok_0 == reader@[*old(position) as int] && *final(position) == *old(position) + 1,
        r is Err ==> *final(position) == *old(position) && r == Err::<u8, DataError>(DataError::UnexpectedEof),
{
    if *position < reader.len() {
        let v = reader[*position];
        *position = *position + 1;
        Ok(v)
    } else {
        Err(DataError::UnexpectedEof)
    }
}

/// Reads a little-endian u16 at `*position` and moves past it.
pub fn read_u16(reader: &[u8], position: &mut usize) -> (r: Result<u16, DataError>)
    ensures
        *old(position) + 2 <= reader@.len() <==> r is Ok,
        r is Ok ==> r->Ok_0 == le_value(reader@.subrange(*old(position) as int, *old(position) + 2))
            && *final(position) == *old(position) + 2,
        r is Err ==> *final(position) == *old(position) && r == Err::<u16, DataError>(DataError::UnexpectedEof),
{
    if reader.len() >= 2 && *position <= reader.len() - 2 {
        let p = *position;
        let v = reader[p] as u16 + 256 * reader[p + 1] as u16;
        *position = p + 2;
        proof {
            let s = reader@.subrange(p as int, p + 2);
            reveal_with_fuel(le_value, 3);
            assert(s.drop_first().drop_first().len() == 0);
        }
        Ok(v)
    } else {
        Err(DataError::UnexpectedEof)
    }
}

/// Reads a little-endian u32 at `*position` and moves past it.
pub fn read_u32(reader: &[u8], position: &mut usize) -> (r: Result<u32, DataError>)
    ensures
        *old(position) + 4 <= reader@.len() <==> r is Ok,
        r is Ok ==> r->Ok_0 == le_value(reader@.subrange(*old(position) as int, *old(position) + 4))
            && *final(position) == *old(position) + 4,
        r is Err ==> *final(position) == *old(position) && r == Err::<u32, DataError>(DataError::UnexpectedEof),
{
    if reader.len() >= 4 && *position <= reader.len() - 4 {
        let p = *position;
        let b0 = reader[p] as u32;
        let b1 = reader[p + 1] as u32;
        let b2 = reader[p + 2] as u32;
        let b3 = reader[p + 3] as u32;
        let v = b0 + 256 * (b1 + 256 * (b2 + 256 * b3));
        *position = p + 4;
        proof {
            let s = reader@.subrange(p as int, p + 4);
            reveal_with_fuel(le_value, 5);
            assert(s.drop_first().drop_first().drop_first().drop_first().len() == 0);
            assert(s.drop_first()[0] == b1 && s.drop_first().drop_first()[0] == b2
                && s.drop_first().drop_first().drop_first()[0] == b3);
        }
        Ok(v)
    } else {
        Err(DataError::UnexpectedEof)
    }
}

/// Reads up to `count` bytes at `*position`: fewer when the buffer ends
/// first.
pub fn read_bytes(reader: &[u8], position: &mut usize, count: usize) -> (r: Vec<u8>)
    requires
        *old(position) <= reader@.len(),
    ensures
        ({
            let end = if *old(position) + count <= reader@.len() { *old(position) + count } else { reader@.len() as int };
            &&& r@ == reader@.subrange(*old(position) as int, end)
            &&& *final(position) == end
        }),
{
    let start = *position;
    let end = if count <= reader.len() - start { start + count } else { reader.len() };
    let mut r: Vec<u8> = Vec::new();
    let mut i = start;
    while i < end
        invariant
            start <= i <= end <= reader@.len(),
            r@ == reader@.subrange(start as int, i as int),
        decreases end - i,
    {
        r.push(reader[i]);
        i += 1;
    }
    *position = end;
    r
}

} // verus!
