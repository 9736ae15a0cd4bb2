//! Run-length encoding of byte buffers as (byte, count) pairs.

use vstd::prelude::*;

verus! {

/// What a run-length encoded buffer stands for: each (byte, count) pair
/// expands to `count` copies of `byte`; a trailing odd byte is ignored.
pub open spec fn rle_decoded(data: Seq<u8>) -> Seq<u8>
    decreases data.len(),
{
    if data.len() < 2 {
        seq![]
    } else {
        Seq::new(data[1] as nat, |_i: int| data[0]) + rle_decoded(data.subrange(2, data.len() as int))
    }
}

proof fn lemma_decoded_append(a: Seq<u8>, b: u8, c: u8)
    requires
        a.len() % 2 == 0,
    ensures
        rle_decoded(a + seq![b, c]) == rle_decoded(a) + Seq::new(c as nat, |_i: int| b),
    decreases a.len(),
{
    if a.len() == 0 {
        assert((a + seq![b, c]).subrange(2, 2) =~= seq![]);
        assert(rle_decoded(seq![]) =~= seq![]);
        assert(rle_decoded(a + seq![b, c]) =~= Seq::new(c as nat, |_i: int| b));
    } else {
        let rest = a.subrange(2, a.len() as int);
        lemma_decoded_append(rest, b, c);
        assert((a + seq![b, c]).subrange(2, a.len() as int + 2) =~= rest + seq![b, c]);
        assert(rle_decoded(a + seq![b, c]) =~= Seq::new(a[1] as nat, |_i: int| a[0]) + (rle_decoded(rest) + Seq::new(
            c as nat,
            |_i: int| b,
        )));
    }
}

/// Encodes `data` as (byte, count) pairs with counts from 1 to 255.
pub fn encode_rle(data: &[u8]) -> (r: Vec<u8>)
    ensures
        rle_decoded(r@) == data@,
        r@.len() % 2 == 0,
        forall|i: int| 0 <= i < r@.len() / 2 ==> #[trigger] r@[2 * i + 1] >= 1,
        data@.len() == 0 ==> r@.len() == 0,
        forall|i: int|
            0 <= i && i + 1 < r@.len() / 2 ==> #[trigger] r@[2 * i] != r@[2 * i + 2] || r@[2 * i + 1] == 255,
{
    let mut encoded: Vec<u8> = Vec::new();
    if data.len() == 0 {
        assert(rle_decoded(encoded@) =~= data@);
        return encoded;
    }
    let mut prev = data[0];
    let mut count: u8 = 1;
    let mut i: usize = 1;
    while i < data.len()
        invariant
            1 <= i <= data@.len(),
            1 <= count,
            count <= i,
            encoded@.len() % 2 == 0,
            forall|k: int| 0 <= k < encoded@.len() / 2 ==> #[trigger] encoded@[2 * k + 1] >= 1,
            forall|k: int|
                0 <= k && k + 1 < encoded@.len() / 2 ==> #[trigger] encoded@[2 * k] != encoded@[2 * k + 2] || encoded@[2
                    * k + 1] == 255,
            encoded@.len() >= 2 ==> encoded@[encoded@.len() - 2] != prev || encoded@[encoded@.len() - 1] == 255,
            rle_decoded(encoded@) + Seq::new(count as nat, |_k: int| prev) == data@.subrange(0, i as int),
        decreases data@.len() - i,
    {
        let byte = data[i];
        if count != 255 && byte == prev {
            proof {
                assert(Seq::new((count + 1) as nat, |_k: int| prev) =~= Seq::new(count as nat, |_k: int| prev).push(prev));
                assert(data@.subrange(0, i + 1) =~= data@.subrange(0, i as int).push(byte));
            }
            count = count + 1;
        } else {
            proof {
                lemma_decoded_append(encoded@, prev, count);
                assert(data@.subrange(0, i + 1) =~= data@.subrange(0, i as int).push(byte));
                assert(Seq::new(1nat, |_k: int| byte) =~= seq![byte]);
            }
            let ghost before = encoded@;
            encoded.push(prev);
            encoded.push(count);
            proof {
                assert(encoded@ =~= before + seq![prev, count]);
                assert forall|k: int| 0 <= k < encoded@.len() / 2 implies #[trigger] encoded@[2 * k + 1] >= 1 by {
                    if k < before.len() / 2 {
                        assert(encoded@[2 * k + 1] == before[2 * k + 1]);
                    }
                }
                assert forall|k: int| 0 <= k && k + 1 < encoded@.len() / 2 implies #[trigger] encoded@[2 * k]
                    != encoded@[2 * k + 2] || encoded@[2 * k + 1] == 255 by {
                    if k + 1 < before.len() / 2 {
                        assert(encoded@[2 * k] == before[2 * k] && encoded@[2 * k + 2] == before[2 * k + 2]
                            && encoded@[2 * k + 1] == before[2 * k + 1]);
                    } else {
                        assert(2 * k == before.len() - 2);
                    }
                }
                assert(rle_decoded(encoded@) + Seq::new(1nat, |_k: int| byte) =~= data@.subrange(0, i + 1));
            }
            prev = byte;
            count = 1;
        }
        i += 1;
    }
    let ghost before = encoded@;
    proof {
        lemma_decoded_append(encoded@, prev, count);
    }
    encoded.push(prev);
    encoded.push(count);
    proof {
        assert(encoded@ =~= before + seq![prev, count]);
        assert forall|k: int| 0 <= k < encoded@.len() / 2 implies #[trigger] encoded@[2 * k + 1] >= 1 by {
            if k < before.len() / 2 {
                assert(encoded@[2 * k + 1] == before[2 * k + 1]);
            }
        }
        assert forall|k: int| 0 <= k && k + 1 < encoded@.len() / 2 implies #[trigger] encoded@[2 * k] != encoded@[2
            * k + 2] || encoded@[2 * k + 1] == 255 by {
            if k + 1 < before.len() / 2 {
                assert(encoded@[2 * k] == before[2 * k] && encoded@[2 * k + 2] == before[2 * k + 2] && encoded@[2 * k
                    + 1] == before[2 * k + 1]);
            } else {
                assert(2 * k == before.len() - 2);
            }
        }
        assert(data@.subrange(0, data@.len() as int) =~= data@);
    }
    encoded
}

/// Expands (byte, count) pairs; a trailing odd byte is ignored.
pub fn decode_rle(data: &[u8]) -> (r: Vec<u8>)
    ensures
        r@ == rle_decoded(data@),
{
    let mut decoded: Vec<u8> = Vec::new();
    let mut i: usize = 0;
    assert(data@.subrange(0, data@.len() as int) =~= data@);
    assert(decoded@ + rle_decoded(data@) =~= rle_decoded(data@));
    while i + 1 < data.len()
        invariant
            i % 2 == 0,
            i <= data@.len(),
            decoded@ + rle_decoded(data@.subrange(i as int, data@.len() as int)) == rle_decoded(data@),
        decreases data@.len() - i,
    {
        let byte = data[i];
        let count = data[i + 1];
        let ghost before = decoded@;
        let mut k: u8 = 0;
        while k < count
            invariant
                k <= count,
                decoded@ == before + Seq::new(k as nat, |_j: int| byte),
            decreases count - k,
        {
            decoded.push(byte);
            k = k + 1;
            proof {
                assert(decoded@ =~= before + Seq::new(k as nat, |_j: int| byte));
            }
        }
        proof {
            let s = data@.subrange(i as int, data@.len() as int);
            assert(s.subrange(2, s.len() as int) =~= data@.subrange(i + 2, data@.len() as int));
            assert(rle_decoded(s) == Seq::new(count as nat, |_j: int| byte) + rle_decoded(s.subrange(2, s.len() as int)));
            assert(decoded@ + rle_decoded(data@.subrange(i + 2, data@.len() as int)) =~= before + rle_decoded(s));
        }
        i = i + 2;
    }
    proof {
        assert(rle_decoded(data@.subrange(i as int, data@.len() as int)) =~= seq![]);
        assert(decoded@ + seq![] =~= decoded@);
    }
    decoded
}

} // verus!
