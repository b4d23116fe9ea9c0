//! Byte strings and their little-endian bit images.
//!
//! Every public input of the inner proof is carried into the outer circuit as
//! a byte string exploded into bits, least significant bit of each byte
//! first. The spec functions here fix that image once, so the ordering
//! contract of the encoder can be stated over them.

use vstd::prelude::*;

verus! {

/// The eight bits of a byte, least significant first.
pub open spec fn byte_bits_le(b: u8) -> Seq<bool> {
    seq![
        b & 1 == 1,
        (b >> 1) & 1 == 1,
        (b >> 2) & 1 == 1,
        (b >> 3) & 1 == 1,
        (b >> 4) & 1 == 1,
        (b >> 5) & 1 == 1,
        (b >> 6) & 1 == 1,
        (b >> 7) & 1 == 1,
    ]
}

/// Bit image of a byte string: the bits of each byte in order, least
/// significant bit of each byte first.
pub open spec fn bytes_bits_le(s: Seq<u8>) -> Seq<bool>
    decreases s.len(),
{
    if s.len() == 0 {
        Seq::empty()
    } else {
        bytes_bits_le(s.drop_last()) + byte_bits_le(s.last())
    }
}

/// Concatenation of a list of byte strings, in order.
pub open spec fn concat_bytes(elems: Seq<Seq<u8>>) -> Seq<u8>
    decreases elems.len(),
{
    if elems.len() == 0 {
        Seq::empty()
    } else {
        concat_bytes(elems.drop_last()) + elems.last()
    }
}

/// The subsequence of non-empty bit groups, in order.
pub open spec fn nonempty_groups(groups: Seq<Seq<bool>>) -> Seq<Seq<bool>>
    decreases groups.len(),
{
    if groups.len() == 0 {
        Seq::empty()
    } else if groups.last().len() > 0 {
        nonempty_groups(groups.drop_last()).push(groups.last())
    } else {
        nonempty_groups(groups.drop_last())
    }
}

/// The deep view of a bit vector is its view.
pub proof fn lemma_bits_deep_view(v: &Vec<bool>)
    ensures
        v.deep_view() == v@,
{
    assert(v.deep_view() =~= v@);
}

/// Appends one bit group to a group list.
pub fn push_group(out: &mut Vec<Vec<bool>>, g: Vec<bool>)
    ensures
        final(out).deep_view() == old(out).deep_view().push(g@),
{
    proof {
        lemma_bits_deep_view(&g);
    }
    out.push(g);
    proof {
        assert(out.deep_view() =~= old(out).deep_view().push(g@));
    }
}

/// The bits of one byte, least significant first.
pub fn byte_to_bits_le(b: u8) -> (r: Vec<bool>)
    ensures
        r@ == byte_bits_le(b),
{
    let mut r: Vec<bool> = Vec::new();
    r.push(b & 1 == 1);
    r.push((b >> 1) & 1 == 1);
    r.push((b >> 2) & 1 == 1);
    r.push((b >> 3) & 1 == 1);
    r.push((b >> 4) & 1 == 1);
    r.push((b >> 5) & 1 == 1);
    r.push((b >> 6) & 1 == 1);
    r.push((b >> 7) & 1 == 1);
    proof {
        assert(r@ =~= byte_bits_le(b));
    }
    r
}

/// Appends the bytes of `src` to `out`.
pub fn push_bytes(out: &mut Vec<u8>, src: &Vec<u8>)
    ensures
        final(out)@ == old(out)@ + src@,
{
    let mut k: usize = 0;
    while k < src.len()
        invariant
            k <= src@.len(),
            out@ == old(out)@ + src@.take(k as int),
        decreases src@.len() - k,
    {
        out.push(src[k]);
        proof {
            assert(old(out)@ + src@.take(k as int + 1)
                =~= (old(out)@ + src@.take(k as int)).push(src@[k as int]));
        }
        k = k + 1;
    }
    proof {
        assert(src@.take(src@.len() as int) =~= src@);
    }
}

/// The bit image of a byte string.
pub fn bytes_to_bits_le(s: &Vec<u8>) -> (r: Vec<bool>)
    ensures
        r@ == bytes_bits_le(s@),
{
    let mut r: Vec<bool> = Vec::new();
    let mut i: usize = 0;
    while i < s.len()
        invariant
            i <= s@.len(),
            r@ == bytes_bits_le(s@.take(i as int)),
        decreases s@.len() - i,
    {
        let mut bs = byte_to_bits_le(s[i]);
        r.append(&mut bs);
        proof {
            let t = s@.take(i as int + 1);
            assert(t.drop_last() =~= s@.take(i as int));
            assert(t.last() == s@[i as int]);
        }
        i = i + 1;
    }
    proof {
        assert(s@.take(s@.len() as int) =~= s@);
    }
    r
}

/// The concatenation of a list of byte strings.
pub fn concat_bytes_vec(elems: &Vec<Vec<u8>>) -> (r: Vec<u8>)
    ensures
        r@ == concat_bytes(elems.deep_view()),
{
    let mut r: Vec<u8> = Vec::new();
    let mut i: usize = 0;
    while i < elems.len()
        invariant
            i <= elems@.len(),
            elems.deep_view().len() == elems@.len(),
            r@ == concat_bytes(elems.deep_view().take(i as int)),
        decreases elems@.len() - i,
    {
        push_bytes(&mut r, &elems[i]);
        proof {
            let dv = elems.deep_view();
            let t = dv.take(i as int + 1);
            assert(t.drop_last() =~= dv.take(i as int));
            assert(elems@[i as int].deep_view() =~= elems@[i as int]@);
            assert(t.last() == elems@[i as int]@);
        }
        i = i + 1;
    }
    proof {
        let dv = elems.deep_view();
        assert(dv.take(dv.len() as int) =~= dv);
    }
    r
}

/// A copy of a byte string.
pub fn clone_bytes(src: &Vec<u8>) -> (r: Vec<u8>)
    ensures
        r@ == src@,
{
    let mut r: Vec<u8> = Vec::new();
    push_bytes(&mut r, src);
    proof {
        assert(Seq::<u8>::empty() + src@ =~= src@);
    }
    r
}

/// A copy of a bit group.
pub fn clone_bits(src: &Vec<bool>) -> (r: Vec<bool>)
    ensures
        r@ == src@,
{
    let mut r: Vec<bool> = Vec::new();
    let mut k: usize = 0;
    while k < src.len()
        invariant
            k <= src@.len(),
            r@ == src@.take(k as int),
        decreases src@.len() - k,
    {
        r.push(src[k]);
        proof {
            assert(src@.take(k as int + 1) =~= src@.take(k as int).push(src@[k as int]));
        }
        k = k + 1;
    }
    proof {
        assert(src@.take(src@.len() as int) =~= src@);
    }
    r
}

/// Byte-for-byte equality of two byte strings.
pub fn bytes_equal(a: &Vec<u8>, b: &Vec<u8>) -> (r: bool)
    ensures
        r == (a@ == b@),
{
    if a.len() != b.len() {
        return false;
    }
    let mut k: usize = 0;
    while k < a.len()
        invariant
            a@.len() == b@.len(),
            k <= a@.len(),
            forall|j: int| 0 <= j < k ==> a@[j] == b@[j],
        decreases a@.len() - k,
    {
        if a[k] != b[k] {
            return false;
        }
        k = k + 1;
    }
    proof {
        assert(a@ =~= b@);
    }
    true
}

} // verus!
