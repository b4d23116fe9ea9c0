//! The cryptographic capabilities the outer circuit consumes.
//!
//! The circuit does not fix a commitment scheme, a hash, or a proof system;
//! it is written against `OuterPrimitives`, so any scheme triple a caller
//! supplies an implementation for can back the checks. Each
//! executable method is pinned to the implementation's own spec function, so
//! the checker's verdict is exact for whatever implementation is plugged in.
//!
//! `ModelPrimitives` is a small deterministic implementation, verified here,
//! that exercises every check end to end.

use vstd::prelude::*;

use crate::balance::lemma_u64_le_bytes_roundtrip;
use crate::balance::u64_le_bytes;
use crate::balance::u64_to_le_bytes_vec;
use crate::bits::bytes_equal;
use crate::bits::lemma_bits_deep_view;
use crate::bits::push_bytes;

verus! {

/// A scheme triple: a collision-resistant hash, a commitment scheme, and a
/// proof-system verifier, each as a native computation. Implementations
/// define what each returns; the circuit checker is verified against those
/// definitions for every implementation.
pub trait OuterPrimitives: Sized {
    /// The digest of `input` under `parameters`.
    spec fn hash_spec(&self, parameters: Seq<u8>, input: Seq<u8>) -> Seq<u8>;

    /// The commitment to `input` under `parameters` and `randomness`.
    spec fn commit_spec(&self, parameters: Seq<u8>, randomness: Seq<u8>, input: Seq<u8>) -> Seq<
        u8,
    >;

    /// Whether `proof_bytes` is accepted for `public_input` under
    /// `verification_key`.
    spec fn snark_verifies(
        &self,
        verification_key: Seq<u8>,
        public_input: Seq<Seq<bool>>,
        proof_bytes: Seq<u8>,
    ) -> bool;

    fn hash(&self, parameters: &Vec<u8>, input: &Vec<u8>) -> (r: Vec<u8>)
        ensures
            r@ == self.hash_spec(parameters@, input@),
    ;

    fn commit(&self, parameters: &Vec<u8>, randomness: &Vec<u8>, input: &Vec<u8>) -> (r: Vec<u8>)
        ensures
            r@ == self.commit_spec(parameters@, randomness@, input@),
    ;

    fn snark_verify(
        &self,
        verification_key: &Vec<u8>,
        public_input: &Vec<Vec<bool>>,
        proof_bytes: &Vec<u8>,
    ) -> (r: bool)
        ensures
            r == self.snark_verifies(verification_key@, public_input.deep_view(), proof_bytes@),
    ;
}

/// Seed of the model hash.
pub const HASH_SEED: u64 = 0x243f6a8885a308d3;

/// Seed of the model commitment.
pub const COMMIT_SEED: u64 = 0x13198a2e03707344;

/// Seed of the model proof check.
pub const SNARK_SEED: u64 = 0xa4093822299f31d0;

/// One step of the model digest: rotate the state left by seven, fold in one
/// byte. Rotation is a bijection of the state, so any change of a single
/// input byte changes the final state.
pub open spec fn roll_step(acc: u64, b: u8) -> u64 {
    ((acc << 7) | (acc >> 57)) ^ (b as u64)
}

/// The model digest state after absorbing a byte string.
pub open spec fn digest_state(seed: u64, bytes: Seq<u8>) -> u64
    decreases bytes.len(),
{
    if bytes.len() == 0 {
        seed
    } else {
        roll_step(digest_state(seed, bytes.drop_last()), bytes.last())
    }
}

/// The model digest as eight little-endian bytes.
pub open spec fn digest_image(seed: u64, bytes: Seq<u8>) -> Seq<u8> {
    u64_le_bytes(digest_state(seed, bytes))
}

/// One byte per bit: 1 for a set bit, 0 for a clear one.
pub open spec fn bit_byte(b: bool) -> u8 {
    if b {
        1
    } else {
        0
    }
}

/// The byte image of one bit group.
pub open spec fn bits_image(bits: Seq<bool>) -> Seq<u8>
    decreases bits.len(),
{
    if bits.len() == 0 {
        Seq::empty()
    } else {
        bits_image(bits.drop_last()).push(bit_byte(bits.last()))
    }
}

/// The byte image of an ordered list of bit groups.
pub open spec fn groups_image(groups: Seq<Seq<bool>>) -> Seq<u8>
    decreases groups.len(),
{
    if groups.len() == 0 {
        Seq::empty()
    } else {
        groups_image(groups.drop_last()) + bits_image(groups.last())
    }
}

/// The model digest state of a byte string.
pub fn digest64(seed: u64, bytes: &Vec<u8>) -> (r: u64)
    ensures
        r == digest_state(seed, bytes@),
{
    let mut acc: u64 = seed;
    let mut i: usize = 0;
    while i < bytes.len()
        invariant
            i <= bytes@.len(),
            acc == digest_state(seed, bytes@.take(i as int)),
        decreases bytes@.len() - i,
    {
        acc = ((acc << 7) | (acc >> 57)) ^ (bytes[i] as u64);
        proof {
            let t = bytes@.take(i as int + 1);
            assert(t.drop_last() =~= bytes@.take(i as int));
            assert(t.last() == bytes@[i as int]);
        }
        i = i + 1;
    }
    proof {
        assert(bytes@.take(bytes@.len() as int) =~= bytes@);
    }
    acc
}

/// The model digest of a byte string.
pub fn digest_bytes(seed: u64, bytes: &Vec<u8>) -> (r: Vec<u8>)
    ensures
        r@ == digest_image(seed, bytes@),
{
    u64_to_le_bytes_vec(digest64(seed, bytes))
}

/// Appends the byte image of one bit group.
pub fn push_bits_image(out: &mut Vec<u8>, bits: &Vec<bool>)
    ensures
        final(out)@ == old(out)@ + bits_image(bits@),
{
    let mut k: usize = 0;
    while k < bits.len()
        invariant
            k <= bits@.len(),
            out@ == old(out)@ + bits_image(bits@.take(k as int)),
        decreases bits@.len() - k,
    {
        out.push(if bits[k] {
            1
        } else {
            0
        });
        proof {
            let t = bits@.take(k as int + 1);
            assert(t.drop_last() =~= bits@.take(k as int));
            assert(t.last() == bits@[k as int]);
            assert(old(out)@ + bits_image(t)
                =~= (old(out)@ + bits_image(bits@.take(k as int))).push(bit_byte(bits@[k as int])));
        }
        k = k + 1;
    }
    proof {
        assert(bits@.take(bits@.len() as int) =~= bits@);
    }
}

/// The byte image of an ordered list of bit groups.
pub fn groups_image_vec(groups: &Vec<Vec<bool>>) -> (r: Vec<u8>)
    ensures
        r@ == groups_image(groups.deep_view()),
{
    let mut r: Vec<u8> = Vec::new();
    let mut i: usize = 0;
    while i < groups.len()
        invariant
            i <= groups@.len(),
            groups.deep_view().len() == groups@.len(),
            r@ == groups_image(groups.deep_view().take(i as int)),
        decreases groups@.len() - i,
    {
        push_bits_image(&mut r, &groups[i]);
        proof {
            let dv = groups.deep_view();
            let t = dv.take(i as int + 1);
            assert(t.drop_last() =~= dv.take(i as int));
            lemma_bits_deep_view(&groups[i as int]);
            assert(t.last() == groups@[i as int]@);
        }
        i = i + 1;
    }
    proof {
        let dv = groups.deep_view();
        assert(dv.take(dv.len() as int) =~= dv);
    }
    r
}

/// The deterministic model scheme triple: digests and commitments are
/// rotate-and-fold digests over domain-separated seeds, and the proof
/// accepted for a key and input is the digest of the key followed by the
/// input's byte image.
pub struct ModelPrimitives;

impl OuterPrimitives for ModelPrimitives {
    open spec fn hash_spec(&self, parameters: Seq<u8>, input: Seq<u8>) -> Seq<u8> {
        digest_image(HASH_SEED, parameters + input)
    }

    open spec fn commit_spec(&self, parameters: Seq<u8>, randomness: Seq<u8>, input: Seq<u8>) -> Seq<
        u8,
    > {
        digest_image(COMMIT_SEED, parameters + randomness + input)
    }

    open spec fn snark_verifies(
        &self,
        verification_key: Seq<u8>,
        public_input: Seq<Seq<bool>>,
        proof_bytes: Seq<u8>,
    ) -> bool {
        proof_bytes == digest_image(SNARK_SEED, verification_key + groups_image(public_input))
    }

    fn hash(&self, parameters: &Vec<u8>, input: &Vec<u8>) -> (r: Vec<u8>) {
        let mut buf: Vec<u8> = Vec::new();
        push_bytes(&mut buf, parameters);
        push_bytes(&mut buf, input);
        digest_bytes(HASH_SEED, &buf)
    }

    fn commit(&self, parameters: &Vec<u8>, randomness: &Vec<u8>, input: &Vec<u8>) -> (r: Vec<u8>) {
        let mut buf: Vec<u8> = Vec::new();
        push_bytes(&mut buf, parameters);
        push_bytes(&mut buf, randomness);
        push_bytes(&mut buf, input);
        digest_bytes(COMMIT_SEED, &buf)
    }

    fn snark_verify(
        &self,
        verification_key: &Vec<u8>,
        public_input: &Vec<Vec<bool>>,
        proof_bytes: &Vec<u8>,
    ) -> (r: bool) {
        let expected = self.prove(verification_key, public_input);
        bytes_equal(&expected, proof_bytes)
    }
}

/// Two equal-length byte strings that differ at index `j` and nowhere else.
pub open spec fn single_byte_diff(s1: Seq<u8>, s2: Seq<u8>, j: int) -> bool {
    &&& s1.len() == s2.len()
    &&& 0 <= j < s1.len()
    &&& s1[j] != s2[j]
    &&& forall|k: int| 0 <= k < s1.len() && k != j ==> s1[k] == s2[k]
}

/// Two equal-shaped group lists that differ at bit `bj` of group `gi` and
/// nowhere else.
pub open spec fn single_bit_diff(g1: Seq<Seq<bool>>, g2: Seq<Seq<bool>>, gi: int, bj: int) -> bool {
    &&& g1.len() == g2.len()
    &&& 0 <= gi < g1.len()
    &&& g1[gi].len() == g2[gi].len()
    &&& 0 <= bj < g1[gi].len()
    &&& g1[gi][bj] != g2[gi][bj]
    &&& forall|k: int| 0 <= k < g1.len() && k != gi ==> g1[k] == g2[k]
    &&& forall|b: int| 0 <= b < g1[gi].len() && b != bj ==> g1[gi][b] == g2[gi][b]
}

proof fn lemma_roll_step_state(a1: u64, a2: u64, b: u8)
    requires
        a1 != a2,
    ensures
        roll_step(a1, b) != roll_step(a2, b),
{
    assert(a1 != a2 ==> (((a1 << 7) | (a1 >> 57)) ^ (b as u64)) != (((a2 << 7) | (a2 >> 57)) ^ (
    b as u64))) by (bit_vector);
}

proof fn lemma_roll_step_byte(a: u64, b1: u8, b2: u8)
    requires
        b1 != b2,
    ensures
        roll_step(a, b1) != roll_step(a, b2),
{
    assert(b1 != b2 ==> (((a << 7) | (a >> 57)) ^ (b1 as u64)) != (((a << 7) | (a >> 57)) ^ (
    b2 as u64))) by (bit_vector);
}

/// Changing exactly one absorbed byte changes the model digest state.
pub proof fn lemma_digest_state_single_diff(seed: u64, s1: Seq<u8>, s2: Seq<u8>, j: int)
    requires
        single_byte_diff(s1, s2, j),
    ensures
        digest_state(seed, s1) != digest_state(seed, s2),
    decreases s1.len(),
{
    if j == s1.len() - 1 {
        assert(s1.drop_last() =~= s2.drop_last());
        lemma_roll_step_byte(digest_state(seed, s1.drop_last()), s1.last(), s2.last());
    } else {
        assert(single_byte_diff(s1.drop_last(), s2.drop_last(), j));
        lemma_digest_state_single_diff(seed, s1.drop_last(), s2.drop_last(), j);
        assert(s1.last() == s2.last());
        lemma_roll_step_state(
            digest_state(seed, s1.drop_last()),
            digest_state(seed, s2.drop_last()),
            s1.last(),
        );
    }
}

/// Changing exactly one absorbed byte changes the model digest.
pub proof fn lemma_digest_image_single_diff(seed: u64, s1: Seq<u8>, s2: Seq<u8>, j: int)
    requires
        single_byte_diff(s1, s2, j),
    ensures
        digest_image(seed, s1) != digest_image(seed, s2),
{
    lemma_digest_state_single_diff(seed, s1, s2, j);
    let d1 = digest_state(seed, s1);
    let d2 = digest_state(seed, s2);
    if u64_le_bytes(d1) == u64_le_bytes(d2) {
        lemma_u64_le_bytes_roundtrip(d1);
        lemma_u64_le_bytes_roundtrip(d2);
        assert(false);
    }
}

/// The byte image of a bit group is its bits, byte for byte.
pub proof fn lemma_bits_image_index(bits: Seq<bool>)
    ensures
        bits_image(bits).len() == bits.len(),
        forall|i: int| 0 <= i < bits.len() ==> bits_image(bits)[i] == bit_byte(bits[i]),
    decreases bits.len(),
{
    if bits.len() > 0 {
        lemma_bits_image_index(bits.drop_last());
        assert forall|i: int| 0 <= i < bits.len() implies bits_image(bits)[i] == bit_byte(
            bits[i],
        ) by {
            if i < bits.len() - 1 {
                assert(bits_image(bits)[i] == bits_image(bits.drop_last())[i]);
                assert(bits.drop_last()[i] == bits[i]);
            }
        }
    }
}

/// Flipping exactly one bit of one group changes exactly one byte of the
/// combined byte image.
pub proof fn lemma_groups_image_single_diff(
    g1: Seq<Seq<bool>>,
    g2: Seq<Seq<bool>>,
    gi: int,
    bj: int,
) -> (jj: int)
    requires
        single_bit_diff(g1, g2, gi, bj),
    ensures
        single_byte_diff(groups_image(g1), groups_image(g2), jj),
    decreases g1.len(),
{
    if gi == g1.len() - 1 {
        assert(g1.drop_last() =~= g2.drop_last());
        let pre = groups_image(g1.drop_last());
        lemma_bits_image_index(g1.last());
        lemma_bits_image_index(g2.last());
        let jj = pre.len() as int + bj;
        assert(groups_image(g1)[jj] == bits_image(g1.last())[bj]);
        assert(groups_image(g2)[jj] == bits_image(g2.last())[bj]);
        assert forall|k: int|
            0 <= k < groups_image(g1).len() && k != jj implies groups_image(g1)[k]
            == groups_image(g2)[k] by {
            if k >= pre.len() {
                assert(groups_image(g1)[k] == bits_image(g1.last())[k - pre.len()]);
                assert(groups_image(g2)[k] == bits_image(g2.last())[k - pre.len()]);
                assert(g1.last()[k - pre.len()] == g2.last()[k - pre.len()]);
            }
        }
        jj
    } else {
        assert(single_bit_diff(g1.drop_last(), g2.drop_last(), gi, bj));
        let jj = lemma_groups_image_single_diff(g1.drop_last(), g2.drop_last(), gi, bj);
        assert(g1.last() == g2.last());
        jj
    }
}

/// For the model scheme, a proof accepted for one public input is rejected
/// for an input that differs from it in a single bit of a single group.
pub proof fn lemma_model_rejects_tampered_input(
    p: &ModelPrimitives,
    verification_key: Seq<u8>,
    input1: Seq<Seq<bool>>,
    input2: Seq<Seq<bool>>,
    proof_bytes: Seq<u8>,
    gi: int,
    bj: int,
)
    requires
        p.snark_verifies(verification_key, input1, proof_bytes),
        single_bit_diff(input1, input2, gi, bj),
    ensures
        !p.snark_verifies(verification_key, input2, proof_bytes),
{
    let jj = lemma_groups_image_single_diff(input1, input2, gi, bj);
    let m1 = verification_key + groups_image(input1);
    let m2 = verification_key + groups_image(input2);
    assert(single_byte_diff(m1, m2, verification_key.len() as int + jj));
    lemma_digest_image_single_diff(SNARK_SEED, m1, m2, verification_key.len() as int + jj);
}

/// For the model scheme, a proof accepted under one verification key is
/// rejected under a key that differs from it in a single byte, on the same
/// input.
pub proof fn lemma_model_rejects_substituted_key(
    p: &ModelPrimitives,
    vk1: Seq<u8>,
    vk2: Seq<u8>,
    public_input: Seq<Seq<bool>>,
    proof_bytes: Seq<u8>,
    j: int,
)
    requires
        p.snark_verifies(vk1, public_input, proof_bytes),
        single_byte_diff(vk1, vk2, j),
    ensures
        !p.snark_verifies(vk2, public_input, proof_bytes),
{
    let m1 = vk1 + groups_image(public_input);
    let m2 = vk2 + groups_image(public_input);
    assert(single_byte_diff(m1, m2, j));
    lemma_digest_image_single_diff(SNARK_SEED, m1, m2, j);
}

/// For the model scheme, commitments over byte strings that differ in a
/// single byte differ, under the same parameters and randomness.
pub proof fn lemma_model_commitment_sensitive(
    p: &ModelPrimitives,
    parameters: Seq<u8>,
    randomness: Seq<u8>,
    input1: Seq<u8>,
    input2: Seq<u8>,
    j: int,
)
    requires
        single_byte_diff(input1, input2, j),
    ensures
        p.commit_spec(parameters, randomness, input1) != p.commit_spec(
            parameters,
            randomness,
            input2,
        ),
{
    let m1 = parameters + randomness + input1;
    let m2 = parameters + randomness + input2;
    assert(single_byte_diff(m1, m2, parameters.len() + randomness.len() + j));
    lemma_digest_image_single_diff(
        COMMIT_SEED,
        m1,
        m2,
        parameters.len() + randomness.len() + j,
    );
}

impl ModelPrimitives {
    /// The one proof the model scheme accepts for a key and input.
    pub fn prove(&self, verification_key: &Vec<u8>, public_input: &Vec<Vec<bool>>) -> (r: Vec<u8>)
        ensures
            r@ == digest_image(
                SNARK_SEED,
                verification_key@ + groups_image(public_input.deep_view()),
            ),
            self.snark_verifies(verification_key@, public_input.deep_view(), r@),
    {
        let mut buf: Vec<u8> = Vec::new();
        push_bytes(&mut buf, verification_key);
        let mut image = groups_image_vec(public_input);
        buf.append(&mut image);
        digest_bytes(SNARK_SEED, &buf)
    }
}

} // verus!
