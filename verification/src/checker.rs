//! Satisfiability of a built outer circuit.
//!
//! A circuit is satisfiable exactly when, under the primitives in use, the
//! inner proof verifies against the encoded input, every predicate proof
//! verifies against its tagged input, and the commitment over the ordered
//! predicate-key digests — all death digests first, then all birth digests —
//! equals the declared one. `check_outer_circuit` decides that conjunction,
//! and its verdict is proved exact for every implementation of the
//! primitives.

use vstd::prelude::*;

use crate::bits::bytes_equal;
use crate::bits::push_bytes;
use crate::circuit::OuterCircuit;
use crate::circuit::PredicateCheck;
use crate::primitives::lemma_model_commitment_sensitive;
use crate::primitives::lemma_model_rejects_substituted_key;
use crate::primitives::lemma_model_rejects_tampered_input;
use crate::primitives::single_bit_diff;
use crate::primitives::single_byte_diff;
use crate::primitives::ModelPrimitives;
use crate::primitives::OuterPrimitives;

verus! {

/// Every check in a list verifies under its own key and tagged input.
pub open spec fn checks_verify<P: OuterPrimitives>(p: &P, checks: Seq<PredicateCheck>) -> bool {
    forall|i: int|
        0 <= i < checks.len() ==> p.snark_verifies(
            (#[trigger] checks[i]).verification_key@,
            checks[i].public_input.deep_view(),
            checks[i].proof_bytes@,
        )
}

/// The concatenated digests of the verification keys of a check list, in
/// list order.
pub open spec fn vk_digests<P: OuterPrimitives>(
    p: &P,
    hash_parameters: Seq<u8>,
    checks: Seq<PredicateCheck>,
) -> Seq<u8>
    decreases checks.len(),
{
    if checks.len() == 0 {
        Seq::empty()
    } else {
        vk_digests(p, hash_parameters, checks.drop_last()) + p.hash_spec(
            hash_parameters,
            checks.last().verification_key@,
        )
    }
}

/// The bytes the binding commitment is computed over: death-key digests by
/// ascending consumed-record index, then birth-key digests by ascending
/// created-record index.
pub open spec fn commitment_input<P: OuterPrimitives>(p: &P, c: &OuterCircuit) -> Seq<u8> {
    vk_digests(p, c.vk_hash_parameters@, c.death_checks@) + vk_digests(
        p,
        c.vk_hash_parameters@,
        c.birth_checks@,
    )
}

/// The computed commitment over the ordered digests equals the declared one.
pub open spec fn commitment_holds<P: OuterPrimitives>(p: &P, c: &OuterCircuit) -> bool {
    p.commit_spec(c.vk_commitment_parameters@, c.commitment_randomness@, commitment_input(p, c))
        == c.declared_commitment@
}

/// Satisfiability of the whole circuit under the primitives in use.
pub open spec fn circuit_satisfied<P: OuterPrimitives>(p: &P, c: &OuterCircuit) -> bool {
    &&& p.snark_verifies(c.inner_verification_key@, c.verifier_input.deep_view(), c.inner_proof@)
    &&& checks_verify(p, c.death_checks@)
    &&& checks_verify(p, c.birth_checks@)
    &&& commitment_holds(p, c)
}

/// Decides the inner proof check.
pub fn check_inner_proof<P: OuterPrimitives>(p: &P, c: &OuterCircuit) -> (r: bool)
    ensures
        r == p.snark_verifies(
            c.inner_verification_key@,
            c.verifier_input.deep_view(),
            c.inner_proof@,
        ),
{
    p.snark_verify(&c.inner_verification_key, &c.verifier_input, &c.inner_proof)
}

/// Decides one check list.
fn check_list<P: OuterPrimitives>(p: &P, checks: &Vec<PredicateCheck>) -> (r: bool)
    ensures
        r == checks_verify(p, checks@),
{
    let mut i: usize = 0;
    while i < checks.len()
        invariant
            i <= checks@.len(),
            forall|k: int|
                0 <= k < i ==> p.snark_verifies(
                    (#[trigger] checks@[k]).verification_key@,
                    checks@[k].public_input.deep_view(),
                    checks@[k].proof_bytes@,
                ),
        decreases checks@.len() - i,
    {
        let check = &checks[i];
        if !p.snark_verify(&check.verification_key, &check.public_input, &check.proof_bytes) {
            return false;
        }
        i = i + 1;
    }
    true
}

/// Decides every predicate check, death then birth.
pub fn check_predicates<P: OuterPrimitives>(p: &P, c: &OuterCircuit) -> (r: bool)
    ensures
        r == (checks_verify(p, c.death_checks@) && checks_verify(p, c.birth_checks@)),
{
    let death_ok = check_list(p, &c.death_checks);
    let birth_ok = check_list(p, &c.birth_checks);
    death_ok && birth_ok
}

/// Appends the key digests of one check list, in order.
fn push_vk_digests<P: OuterPrimitives>(
    p: &P,
    hash_parameters: &Vec<u8>,
    checks: &Vec<PredicateCheck>,
    out: &mut Vec<u8>,
)
    ensures
        final(out)@ == old(out)@ + vk_digests(p, hash_parameters@, checks@),
{
    let mut i: usize = 0;
    while i < checks.len()
        invariant
            i <= checks@.len(),
            out@ == old(out)@ + vk_digests(p, hash_parameters@, checks@.take(i as int)),
        decreases checks@.len() - i,
    {
        let digest = p.hash(hash_parameters, &checks[i].verification_key);
        push_bytes(out, &digest);
        proof {
            let t = checks@.take(i as int + 1);
            assert(t.drop_last() =~= checks@.take(i as int));
            assert(t.last() == checks@[i as int]);
            assert(old(out)@ + vk_digests(p, hash_parameters@, t) =~= old(out)@ + vk_digests(
                p,
                hash_parameters@,
                checks@.take(i as int),
            ) + digest@);
        }
        i = i + 1;
    }
    proof {
        assert(checks@.take(checks@.len() as int) =~= checks@);
    }
}

/// The bytes the binding commitment is computed over.
pub fn compute_commitment_input<P: OuterPrimitives>(p: &P, c: &OuterCircuit) -> (r: Vec<u8>)
    ensures
        r@ == commitment_input(p, c),
{
    let mut r: Vec<u8> = Vec::new();
    push_vk_digests(p, &c.vk_hash_parameters, &c.death_checks, &mut r);
    push_vk_digests(p, &c.vk_hash_parameters, &c.birth_checks, &mut r);
    proof {
        assert(Seq::<u8>::empty() + vk_digests(p, c.vk_hash_parameters@, c.death_checks@)
            =~= vk_digests(p, c.vk_hash_parameters@, c.death_checks@));
    }
    r
}

/// Decides the commitment binding check.
pub fn check_commitment<P: OuterPrimitives>(p: &P, c: &OuterCircuit) -> (r: bool)
    ensures
        r == commitment_holds(p, c),
{
    let input = compute_commitment_input(p, c);
    let candidate = p.commit(&c.vk_commitment_parameters, &c.commitment_randomness, &input);
    bytes_equal(&candidate, &c.declared_commitment)
}

/// Flipping any single bit of any encoded public-input group, keeping the
/// same inner verification key and proof, makes the circuit unsatisfiable
/// under the model scheme.
pub proof fn lemma_tampered_input_unsatisfiable(
    p: &ModelPrimitives,
    c1: &OuterCircuit,
    c2: &OuterCircuit,
    gi: int,
    bj: int,
)
    requires
        circuit_satisfied(p, c1),
        c2.inner_verification_key@ == c1.inner_verification_key@,
        c2.inner_proof@ == c1.inner_proof@,
        single_bit_diff(c1.verifier_input.deep_view(), c2.verifier_input.deep_view(), gi, bj),
    ensures
        !circuit_satisfied(p, c2),
{
    lemma_model_rejects_tampered_input(
        p,
        c1.inner_verification_key@,
        c1.verifier_input.deep_view(),
        c2.verifier_input.deep_view(),
        c1.inner_proof@,
        gi,
        bj,
    );
}

/// For the model scheme, substituting one consumed record's verification
/// key — here by a single-byte change, with that record's proof and tagged
/// input kept — fails the predicate checks, and with them the circuit.
pub proof fn lemma_substituted_key_fails_predicates(
    p: &ModelPrimitives,
    c1: &OuterCircuit,
    c2: &OuterCircuit,
    i: int,
    j: int,
)
    requires
        circuit_satisfied(p, c1),
        0 <= i < c1.death_checks@.len(),
        c1.death_checks@.len() == c2.death_checks@.len(),
        c2.death_checks@[i].proof_bytes@ == c1.death_checks@[i].proof_bytes@,
        c2.death_checks@[i].public_input.deep_view()
            == c1.death_checks@[i].public_input.deep_view(),
        single_byte_diff(
            c1.death_checks@[i].verification_key@,
            c2.death_checks@[i].verification_key@,
            j,
        ),
    ensures
        !checks_verify(p, c2.death_checks@),
        !circuit_satisfied(p, c2),
{
    assert(p.snark_verifies(
        c1.death_checks@[i].verification_key@,
        c1.death_checks@[i].public_input.deep_view(),
        c1.death_checks@[i].proof_bytes@,
    ));
    lemma_model_rejects_substituted_key(
        p,
        c1.death_checks@[i].verification_key@,
        c2.death_checks@[i].verification_key@,
        c1.death_checks@[i].public_input.deep_view(),
        c1.death_checks@[i].proof_bytes@,
        j,
    );
}

/// For the model scheme, a single-byte change of the ordered digest bytes
/// the binding commitment is computed over fails the commitment check, and
/// with it the circuit, under the same parameters, randomness and declared
/// commitment.
pub proof fn lemma_changed_digests_fail_commitment(
    p: &ModelPrimitives,
    c1: &OuterCircuit,
    c2: &OuterCircuit,
    j: int,
)
    requires
        circuit_satisfied(p, c1),
        c2.vk_commitment_parameters@ == c1.vk_commitment_parameters@,
        c2.commitment_randomness@ == c1.commitment_randomness@,
        c2.declared_commitment@ == c1.declared_commitment@,
        single_byte_diff(commitment_input(p, c1), commitment_input(p, c2), j),
    ensures
        !commitment_holds(p, c2),
        !circuit_satisfied(p, c2),
{
    lemma_model_commitment_sensitive(
        p,
        c1.vk_commitment_parameters@,
        c1.commitment_randomness@,
        commitment_input(p, c1),
        commitment_input(p, c2),
        j,
    );
}

/// Decides satisfiability of the whole circuit: the verdict every honest and
/// dishonest witness assignment gets, with no short-circuit on bad
/// witnesses.
pub fn check_outer_circuit<P: OuterPrimitives>(p: &P, c: &OuterCircuit) -> (r: bool)
    ensures
        r == circuit_satisfied(p, c),
{
    let inner_ok = check_inner_proof(p, c);
    let predicates_ok = check_predicates(p, c);
    let commitment_ok = check_commitment(p, c);
    inner_ok && predicates_ok && commitment_ok
}

} // verus!
