//! The outer circuit description.
//!
//! `build_outer_circuit` is the one operation the library exposes to its
//! caller: from the public statement, the inner proof artifact and the
//! predicate verification inputs it builds the checks the outer circuit
//! enforces, or reports a construction-time failure. Every semantic check is
//! recorded as data, never decided here: the inner proof check over the
//! encoded input, one positionally tagged check per consumed and per created
//! record, and the binding of the predicate-key digests — all death digests
//! by ascending consumed-record index, then all birth digests by ascending
//! created-record index — to the declared commitment.

use vstd::prelude::*;

use crate::bits::byte_bits_le;
use crate::bits::byte_to_bits_le;
use crate::bits::clone_bits;
use crate::bits::clone_bytes;
use crate::bits::nonempty_groups;
use crate::bits::push_group;
use crate::encoder::build_input_groups;
use crate::encoder::filter_nonempty_groups;
use crate::encoder::single_group;
use crate::encoder::single_group_vec;
use crate::encoder::verifier_input_groups;
use crate::facts::facts_well_formed;
use crate::facts::CircuitError;
use crate::facts::InnerProofArtifact;
use crate::facts::ParameterBundle;
use crate::facts::PredicateVerificationInput;
use crate::facts::TransactionFacts;

verus! {

/// One predicate check: a proof verified under a key against the positional
/// tag followed by the shared local-data input.
pub struct PredicateCheck {
    pub tag_index: u8,
    pub verification_key: Vec<u8>,
    pub proof_bytes: Vec<u8>,
    pub public_input: Vec<Vec<bool>>,
}

/// Everything the outer circuit enforces, as data.
pub struct OuterCircuit {
    /// The non-empty encoded public-input groups the inner proof is checked
    /// against.
    pub verifier_input: Vec<Vec<bool>>,
    pub inner_verification_key: Vec<u8>,
    pub inner_proof: Vec<u8>,
    /// One check per consumed record, in ascending record order.
    pub death_checks: Vec<PredicateCheck>,
    /// One check per created record, in ascending record order.
    pub birth_checks: Vec<PredicateCheck>,
    /// Native parameters of the hash that digests each verification key.
    pub vk_hash_parameters: Vec<u8>,
    /// Native parameters of the commitment over the concatenated digests.
    pub vk_commitment_parameters: Vec<u8>,
    pub commitment_randomness: Vec<u8>,
    pub declared_commitment: Vec<u8>,
}

/// The local-data input shared by every predicate of one transaction: the
/// local-data commitment parameters, then the local-data commitment.
pub open spec fn local_data_groups(params: &ParameterBundle, facts: &TransactionFacts) -> Seq<
    Seq<bool>,
> {
    seq![
        single_group(params.local_data_commitment_parameters.deep_view()),
        single_group(facts.local_data_commitment.deep_view()),
    ]
}

/// The public input of one predicate check: its one-byte positional tag as
/// bits, then the non-empty local-data groups.
pub open spec fn predicate_input_groups(
    tag: u8,
    params: &ParameterBundle,
    facts: &TransactionFacts,
) -> Seq<Seq<bool>> {
    seq![byte_bits_le(tag)] + nonempty_groups(local_data_groups(params, facts))
}

/// One built check carries the record's own index as tag, that record's
/// proof and key, and the tagged shared input.
pub open spec fn check_matches(
    check: PredicateCheck,
    input: PredicateVerificationInput,
    index: int,
    params: &ParameterBundle,
    facts: &TransactionFacts,
) -> bool {
    &&& check.tag_index == index
    &&& check.verification_key@ == input.verification_key@
    &&& check.proof_bytes@ == input.proof_bytes@
    &&& check.public_input.deep_view() == predicate_input_groups(index as u8, params, facts)
}

/// A built check list covers its inputs one for one, in order.
pub open spec fn checks_match(
    checks: Seq<PredicateCheck>,
    inputs: Seq<PredicateVerificationInput>,
    params: &ParameterBundle,
    facts: &TransactionFacts,
) -> bool {
    &&& checks.len() == inputs.len()
    &&& forall|i: int|
        0 <= i < checks.len() ==> check_matches(#[trigger] checks[i], inputs[i], i, params, facts)
}

/// What a successfully built circuit holds.
pub open spec fn circuit_matches(
    c: &OuterCircuit,
    params: &ParameterBundle,
    facts: &TransactionFacts,
    inner: &InnerProofArtifact,
    death_inputs: Seq<PredicateVerificationInput>,
    birth_inputs: Seq<PredicateVerificationInput>,
) -> bool {
    &&& c.verifier_input.deep_view() == verifier_input_groups(params, facts)
    &&& c.inner_verification_key@ == inner.verification_key@
    &&& c.inner_proof@ == inner.proof_bytes@
    &&& checks_match(c.death_checks@, death_inputs, params, facts)
    &&& checks_match(c.birth_checks@, birth_inputs, params, facts)
    &&& c.vk_hash_parameters@ == params.predicate_vk_hash_scheme@
    &&& c.vk_commitment_parameters@ == params.predicate_vk_commitment_scheme@
    &&& c.commitment_randomness@ == facts.predicate_randomness@
    &&& c.declared_commitment@ == facts.predicate_commitment_bytes@
}

/// The declared record counts are covered exactly.
pub open spec fn counts_consistent(
    facts: &TransactionFacts,
    death_inputs: Seq<PredicateVerificationInput>,
    birth_inputs: Seq<PredicateVerificationInput>,
) -> bool {
    &&& death_inputs.len() == facts.old_serial_numbers@.len()
    &&& birth_inputs.len() == facts.new_commitments@.len()
}

/// Builds one predicate check from its tag and input and the two shared
/// local-data bit groups.
fn build_predicate_check(
    tag: u8,
    input: &PredicateVerificationInput,
    ld_params_bits: &Vec<bool>,
    ld_comm_bits: &Vec<bool>,
) -> (r: PredicateCheck)
    ensures
        r.tag_index == tag,
        r.verification_key@ == input.verification_key@,
        r.proof_bytes@ == input.proof_bytes@,
        r.public_input.deep_view() == seq![byte_bits_le(tag)] + nonempty_groups(
            seq![ld_params_bits@, ld_comm_bits@],
        ),
{
    let mut public_input: Vec<Vec<bool>> = Vec::new();
    push_group(&mut public_input, byte_to_bits_le(tag));
    if ld_params_bits.len() > 0 {
        push_group(&mut public_input, clone_bits(ld_params_bits));
    }
    if ld_comm_bits.len() > 0 {
        push_group(&mut public_input, clone_bits(ld_comm_bits));
    }
    proof {
        let e0 = Seq::<Seq<bool>>::empty();
        let lg = seq![ld_params_bits@, ld_comm_bits@];
        let l1 = seq![ld_params_bits@];
        assert(lg.drop_last() =~= l1);
        assert(l1.drop_last() =~= e0);
        assert(lg.last() == ld_comm_bits@);
        assert(l1.last() == ld_params_bits@);
        assert(nonempty_groups(e0) == e0);
        assert(nonempty_groups(l1) == (if ld_params_bits@.len() > 0 {
            e0.push(ld_params_bits@)
        } else {
            e0
        }));
        assert(nonempty_groups(lg) == (if ld_comm_bits@.len() > 0 {
            nonempty_groups(l1).push(ld_comm_bits@)
        } else {
            nonempty_groups(l1)
        }));
        assert(public_input.deep_view() =~= seq![byte_bits_le(tag)] + nonempty_groups(lg));
    }
    PredicateCheck {
        tag_index: tag,
        verification_key: clone_bytes(&input.verification_key),
        proof_bytes: clone_bytes(&input.proof_bytes),
        public_input,
    }
}

/// Constructs the outer circuit for one transaction-proof attempt, or
/// reports the construction-time failure: a count mismatch between the
/// predicate inputs and the declared record counts, a statement that breaks
/// the element-count contract, or the one unencodable balance.
pub fn build_outer_circuit(
    params: &ParameterBundle,
    facts: &TransactionFacts,
    inner: &InnerProofArtifact,
    death_inputs: &Vec<PredicateVerificationInput>,
    birth_inputs: &Vec<PredicateVerificationInput>,
) -> (r: Result<OuterCircuit, CircuitError>)
    ensures
        (r is Ok) <==> (counts_consistent(facts, death_inputs@, birth_inputs@)
            && facts_well_formed(params, facts) && facts.value_balance != i64::MIN),
        r matches Ok(c) ==> circuit_matches(&c, params, facts, inner, death_inputs@, birth_inputs@),
        r matches Err(e) ==> ((e == CircuitError::CountMismatch) <==> !counts_consistent(
            facts,
            death_inputs@,
            birth_inputs@,
        )),
        r matches Err(e) ==> ((e == CircuitError::MalformedFacts) <==> (counts_consistent(
            facts,
            death_inputs@,
            birth_inputs@,
        ) && !facts_well_formed(params, facts))),
        r matches Err(e) ==> ((e == CircuitError::BalanceOverflow) <==> (counts_consistent(
            facts,
            death_inputs@,
            birth_inputs@,
        ) && facts_well_formed(params, facts) && facts.value_balance == i64::MIN)),
{
    if death_inputs.len() != facts.old_serial_numbers.len() || birth_inputs.len()
        != facts.new_commitments.len() {
        return Err(CircuitError::CountMismatch);
    }
    let groups = match build_input_groups(params, facts) {
        Ok(groups) => groups,
        Err(e) => {
            return Err(e);
        },
    };
    let verifier_input = filter_nonempty_groups(&groups);
    let ld_params_bits = single_group_vec(&params.local_data_commitment_parameters);
    let ld_comm_bits = single_group_vec(&facts.local_data_commitment);
    proof {
        assert(seq![ld_params_bits@, ld_comm_bits@] =~= local_data_groups(params, facts));
    }
    let mut death_checks: Vec<PredicateCheck> = Vec::new();
    let mut i: usize = 0;
    while i < death_inputs.len()
        invariant
            i <= death_inputs@.len(),
            death_inputs@.len() == facts.old_serial_numbers@.len(),
            facts_well_formed(params, facts),
            ld_params_bits@ == local_data_groups(params, facts)[0],
            ld_comm_bits@ == local_data_groups(params, facts)[1],
            seq![ld_params_bits@, ld_comm_bits@] == local_data_groups(params, facts),
            death_checks@.len() == i,
            forall|k: int|
                0 <= k < i ==> check_matches(
                    #[trigger] death_checks@[k],
                    death_inputs@[k],
                    k,
                    params,
                    facts,
                ),
        decreases death_inputs@.len() - i,
    {
        let check = build_predicate_check(i as u8, &death_inputs[i], &ld_params_bits, &ld_comm_bits);
        death_checks.push(check);
        i = i + 1;
    }
    let mut birth_checks: Vec<PredicateCheck> = Vec::new();
    let mut j: usize = 0;
    while j < birth_inputs.len()
        invariant
            j <= birth_inputs@.len(),
            birth_inputs@.len() == facts.new_commitments@.len(),
            facts_well_formed(params, facts),
            seq![ld_params_bits@, ld_comm_bits@] == local_data_groups(params, facts),
            birth_checks@.len() == j,
            forall|k: int|
                0 <= k < j ==> check_matches(
                    #[trigger] birth_checks@[k],
                    birth_inputs@[k],
                    k,
                    params,
                    facts,
                ),
        decreases birth_inputs@.len() - j,
    {
        let check = build_predicate_check(j as u8, &birth_inputs[j], &ld_params_bits, &ld_comm_bits);
        birth_checks.push(check);
        j = j + 1;
    }
    Ok(
        OuterCircuit {
            verifier_input,
            inner_verification_key: clone_bytes(&inner.verification_key),
            inner_proof: clone_bytes(&inner.proof_bytes),
            death_checks,
            birth_checks,
            vk_hash_parameters: clone_bytes(&params.predicate_vk_hash_scheme),
            vk_commitment_parameters: clone_bytes(&params.predicate_vk_commitment_scheme),
            commitment_randomness: clone_bytes(&facts.predicate_randomness),
            declared_commitment: clone_bytes(&facts.predicate_commitment_bytes),
        },
    )
}

} // verus!
