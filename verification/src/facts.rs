//! The data the outer circuit is built from.
//!
//! Values that live in the inner field (scheme parameters, digests,
//! commitments, serial numbers) are opaque to this library; each arrives as
//! the list of byte images of its inner-field elements, produced by the
//! field-embedding collaborator. The library owns everything stated about
//! them: the order they are published in, the element-count contract of the
//! values that split in two, and the bit pipeline.

use vstd::prelude::*;

verus! {

/// Public parameters of every scheme in use, as inner-field element images,
/// plus the native parameters of the two schemes the outer circuit runs
/// itself (predicate-key commitment and predicate-key hash).
pub struct ParameterBundle {
    pub account_commitment_parameters: Vec<Vec<u8>>,
    pub account_signature_parameters: Vec<Vec<u8>>,
    pub record_commitment_parameters: Vec<Vec<u8>>,
    pub predicate_vk_commitment_parameters: Vec<Vec<u8>>,
    pub local_data_commitment_parameters: Vec<Vec<u8>>,
    pub serial_number_nonce_parameters: Vec<Vec<u8>>,
    pub value_commitment_parameters: Vec<Vec<u8>>,
    pub ledger_parameters: Vec<Vec<u8>>,
    /// Native parameters handed to the commitment scheme that binds the
    /// predicate verification keys.
    pub predicate_vk_commitment_scheme: Vec<u8>,
    /// Native parameters handed to the hash that digests each predicate
    /// verification key.
    pub predicate_vk_hash_scheme: Vec<u8>,
}

/// The public statement being proved: the facts of one transaction.
pub struct TransactionFacts {
    pub ledger_digest: Vec<Vec<u8>>,
    /// One entry per consumed record, in record order; each splits into
    /// exactly two inner-field elements.
    pub old_serial_numbers: Vec<Vec<Vec<u8>>>,
    /// One entry per created record, in record order.
    pub new_commitments: Vec<Vec<Vec<u8>>>,
    /// The memo, embedded as exactly two inner-field elements.
    pub memo: Vec<Vec<u8>>,
    pub value_balance: i64,
    pub local_data_commitment: Vec<Vec<u8>>,
    /// The predicate-key commitment, embedded as exactly two inner-field
    /// elements, for the inner proof's public input.
    pub predicate_commitment: Vec<Vec<u8>>,
    /// The same commitment as the native output of the commitment scheme,
    /// for the binding check.
    pub predicate_commitment_bytes: Vec<u8>,
    /// The randomness the declared commitment was formed with.
    pub predicate_randomness: Vec<u8>,
}

/// The inner verification key and proof, allocated as private witnesses.
pub struct InnerProofArtifact {
    pub verification_key: Vec<u8>,
    pub proof_bytes: Vec<u8>,
}

/// One predicate's proof and verification key.
pub struct PredicateVerificationInput {
    pub verification_key: Vec<u8>,
    pub proof_bytes: Vec<u8>,
}

/// Construction-time failures. Every cryptographic check is a constraint,
/// never a branch, so the only definite failures are the ones below; all
/// semantic failures surface later as unsatisfiability.
#[derive(Clone, Copy, Debug, PartialEq, Eq, Structural)]
pub enum CircuitError {
    /// Fewer (or more) predicate inputs than declared record counts.
    CountMismatch,
    /// A value that must split into exactly two inner-field elements does
    /// not, or a record count does not fit the one-byte positional tag.
    MalformedFacts,
    /// The one balance whose magnitude overflows its own width.
    BalanceOverflow,
}

/// The element-count contract of the statement: the values that split into
/// two inner-field elements hold exactly two, and record counts fit the
/// one-byte positional tag.
pub open spec fn facts_well_formed(params: &ParameterBundle, facts: &TransactionFacts) -> bool {
    &&& params.account_signature_parameters@.len() == 2
    &&& facts.predicate_commitment@.len() == 2
    &&& facts.memo@.len() == 2
    &&& facts.old_serial_numbers@.len() < 256
    &&& facts.new_commitments@.len() < 256
    &&& forall|i: int|
        0 <= i < facts.old_serial_numbers@.len() ==> (#[trigger] facts.old_serial_numbers@[i])@.len()
            == 2
}

/// Decides the element-count contract.
pub fn check_well_formed(params: &ParameterBundle, facts: &TransactionFacts) -> (r: bool)
    ensures
        r == facts_well_formed(params, facts),
{
    if params.account_signature_parameters.len() != 2 {
        return false;
    }
    if facts.predicate_commitment.len() != 2 {
        return false;
    }
    if facts.memo.len() != 2 {
        return false;
    }
    if facts.old_serial_numbers.len() >= 256 {
        return false;
    }
    if facts.new_commitments.len() >= 256 {
        return false;
    }
    let mut i: usize = 0;
    while i < facts.old_serial_numbers.len()
        invariant
            i <= facts.old_serial_numbers@.len(),
            forall|j: int|
                0 <= j < i ==> (#[trigger] facts.old_serial_numbers@[j])@.len() == 2,
        decreases facts.old_serial_numbers@.len() - i,
    {
        if facts.old_serial_numbers[i].len() != 2 {
            return false;
        }
        i = i + 1;
    }
    true
}

} // verus!
