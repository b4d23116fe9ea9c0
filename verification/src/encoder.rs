//! Cross-field input encoder.
//!
//! Produces, for every public input the inner circuit declared, the bit image
//! the outer circuit sees, in the exact order the inner circuit used. The
//! order is a bit-exact compatibility contract with the circuit that produced
//! the inner proof; `all_input_groups` states it once, and the executable
//! encoder is proved against it.

use vstd::prelude::*;

use crate::balance::balance_magnitude;
use crate::balance::encode_value_balance;
use crate::balance::sign_byte;
use crate::balance::u64_le_bytes;
use crate::bits::byte_bits_le;
use crate::bits::byte_to_bits_le;
use crate::bits::bytes_bits_le;
use crate::bits::bytes_to_bits_le;
use crate::bits::clone_bits;
use crate::bits::concat_bytes;
use crate::bits::concat_bytes_vec;
use crate::bits::lemma_bits_deep_view;
use crate::bits::nonempty_groups;
use crate::bits::push_group;
use crate::facts::check_well_formed;
use crate::facts::facts_well_formed;
use crate::facts::CircuitError;
use crate::facts::ParameterBundle;
use crate::facts::TransactionFacts;

verus! {

/// The single bit group of a value: the bits of its concatenated element
/// images.
pub open spec fn single_group(elems: Seq<Seq<u8>>) -> Seq<bool> {
    bytes_bits_le(concat_bytes(elems))
}

/// The leading groups, fixed for every transaction shape: the scheme
/// parameters in publication order, then the ledger digest. The signature
/// parameters publish as two groups, element by element.
pub open spec fn head_groups(params: &ParameterBundle, facts: &TransactionFacts) -> Seq<
    Seq<bool>,
> {
    seq![
        single_group(params.account_commitment_parameters.deep_view()),
        bytes_bits_le(params.account_signature_parameters@[0]@),
        bytes_bits_le(params.account_signature_parameters@[1]@),
        single_group(params.record_commitment_parameters.deep_view()),
        single_group(params.predicate_vk_commitment_parameters.deep_view()),
        single_group(params.local_data_commitment_parameters.deep_view()),
        single_group(params.serial_number_nonce_parameters.deep_view()),
        single_group(params.value_commitment_parameters.deep_view()),
        single_group(params.ledger_parameters.deep_view()),
        single_group(facts.ledger_digest.deep_view()),
    ]
}

/// Two groups per consumed record, element by element, in record order.
pub open spec fn serial_number_groups(sns: Seq<Vec<Vec<u8>>>) -> Seq<Seq<bool>>
    decreases sns.len(),
{
    if sns.len() == 0 {
        Seq::empty()
    } else {
        serial_number_groups(sns.drop_last())
            + seq![bytes_bits_le(sns.last()@[0]@), bytes_bits_le(sns.last()@[1]@)]
    }
}

/// One group per created record, in record order.
pub open spec fn commitment_groups(cms: Seq<Vec<Vec<u8>>>) -> Seq<Seq<bool>>
    decreases cms.len(),
{
    if cms.len() == 0 {
        Seq::empty()
    } else {
        commitment_groups(cms.drop_last()).push(single_group(cms.last().deep_view()))
    }
}

/// The closing groups: predicate commitment and memo element by element,
/// local-data commitment, then the balance magnitude and the sign flag.
pub open spec fn tail_groups(facts: &TransactionFacts) -> Seq<Seq<bool>> {
    seq![
        bytes_bits_le(facts.predicate_commitment@[0]@),
        bytes_bits_le(facts.predicate_commitment@[1]@),
        bytes_bits_le(facts.memo@[0]@),
        bytes_bits_le(facts.memo@[1]@),
        single_group(facts.local_data_commitment.deep_view()),
        bytes_bits_le(u64_le_bytes(balance_magnitude(facts.value_balance))),
        byte_bits_le(sign_byte(facts.value_balance)),
    ]
}

/// Every encoded public-input group of the inner proof, in publication
/// order.
pub open spec fn all_input_groups(params: &ParameterBundle, facts: &TransactionFacts) -> Seq<
    Seq<bool>,
> {
    head_groups(params, facts) + serial_number_groups(facts.old_serial_numbers@)
        + commitment_groups(facts.new_commitments@) + tail_groups(facts)
}

/// What the in-circuit verifier consumes: the encoded groups with empty
/// groups dropped, since its public-input consumption is input by input and
/// an empty group carries no information.
pub open spec fn verifier_input_groups(params: &ParameterBundle, facts: &TransactionFacts) -> Seq<
    Seq<bool>,
> {
    nonempty_groups(all_input_groups(params, facts))
}

/// Any two encodings of the same statement are bit-for-bit identical:
/// the ordered groups are a function of the facts alone.
pub proof fn lemma_encoding_deterministic(
    params: &ParameterBundle,
    facts: &TransactionFacts,
    first: Seq<Seq<bool>>,
    second: Seq<Seq<bool>>,
)
    requires
        first == all_input_groups(params, facts),
        second == all_input_groups(params, facts),
    ensures
        first == second,
{
}

/// The single bit group of a value.
pub fn single_group_vec(elems: &Vec<Vec<u8>>) -> (r: Vec<bool>)
    ensures
        r@ == single_group(elems.deep_view()),
{
    let cat = concat_bytes_vec(elems);
    bytes_to_bits_le(&cat)
}

/// Encodes the statement into its ordered public-input bit groups.
pub fn build_input_groups(params: &ParameterBundle, facts: &TransactionFacts) -> (r: Result<
    Vec<Vec<bool>>,
    CircuitError,
>)
    ensures
        (r is Ok) <==> (facts_well_formed(params, facts) && facts.value_balance != i64::MIN),
        r matches Ok(groups) ==> groups.deep_view() == all_input_groups(params, facts),
        r matches Err(e) ==> ((e == CircuitError::MalformedFacts) <==> !facts_well_formed(
            params,
            facts,
        )),
        r matches Err(e) ==> ((e == CircuitError::BalanceOverflow) <==> (facts_well_formed(
            params,
            facts,
        ) && facts.value_balance == i64::MIN)),
{
    if !check_well_formed(params, facts) {
        return Err(CircuitError::MalformedFacts);
    }
    if facts.value_balance == i64::MIN {
        return Err(CircuitError::BalanceOverflow);
    }
    let mut groups: Vec<Vec<bool>> = Vec::new();
    push_group(&mut groups, single_group_vec(&params.account_commitment_parameters));
    push_group(&mut groups, bytes_to_bits_le(&params.account_signature_parameters[0]));
    push_group(&mut groups, bytes_to_bits_le(&params.account_signature_parameters[1]));
    push_group(&mut groups, single_group_vec(&params.record_commitment_parameters));
    push_group(&mut groups, single_group_vec(&params.predicate_vk_commitment_parameters));
    push_group(&mut groups, single_group_vec(&params.local_data_commitment_parameters));
    push_group(&mut groups, single_group_vec(&params.serial_number_nonce_parameters));
    push_group(&mut groups, single_group_vec(&params.value_commitment_parameters));
    push_group(&mut groups, single_group_vec(&params.ledger_parameters));
    push_group(&mut groups, single_group_vec(&facts.ledger_digest));
    proof {
        assert(groups.deep_view() =~= head_groups(params, facts));
    }
    let mut i: usize = 0;
    while i < facts.old_serial_numbers.len()
        invariant
            i <= facts.old_serial_numbers@.len(),
            facts_well_formed(params, facts),
            groups.deep_view() == head_groups(params, facts) + serial_number_groups(
                facts.old_serial_numbers@.take(i as int),
            ),
        decreases facts.old_serial_numbers@.len() - i,
    {
        let sn = &facts.old_serial_numbers[i];
        push_group(&mut groups, bytes_to_bits_le(&sn[0]));
        push_group(&mut groups, bytes_to_bits_le(&sn[1]));
        proof {
            let t = facts.old_serial_numbers@.take(i as int + 1);
            assert(t.drop_last() =~= facts.old_serial_numbers@.take(i as int));
            assert(t.last() == facts.old_serial_numbers@[i as int]);
            assert(groups.deep_view() =~= head_groups(params, facts) + serial_number_groups(t));
        }
        i = i + 1;
    }
    proof {
        assert(facts.old_serial_numbers@.take(facts.old_serial_numbers@.len() as int)
            =~= facts.old_serial_numbers@);
    }
    let mut j: usize = 0;
    while j < facts.new_commitments.len()
        invariant
            j <= facts.new_commitments@.len(),
            facts_well_formed(params, facts),
            groups.deep_view() == head_groups(params, facts) + serial_number_groups(
                facts.old_serial_numbers@,
            ) + commitment_groups(facts.new_commitments@.take(j as int)),
        decreases facts.new_commitments@.len() - j,
    {
        push_group(&mut groups, single_group_vec(&facts.new_commitments[j]));
        proof {
            let t = facts.new_commitments@.take(j as int + 1);
            assert(t.drop_last() =~= facts.new_commitments@.take(j as int));
            assert(t.last() == facts.new_commitments@[j as int]);
            assert(groups.deep_view() =~= head_groups(params, facts) + serial_number_groups(
                facts.old_serial_numbers@,
            ) + commitment_groups(t));
        }
        j = j + 1;
    }
    proof {
        assert(facts.new_commitments@.take(facts.new_commitments@.len() as int)
            =~= facts.new_commitments@);
    }
    push_group(&mut groups, bytes_to_bits_le(&facts.predicate_commitment[0]));
    push_group(&mut groups, bytes_to_bits_le(&facts.predicate_commitment[1]));
    push_group(&mut groups, bytes_to_bits_le(&facts.memo[0]));
    push_group(&mut groups, bytes_to_bits_le(&facts.memo[1]));
    push_group(&mut groups, single_group_vec(&facts.local_data_commitment));
    let (magnitude, sign) = encode_value_balance(facts.value_balance);
    push_group(&mut groups, bytes_to_bits_le(&magnitude));
    push_group(&mut groups, byte_to_bits_le(sign));
    proof {
        assert(groups.deep_view() =~= all_input_groups(params, facts));
    }
    Ok(groups)
}

/// Drops the empty groups, keeping order.
pub fn filter_nonempty_groups(groups: &Vec<Vec<bool>>) -> (r: Vec<Vec<bool>>)
    ensures
        r.deep_view() == nonempty_groups(groups.deep_view()),
{
    let mut r: Vec<Vec<bool>> = Vec::new();
    let mut i: usize = 0;
    while i < groups.len()
        invariant
            i <= groups@.len(),
            groups.deep_view().len() == groups@.len(),
            r.deep_view() == nonempty_groups(groups.deep_view().take(i as int)),
        decreases groups@.len() - i,
    {
        proof {
            let dv = groups.deep_view();
            let t = dv.take(i as int + 1);
            assert(t.drop_last() =~= dv.take(i as int));
            lemma_bits_deep_view(&groups[i as int]);
            assert(t.last() == groups@[i as int]@);
        }
        if groups[i].len() > 0 {
            push_group(&mut r, clone_bits(&groups[i]));
        }
        i = i + 1;
    }
    proof {
        let dv = groups.deep_view();
        assert(dv.take(dv.len() as int) =~= dv);
    }
    r
}

} // verus!
