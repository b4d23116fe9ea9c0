use outer_circuit::balance::decode_value_balance;
use outer_circuit::balance::encode_value_balance;
use outer_circuit::bits::byte_to_bits_le;
use outer_circuit::bits::bytes_to_bits_le;
use outer_circuit::checker::check_commitment;
use outer_circuit::checker::check_inner_proof;
use outer_circuit::checker::check_outer_circuit;
use outer_circuit::checker::check_predicates;
use outer_circuit::checker::compute_commitment_input;
use outer_circuit::circuit::build_outer_circuit;
use outer_circuit::circuit::OuterCircuit;
use outer_circuit::encoder::build_input_groups;
use outer_circuit::encoder::filter_nonempty_groups;
use outer_circuit::facts::CircuitError;
use outer_circuit::facts::InnerProofArtifact;
use outer_circuit::facts::ParameterBundle;
use outer_circuit::facts::PredicateVerificationInput;
use outer_circuit::facts::TransactionFacts;
use outer_circuit::primitives::ModelPrimitives;
use outer_circuit::primitives::OuterPrimitives;

fn sample_params() -> ParameterBundle {
    ParameterBundle {
        account_commitment_parameters: vec![vec![10, 11]],
        account_signature_parameters: vec![vec![20, 21], vec![22, 23]],
        record_commitment_parameters: vec![vec![30]],
        predicate_vk_commitment_parameters: vec![vec![40, 41, 42]],
        local_data_commitment_parameters: vec![vec![50], vec![51]],
        serial_number_nonce_parameters: vec![vec![60]],
        value_commitment_parameters: vec![vec![70]],
        ledger_parameters: vec![vec![80, 81]],
        predicate_vk_commitment_scheme: vec![90, 91],
        predicate_vk_hash_scheme: vec![92, 93],
    }
}

fn sample_facts(value_balance: i64) -> TransactionFacts {
    TransactionFacts {
        ledger_digest: vec![vec![1, 2, 3]],
        old_serial_numbers: vec![
            vec![vec![101], vec![102]],
            vec![vec![103], vec![104]],
        ],
        new_commitments: vec![vec![vec![111, 112]], vec![vec![113, 114]]],
        memo: vec![vec![121], vec![122]],
        value_balance,
        local_data_commitment: vec![vec![131, 132]],
        predicate_commitment: vec![vec![141], vec![142]],
        predicate_commitment_bytes: vec![0; 8],
        predicate_randomness: vec![7, 8, 9],
    }
}

fn predicate_inputs(first_key_byte: u8, count: usize) -> Vec<PredicateVerificationInput> {
    let mut inputs = Vec::new();
    for i in 0..count {
        inputs.push(PredicateVerificationInput {
            verification_key: vec![first_key_byte + i as u8, 200],
            proof_bytes: vec![0; 8],
        });
    }
    inputs
}

/// Builds a fully consistent satisfiable circuit: valid inner proof, valid
/// predicate proofs, and a declared commitment over the ordered key digests.
fn satisfiable_circuit() -> OuterCircuit {
    let p = ModelPrimitives;
    let params = sample_params();
    let mut facts = sample_facts(-42);
    let inner = InnerProofArtifact {
        verification_key: vec![151, 152, 153],
        proof_bytes: vec![0; 8],
    };
    let mut death = predicate_inputs(1, 2);
    let mut birth = predicate_inputs(51, 2);

    let draft = build_outer_circuit(&params, &facts, &inner, &death, &birth).unwrap();
    let inner_proof = p.prove(&draft.inner_verification_key, &draft.verifier_input);
    for i in 0..death.len() {
        death[i].proof_bytes =
            p.prove(&death[i].verification_key, &draft.death_checks[i].public_input);
    }
    for j in 0..birth.len() {
        birth[j].proof_bytes =
            p.prove(&birth[j].verification_key, &draft.birth_checks[j].public_input);
    }
    let commitment_input = compute_commitment_input(&p, &draft);
    facts.predicate_commitment_bytes = p.commit(
        &params.predicate_vk_commitment_scheme,
        &facts.predicate_randomness,
        &commitment_input,
    );
    let inner = InnerProofArtifact {
        verification_key: inner.verification_key.clone(),
        proof_bytes: inner_proof,
    };
    build_outer_circuit(&params, &facts, &inner, &death, &birth).unwrap()
}

#[test]
fn encoder_is_deterministic() {
    let params = sample_params();
    let facts = sample_facts(17);
    let first = build_input_groups(&params, &facts).unwrap();
    let second = build_input_groups(&params, &facts).unwrap();
    assert_eq!(first, second);
}

#[test]
fn encoder_group_order_is_fixed() {
    let params = sample_params();
    let facts = sample_facts(5);
    let groups = build_input_groups(&params, &facts).unwrap();
    // 10 leading groups, 2 per serial number, 1 per new commitment, 7 closing.
    assert_eq!(groups.len(), 10 + 4 + 2 + 7);
    assert_eq!(groups[1], bytes_to_bits_le(&vec![20, 21]));
    assert_eq!(groups[2], bytes_to_bits_le(&vec![22, 23]));
    // First serial number publishes element by element.
    assert_eq!(groups[10], bytes_to_bits_le(&vec![101]));
    assert_eq!(groups[11], bytes_to_bits_le(&vec![102]));
    // A created record's commitment publishes as one concatenated group.
    assert_eq!(groups[14], bytes_to_bits_le(&vec![111, 112]));
    // Magnitude of 5, little endian, then the zero sign flag.
    assert_eq!(groups[21], bytes_to_bits_le(&vec![5, 0, 0, 0, 0, 0, 0, 0]));
    assert_eq!(groups[22], byte_to_bits_le(0));
}

#[test]
fn empty_groups_are_filtered_for_the_verifier() {
    let mut params = sample_params();
    params.account_commitment_parameters = vec![];
    let facts = sample_facts(5);
    let groups = build_input_groups(&params, &facts).unwrap();
    assert_eq!(groups[0].len(), 0);
    let filtered = filter_nonempty_groups(&groups);
    assert_eq!(filtered.len(), groups.len() - 1);
    assert_eq!(filtered[0], bytes_to_bits_le(&vec![20, 21]));
}

#[test]
fn byte_bits_are_little_endian() {
    assert_eq!(
        byte_to_bits_le(0xa5),
        vec![true, false, true, false, false, true, false, true]
    );
    assert_eq!(byte_to_bits_le(0), vec![false; 8]);
}

#[test]
fn balance_roundtrip_small_positive() {
    let (magnitude, sign) = encode_value_balance(5);
    assert_eq!(magnitude, vec![5, 0, 0, 0, 0, 0, 0, 0]);
    assert_eq!(sign, 0);
    assert_eq!(decode_value_balance(&magnitude, sign), 5);
}

#[test]
fn balance_roundtrip_small_negative() {
    let (magnitude, sign) = encode_value_balance(-5);
    assert_eq!(magnitude, vec![5, 0, 0, 0, 0, 0, 0, 0]);
    assert_eq!(sign, 1);
    assert_eq!(decode_value_balance(&magnitude, sign), -5);
}

#[test]
fn balance_roundtrip_zero() {
    let (magnitude, sign) = encode_value_balance(0);
    assert_eq!(magnitude, vec![0; 8]);
    assert_eq!(sign, 0);
    assert_eq!(decode_value_balance(&magnitude, sign), 0);
}

#[test]
fn balance_roundtrip_most_negative_encodable() {
    let v = i64::MIN + 1;
    let (magnitude, sign) = encode_value_balance(v);
    assert_eq!(magnitude, vec![255, 255, 255, 255, 255, 255, 255, 127]);
    assert_eq!(sign, 1);
    assert_eq!(decode_value_balance(&magnitude, sign), v);
}

#[test]
fn unencodable_balance_is_rejected_at_construction() {
    let params = sample_params();
    let facts = sample_facts(i64::MIN);
    let r = build_input_groups(&params, &facts);
    assert!(matches!(r, Err(CircuitError::BalanceOverflow)));
}

#[test]
fn malformed_memo_is_rejected_at_construction() {
    let params = sample_params();
    let mut facts = sample_facts(1);
    facts.memo = vec![vec![121]];
    let r = build_input_groups(&params, &facts);
    assert!(matches!(r, Err(CircuitError::MalformedFacts)));
}

#[test]
fn missing_predicate_inputs_are_rejected_at_construction() {
    let params = sample_params();
    let facts = sample_facts(3);
    let inner = InnerProofArtifact {
        verification_key: vec![151],
        proof_bytes: vec![0; 8],
    };
    let death = predicate_inputs(1, 1);
    let birth = predicate_inputs(51, 2);
    let r = build_outer_circuit(&params, &facts, &inner, &death, &birth);
    assert!(matches!(r, Err(CircuitError::CountMismatch)));
}

#[test]
fn surplus_predicate_inputs_are_rejected_at_construction() {
    let params = sample_params();
    let facts = sample_facts(3);
    let inner = InnerProofArtifact {
        verification_key: vec![151],
        proof_bytes: vec![0; 8],
    };
    let death = predicate_inputs(1, 2);
    let birth = predicate_inputs(51, 3);
    let r = build_outer_circuit(&params, &facts, &inner, &death, &birth);
    assert!(matches!(r, Err(CircuitError::CountMismatch)));
}

#[test]
fn count_mismatch_is_reported_before_malformed_facts() {
    let params = sample_params();
    let mut facts = sample_facts(3);
    facts.memo = vec![vec![121]];
    let inner = InnerProofArtifact {
        verification_key: vec![151],
        proof_bytes: vec![0; 8],
    };
    let death = predicate_inputs(1, 1);
    let birth = predicate_inputs(51, 2);
    let r = build_outer_circuit(&params, &facts, &inner, &death, &birth);
    assert!(matches!(r, Err(CircuitError::CountMismatch)));
}

#[test]
fn malformed_facts_are_reported_before_the_balance() {
    let params = sample_params();
    let mut facts = sample_facts(i64::MIN);
    facts.memo = vec![vec![121]];
    let inner = InnerProofArtifact {
        verification_key: vec![151],
        proof_bytes: vec![0; 8],
    };
    let death = predicate_inputs(1, 2);
    let birth = predicate_inputs(51, 2);
    let r = build_outer_circuit(&params, &facts, &inner, &death, &birth);
    assert!(matches!(r, Err(CircuitError::MalformedFacts)));
}

#[test]
fn positive_path_is_satisfiable() {
    let p = ModelPrimitives;
    let circuit = satisfiable_circuit();
    assert!(check_inner_proof(&p, &circuit));
    assert!(check_predicates(&p, &circuit));
    assert!(check_commitment(&p, &circuit));
    assert!(check_outer_circuit(&p, &circuit));
}

#[test]
fn tampered_input_bit_is_unsatisfiable() {
    let p = ModelPrimitives;
    let mut circuit = satisfiable_circuit();
    // Flip one bit of the ledger-digest group.
    circuit.verifier_input[9][3] = !circuit.verifier_input[9][3];
    assert!(!check_inner_proof(&p, &circuit));
    assert!(!check_outer_circuit(&p, &circuit));
}

#[test]
fn tampered_sign_flag_is_unsatisfiable() {
    let p = ModelPrimitives;
    let mut circuit = satisfiable_circuit();
    let last = circuit.verifier_input.len() - 1;
    circuit.verifier_input[last][0] = !circuit.verifier_input[last][0];
    assert!(!check_inner_proof(&p, &circuit));
    assert!(!check_outer_circuit(&p, &circuit));
}

#[test]
fn substituted_predicate_key_fails_both_checks() {
    let p = ModelPrimitives;
    let mut circuit = satisfiable_circuit();
    // Swap the verification keys of consumed records 0 and 1, keeping each
    // proof where it was.
    let vk0 = circuit.death_checks[0].verification_key.clone();
    let vk1 = circuit.death_checks[1].verification_key.clone();
    circuit.death_checks[0].verification_key = vk1;
    circuit.death_checks[1].verification_key = vk0;
    assert!(!check_predicates(&p, &circuit));
    assert!(!check_commitment(&p, &circuit));
    assert!(!check_outer_circuit(&p, &circuit));
}

#[test]
fn reordered_digest_concatenation_fails_the_commitment_check() {
    let p = ModelPrimitives;
    let mut circuit = satisfiable_circuit();
    // Commit to birth digests before death digests, contrary to the fixed
    // order, while every individual proof stays valid.
    let mut reordered_input: Vec<u8> = Vec::new();
    for check in &circuit.birth_checks {
        reordered_input.extend(p.hash(&circuit.vk_hash_parameters, &check.verification_key));
    }
    for check in &circuit.death_checks {
        reordered_input.extend(p.hash(&circuit.vk_hash_parameters, &check.verification_key));
    }
    assert_ne!(reordered_input, compute_commitment_input(&p, &circuit));
    circuit.declared_commitment = p.commit(
        &circuit.vk_commitment_parameters,
        &circuit.commitment_randomness,
        &reordered_input,
    );
    assert!(check_predicates(&p, &circuit));
    assert!(check_inner_proof(&p, &circuit));
    assert!(!check_commitment(&p, &circuit));
    assert!(!check_outer_circuit(&p, &circuit));
}

#[test]
fn predicate_inputs_carry_positional_tags() {
    let circuit = satisfiable_circuit();
    assert_eq!(circuit.death_checks[0].tag_index, 0);
    assert_eq!(circuit.death_checks[1].tag_index, 1);
    assert_eq!(circuit.birth_checks[0].tag_index, 0);
    assert_eq!(circuit.birth_checks[1].tag_index, 1);
    assert_eq!(circuit.death_checks[0].public_input[0], byte_to_bits_le(0));
    assert_eq!(circuit.death_checks[1].public_input[0], byte_to_bits_le(1));
    // Tag, local-data parameters, local-data commitment.
    assert_eq!(circuit.death_checks[0].public_input.len(), 3);
    assert_eq!(
        circuit.death_checks[0].public_input[1],
        bytes_to_bits_le(&vec![50, 51])
    );
    assert_eq!(
        circuit.death_checks[0].public_input[2],
        bytes_to_bits_le(&vec![131, 132])
    );
}

#[test]
fn model_hash_differs_from_its_input() {
    let p = ModelPrimitives;
    let parameters = vec![92, 93];
    let input = vec![1, 2, 3, 4, 5, 6, 7, 8];
    let digest = p.hash(&parameters, &input);
    assert_eq!(digest.len(), 8);
    assert_ne!(digest, input);
    assert_ne!(p.commit(&parameters, &vec![7, 8, 9], &input), digest);
}
