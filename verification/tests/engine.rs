use zkpassport::{
    BindEvm, BindEvmData, Blob, CommittedInputs, CompareAgeEvm, DecodeError, ExecuteError,
    StateCommitment, ZKPassport, ZKPassportAction, ZKPassportProof,
};

fn proof_for(name: &str, min_age: u8, user_address: &str) -> ZKPassportProof {
    ZKPassportProof {
        proof: "p".to_string(),
        vkey_hash: "vk".to_string(),
        name: name.to_string(),
        version: "1".to_string(),
        committed_inputs: CommittedInputs {
            compare_age_evm: CompareAgeEvm {
                current_date: "2024-01-01".to_string(),
                min_age,
                max_age: 99,
            },
            bind_evm: BindEvm {
                data: BindEvmData {
                    user_address: user_address.to_string(),
                    custom_data: "abc".to_string(),
                },
            },
        },
    }
}

fn verify(user_address: &str) -> ZKPassportAction {
    ZKPassportAction::VerifyIdentity {
        proof: proof_for("outer_evm_count_5", 18, user_address),
        hyli_identity: "id".to_string(),
    }
}

fn check(user_address: &str) -> ZKPassportAction {
    ZKPassportAction::CheckVerification { user_address: user_address.to_string() }
}

fn verify_bytes() -> Vec<u8> {
    let mut bytes = vec![0];
    bytes.extend([1, 0, 0, 0, b'p']);
    bytes.extend([2, 0, 0, 0, b'v', b'k']);
    bytes.extend([17, 0, 0, 0]);
    bytes.extend(b"outer_evm_count_5");
    bytes.extend([1, 0, 0, 0, b'1']);
    bytes.extend([10, 0, 0, 0]);
    bytes.extend(b"2024-01-01");
    bytes.push(18);
    bytes.push(99);
    bytes.extend([6, 0, 0, 0]);
    bytes.extend(b"0x1234");
    bytes.extend([3, 0, 0, 0]);
    bytes.extend(b"abc");
    bytes.extend([2, 0, 0, 0, b'i', b'd']);
    bytes
}

fn text(bytes: Vec<u8>) -> String {
    String::from_utf8(bytes).unwrap()
}

#[test]
fn check_action_is_tag_one_and_a_string() {
    let bytes = check("0x12").to_bytes().unwrap();
    assert_eq!(bytes, vec![1, 4, 0, 0, 0, b'0', b'x', b'1', b'2']);
    assert_eq!(check("").to_bytes().unwrap(), vec![1, 0, 0, 0, 0]);
}

#[test]
fn verify_action_is_tag_zero_and_fields_in_order() {
    assert_eq!(verify("0x1234").to_bytes().unwrap(), verify_bytes());
}

#[test]
fn verify_action_matches_serializer_on_plain_tuples() {
    let plain = (
        0u8,
        "p".to_string(),
        "vk".to_string(),
        "outer_evm_count_5".to_string(),
        "1".to_string(),
        ("2024-01-01".to_string(), 18u8, 99u8),
        ("0x1234".to_string(), "abc".to_string()),
        "id".to_string(),
    );
    assert_eq!(verify("0x1234").to_bytes().unwrap(), borsh::to_vec(&plain).unwrap());
}

#[test]
fn action_round_trips() {
    for action in [verify("0x1234"), verify(""), check("0x1234"), check("\u{e9}\u{1f600}")] {
        let bytes = action.to_bytes().unwrap();
        assert_eq!(ZKPassportAction::from_bytes(&bytes), Ok(action));
    }
}

#[test]
fn from_bytes_reads_fields_in_order() {
    assert_eq!(ZKPassportAction::from_bytes(&verify_bytes()), Ok(verify("0x1234")));
    assert_eq!(
        ZKPassportAction::from_bytes(&[1, 2, 0, 0, 0, b'0', b'x']),
        Ok(check("0x"))
    );
}

#[test]
fn from_bytes_rejects_empty_input() {
    assert_eq!(ZKPassportAction::from_bytes(&[]), Err(DecodeError));
}

#[test]
fn from_bytes_rejects_unknown_tag() {
    assert_eq!(ZKPassportAction::from_bytes(&[2, 0, 0, 0, 0]), Err(DecodeError));
    assert_eq!(ZKPassportAction::from_bytes(&[255]), Err(DecodeError));
    let mut bytes = verify_bytes();
    bytes[0] = 2;
    assert_eq!(ZKPassportAction::from_bytes(&bytes), Err(DecodeError));
}

#[test]
fn from_bytes_rejects_fields_of_the_other_variant() {
    let mut bytes = verify_bytes();
    bytes[0] = 1;
    assert_eq!(ZKPassportAction::from_bytes(&bytes), Err(DecodeError));
    assert_eq!(ZKPassportAction::from_bytes(&[0, 2, 0, 0, 0, b'0', b'x']), Err(DecodeError));
}

#[test]
fn from_bytes_rejects_short_and_long_input() {
    assert_eq!(ZKPassportAction::from_bytes(&[0]), Err(DecodeError));
    assert_eq!(ZKPassportAction::from_bytes(&[1]), Err(DecodeError));
    assert_eq!(ZKPassportAction::from_bytes(&[1, 4, 0, 0, 0, b'0', b'x']), Err(DecodeError));
    assert_eq!(ZKPassportAction::from_bytes(&[1, 1, 0, 0, 0, b'0', b'x']), Err(DecodeError));
    let mut bytes = verify_bytes();
    bytes.pop();
    assert_eq!(ZKPassportAction::from_bytes(&bytes), Err(DecodeError));
    let mut bytes = verify_bytes();
    bytes.push(0);
    assert_eq!(ZKPassportAction::from_bytes(&bytes), Err(DecodeError));
}

#[test]
fn from_bytes_rejects_invalid_utf8() {
    assert_eq!(ZKPassportAction::from_bytes(&[1, 1, 0, 0, 0, 0xff]), Err(DecodeError));
}

#[test]
fn as_blob_carries_name_and_bytes() {
    let blob = check("0x12").as_blob("zkpassport".to_string());
    assert_eq!(
        blob,
        Blob {
            contract_name: "zkpassport".to_string(),
            data: vec![1, 4, 0, 0, 0, b'0', b'x', b'1', b'2'],
        }
    );
    let blob = verify("0x1234").as_blob(String::new());
    assert_eq!(blob.contract_name, "");
    assert_eq!(blob.data, verify_bytes());
}

#[test]
fn execute_verifies_from_call_data() {
    let mut state = ZKPassport::default();
    let out = state.execute(&verify_bytes()).unwrap();
    assert_eq!(text(out), "Successfully verified user 0x1234 with ID zkp_0000000000000006");
    assert_eq!(state.verified_users.len(), 1);
    assert_eq!(state.verified_users[0].user_address, "0x1234");
    assert_eq!(state.verified_users[0].verified_at, "2024-01-01");
    assert_eq!(state.verified_users[0].custom_data, "abc");
    assert!(state.verified_users[0].age_verified);
}

#[test]
fn execute_checks_from_call_data() {
    let mut state = ZKPassport::default();
    state.execute(&verify_bytes()).unwrap();
    let out = state.execute(&check("0x1234").to_bytes().unwrap()).unwrap();
    assert_eq!(
        text(out),
        "User 0x1234 is verified. ID: zkp_0000000000000006, Verified at: 2024-01-01"
    );
    let out = state.execute(&check("0xffff").to_bytes().unwrap()).unwrap();
    assert_eq!(text(out), "User 0xffff is not verified");
    assert_eq!(state.verified_users.len(), 1);
}

#[test]
fn execute_answers_second_verification_without_change() {
    let mut state = ZKPassport::default();
    state.execute(&verify_bytes()).unwrap();
    let before = state.commit();
    let out = state.execute(&verify_bytes()).unwrap();
    assert_eq!(text(out), "User already verified");
    assert_eq!(state.commit(), before);
}

#[test]
fn execute_fails_on_malformed_call_data() {
    let mut state = ZKPassport::default();
    state.execute(&verify_bytes()).unwrap();
    let before = state.commit();
    for data in [vec![], vec![7], vec![1, 9, 0, 0, 0], vec![0, 0, 0, 0, 0]] {
        let r = state.execute(&data);
        assert!(matches!(r, Err(ExecuteError::MalformedInput)));
        assert_eq!(state.commit(), before);
    }
}

#[test]
fn execute_passes_refusal_on() {
    let cases = [
        (proof_for("other", 18, "0x1234"), "Invalid proof name"),
        (proof_for("outer_evm_count_5", 17, "0x1234"), "Age requirement not met"),
        (proof_for("outer_evm_count_5", 18, "1234"), "Invalid user address format"),
    ];
    for (proof, words) in cases {
        let mut state = ZKPassport::default();
        let action = ZKPassportAction::VerifyIdentity { proof, hyli_identity: String::new() };
        let r = state.execute(&action.to_bytes().unwrap());
        match r {
            Err(ExecuteError::Rejected(reason)) => assert_eq!(reason, words),
            other => panic!("unexpected result: {:?}", other),
        }
        assert!(state.verified_users.is_empty());
        assert_eq!(state.commit(), StateCommitment(vec![0, 0, 0, 0]));
    }
}

#[test]
fn handle_commits_before_and_after() {
    let mut state = ZKPassport::default();
    let out = state.handle(&verify_bytes());
    assert_eq!(out.initial_state, StateCommitment(vec![0, 0, 0, 0]));
    assert_eq!(out.next_state, state.commit());
    assert_ne!(out.next_state, out.initial_state);
    assert_eq!(
        text(out.result.unwrap()),
        "Successfully verified user 0x1234 with ID zkp_0000000000000006"
    );
    let back = ZKPassport::from_commitment(&out.next_state).unwrap();
    assert_eq!(back.verified_users, state.verified_users);
}

#[test]
fn handle_keeps_commitment_when_nothing_changes() {
    let mut state = ZKPassport::default();
    state.handle(&verify_bytes());
    let out = state.handle(&verify_bytes());
    assert_eq!(out.initial_state, out.next_state);
    assert_eq!(text(out.result.unwrap()), "User already verified");
    let out = state.handle(&check("0x1234").to_bytes().unwrap());
    assert_eq!(out.initial_state, out.next_state);
    assert!(out.result.is_ok());
}

#[test]
fn handle_keeps_commitment_on_failure() {
    let mut state = ZKPassport::default();
    state.handle(&verify_bytes());
    let before = state.commit();
    let out = state.handle(&[9, 9, 9]);
    assert!(matches!(out.result, Err(ExecuteError::MalformedInput)));
    assert_eq!(out.initial_state, before);
    assert_eq!(out.next_state, before);
    let refused = ZKPassportAction::VerifyIdentity {
        proof: proof_for("outer_evm_count_5", 17, "0x9999"),
        hyli_identity: String::new(),
    };
    let out = state.handle(&refused.to_bytes().unwrap());
    assert!(matches!(out.result, Err(ExecuteError::Rejected(_))));
    assert_eq!(out.initial_state, before);
    assert_eq!(out.next_state, before);
}

#[test]
fn action_equality_tells_variants_apart() {
    assert_eq!(check("0x1"), check("0x1"));
    assert_ne!(check("0x1"), check("0x2"));
    assert_ne!(check("0x1234"), verify("0x1234"));
    assert_eq!(verify("0x1234").clone(), verify("0x1234"));
}
