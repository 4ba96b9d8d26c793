use zkpassport::{
    BindEvm, BindEvmData, CommittedInputs, CompareAgeEvm, DecodeError, StateCommitment,
    VerifiedUser, ZKPassport, ZKPassportProof,
};

fn valid_proof(user_address: &str) -> ZKPassportProof {
    ZKPassportProof {
        proof: "0xdeadbeef".to_string(),
        vkey_hash: "0xabc123".to_string(),
        name: "outer_evm_count_5".to_string(),
        version: "0.3.1".to_string(),
        committed_inputs: CommittedInputs {
            compare_age_evm: CompareAgeEvm {
                current_date: "2024-01-01".to_string(),
                min_age: 18,
                max_age: 0,
            },
            bind_evm: BindEvm {
                data: BindEvmData {
                    user_address: user_address.to_string(),
                    custom_data: "abc".to_string(),
                },
            },
        },
    }
}

fn one_record_bytes() -> Vec<u8> {
    let mut bytes = vec![1, 0, 0, 0];
    bytes.extend([20, 0, 0, 0]);
    bytes.extend(b"zkp_0000000000000006");
    bytes.extend([6, 0, 0, 0]);
    bytes.extend(b"0x1234");
    bytes.extend([10, 0, 0, 0]);
    bytes.extend(b"2024-01-01");
    bytes.push(1);
    bytes.extend([3, 0, 0, 0]);
    bytes.extend(b"abc");
    bytes
}

fn record(address: &str, age_verified: bool, custom_data: &str) -> VerifiedUser {
    VerifiedUser {
        unique_id: "id".to_string(),
        user_address: address.to_string(),
        verified_at: "2024-01-01".to_string(),
        age_verified,
        custom_data: custom_data.to_string(),
    }
}

#[test]
fn empty_registry_commits_to_zero_length() {
    let state = ZKPassport::default();
    assert_eq!(state.as_bytes(), Ok(vec![0, 0, 0, 0]));
    assert_eq!(state.commit(), StateCommitment(vec![0, 0, 0, 0]));
}

#[test]
fn one_record_commits_to_its_fields_in_order() {
    let mut state = ZKPassport::default();
    state.verify_identity(valid_proof("0x1234"), String::new()).unwrap();
    assert_eq!(state.as_bytes().unwrap(), one_record_bytes());
    assert_eq!(state.commit().0, one_record_bytes());
}

#[test]
fn false_flag_and_empty_string_are_encoded() {
    let state = ZKPassport { verified_users: vec![record("", false, "")] };
    let mut expected = vec![1, 0, 0, 0, 2, 0, 0, 0];
    expected.extend(b"id");
    expected.extend([0, 0, 0, 0]);
    expected.extend([10, 0, 0, 0]);
    expected.extend(b"2024-01-01");
    expected.push(0);
    expected.extend([0, 0, 0, 0]);
    assert_eq!(state.as_bytes().unwrap(), expected);
}

#[test]
fn string_length_counts_utf8_bytes() {
    let state = ZKPassport { verified_users: vec![record("0x\u{e9}", true, "\u{1f600}")] };
    let bytes = state.as_bytes().unwrap();
    let mut expected = vec![1, 0, 0, 0, 2, 0, 0, 0];
    expected.extend(b"id");
    expected.extend([4, 0, 0, 0, b'0', b'x', 0xc3, 0xa9]);
    expected.extend([10, 0, 0, 0]);
    expected.extend(b"2024-01-01");
    expected.push(1);
    expected.extend([4, 0, 0, 0, 0xf0, 0x9f, 0x98, 0x80]);
    assert_eq!(bytes, expected);
}

#[test]
fn long_string_length_uses_second_byte() {
    let long = "a".repeat(300);
    let state = ZKPassport { verified_users: vec![record("0x1", true, &long)] };
    let bytes = state.as_bytes().unwrap();
    let tail = &bytes[bytes.len() - 304..];
    assert_eq!(&tail[..4], &[44, 1, 0, 0]);
    assert!(tail[4..].iter().all(|b| *b == b'a'));
}

#[test]
fn record_count_uses_second_byte() {
    let users: Vec<VerifiedUser> =
        (0..258).map(|i| record(&format!("0x{}", i), true, "")).collect();
    let state = ZKPassport { verified_users: users };
    let bytes = state.as_bytes().unwrap();
    assert_eq!(&bytes[..4], &[2, 1, 0, 0]);
    let back = ZKPassport::from_commitment(&StateCommitment(bytes)).unwrap();
    assert_eq!(back.verified_users, state.verified_users);
}

#[test]
fn commitment_matches_serializer_on_plain_tuples() {
    let mut state = ZKPassport::default();
    state.verify_identity(valid_proof("0x1234"), String::new()).unwrap();
    state.verify_identity(valid_proof("0xabcdef"), String::new()).unwrap();
    let plain: Vec<(String, String, String, bool, String)> = state
        .verified_users
        .iter()
        .map(|u| {
            (
                u.unique_id.clone(),
                u.user_address.clone(),
                u.verified_at.clone(),
                u.age_verified,
                u.custom_data.clone(),
            )
        })
        .collect();
    assert_eq!(state.as_bytes().unwrap(), borsh::to_vec(&plain).unwrap());
}

#[test]
fn equal_registries_have_equal_commitments() {
    let mut a = ZKPassport::default();
    let mut b = ZKPassport::default();
    for address in ["0x1234", "0xabcdef", "0x1"] {
        a.verify_identity(valid_proof(address), "a".to_string()).unwrap();
        b.verify_identity(valid_proof(address), "b".to_string()).unwrap();
    }
    assert_eq!(a.as_bytes(), b.as_bytes());
    assert_eq!(a.commit(), b.commit());
    assert_eq!(a.commit(), a.clone().commit());
}

#[test]
fn order_of_records_changes_commitment() {
    let mut a = ZKPassport::default();
    let mut b = ZKPassport::default();
    a.verify_identity(valid_proof("0x1234"), String::new()).unwrap();
    a.verify_identity(valid_proof("0x5678"), String::new()).unwrap();
    b.verify_identity(valid_proof("0x5678"), String::new()).unwrap();
    b.verify_identity(valid_proof("0x1234"), String::new()).unwrap();
    assert_ne!(a.commit(), b.commit());
}

#[test]
fn commitment_round_trips() {
    let mut state = ZKPassport::default();
    let back = ZKPassport::from_commitment(&state.commit()).unwrap();
    assert!(back.verified_users.is_empty());
    for address in ["0x1234", "0xabcdef", "0x\u{e9}\u{1f600}"] {
        state.verify_identity(valid_proof(address), String::new()).unwrap();
        let back = ZKPassport::from_commitment(&state.commit()).unwrap();
        assert_eq!(back.verified_users, state.verified_users);
        assert_eq!(back.commit(), state.commit());
    }
}

#[test]
fn from_commitment_reads_fields_in_order() {
    let state = ZKPassport::from_commitment(&StateCommitment(one_record_bytes())).unwrap();
    assert_eq!(
        state.verified_users,
        vec![VerifiedUser {
            unique_id: "zkp_0000000000000006".to_string(),
            user_address: "0x1234".to_string(),
            verified_at: "2024-01-01".to_string(),
            age_verified: true,
            custom_data: "abc".to_string(),
        }]
    );
}

#[test]
fn from_commitment_rejects_empty_input() {
    let r = ZKPassport::from_commitment(&StateCommitment(vec![]));
    assert_eq!(r.err(), Some(DecodeError));
}

#[test]
fn from_commitment_rejects_short_input() {
    for cut in [1, 3, 4, 5, 20, 40] {
        let mut bytes = one_record_bytes();
        bytes.truncate(bytes.len() - cut);
        assert!(ZKPassport::from_commitment(&StateCommitment(bytes)).is_err());
    }
    assert!(ZKPassport::from_commitment(&StateCommitment(vec![1, 0, 0, 0])).is_err());
    assert!(ZKPassport::from_commitment(&StateCommitment(vec![0, 0, 0])).is_err());
}

#[test]
fn from_commitment_rejects_trailing_bytes() {
    let mut bytes = one_record_bytes();
    bytes.push(0);
    assert!(ZKPassport::from_commitment(&StateCommitment(bytes)).is_err());
    assert!(ZKPassport::from_commitment(&StateCommitment(vec![0, 0, 0, 0, 0])).is_err());
}

#[test]
fn from_commitment_rejects_flag_above_one() {
    let mut bytes = one_record_bytes();
    let flag = bytes.len() - 8;
    assert_eq!(bytes[flag], 1);
    bytes[flag] = 2;
    assert!(ZKPassport::from_commitment(&StateCommitment(bytes)).is_err());
}

#[test]
fn from_commitment_rejects_invalid_utf8() {
    let mut bytes = one_record_bytes();
    let last = bytes.len() - 1;
    bytes[last] = 0xff;
    assert!(ZKPassport::from_commitment(&StateCommitment(bytes)).is_err());
}

#[test]
fn from_commitment_does_not_judge_records() {
    let state = ZKPassport {
        verified_users: vec![record("no prefix", false, "x"), record("no prefix", false, "y")],
    };
    let back = ZKPassport::from_commitment(&state.commit()).unwrap();
    assert_eq!(back.verified_users, state.verified_users);
}
