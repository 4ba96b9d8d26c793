//! The calls into `borsh`. Nothing in this file is proved: each contract
//! states what the crate's serializer does on the plain values that it is
//! handed, in the terms of the layout in `wire`.
//!
//! The serializer is called on tuples of strings, bytes and booleans, for
//! which the crate itself has the impls. It writes a tuple field by field, a
//! string as the length of its UTF-8 bytes in four bytes and then the bytes, a
//! `u8` as itself, a boolean as one byte, and a list as its length in four
//! bytes and then its items. It fails where a length does not fit in 32 bits,
//! and only there. Reading is the inverse: it succeeds on the bytes that
//! writing produces and on no others, as it rejects a boolean byte above 1,
//! bytes that are not UTF-8, input that ends early and input that is left
//! over.

use vstd::prelude::*;
use crate::model::{
    BindEvmDataView,
    BindEvmView,
    CommittedInputsView,
    CompareAgeEvmView,
    VerifiedUserView,
    ZKPassportProofView,
};
use crate::wire::{
    is_registry_bytes,
    is_text_bytes,
    is_verify_fields_bytes,
    registry_bytes,
    registry_fits,
    text_bytes,
    text_fits,
    verify_fields_bytes,
    verify_fields_fit,
};

verus! {

/// The error of `borsh::to_vec` and of `borsh::from_slice`. Nothing is read
/// from it.
#[verifier::external_type_specification]
#[verifier::external_body]
pub struct ExIoError(std::io::Error);

/// The fields of a record, borrowed.
pub type RecordRefs<'a> = (&'a str, &'a str, &'a str, bool, &'a str);

/// The fields of a record, owned.
pub type RecordParts = (String, String, String, bool, String);

/// The fields of a proof envelope, borrowed, the nested structs as tuples.
pub type ProofRefs<'a> = (&'a str, &'a str, &'a str, &'a str, (&'a str, u8, u8), (&'a str, &'a str));

/// The fields of a proof envelope, owned, the nested structs as tuples.
pub type ProofParts = (String, String, String, String, (String, u8, u8), (String, String));

/// The record that a tuple of borrowed fields stands for.
pub open spec fn record_of_refs(t: RecordRefs<'_>) -> VerifiedUserView {
    VerifiedUserView {
        unique_id: t.0@,
        user_address: t.1@,
        verified_at: t.2@,
        age_verified: t.3,
        custom_data: t.4@,
    }
}

/// The records that a list of such tuples stands for.
pub open spec fn records_of_refs(s: Seq<RecordRefs<'_>>) -> Seq<VerifiedUserView> {
    Seq::new(s.len(), |i: int| record_of_refs(s[i]))
}

/// The record that a tuple of owned fields stands for.
pub open spec fn record_of_parts(t: RecordParts) -> VerifiedUserView {
    VerifiedUserView {
        unique_id: t.0@,
        user_address: t.1@,
        verified_at: t.2@,
        age_verified: t.3,
        custom_data: t.4@,
    }
}

/// The records that a list of such tuples stands for.
pub open spec fn records_of_parts(s: Seq<RecordParts>) -> Seq<VerifiedUserView> {
    Seq::new(s.len(), |i: int| record_of_parts(s[i]))
}

/// The proof envelope that a tuple of borrowed fields stands for.
pub open spec fn proof_of_refs(t: ProofRefs<'_>) -> ZKPassportProofView {
    ZKPassportProofView {
        proof: t.0@,
        vkey_hash: t.1@,
        name: t.2@,
        version: t.3@,
        committed_inputs: CommittedInputsView {
            compare_age_evm: CompareAgeEvmView {
                current_date: t.4.0@,
                min_age: t.4.1,
                max_age: t.4.2,
            },
            bind_evm: BindEvmView {
                data: BindEvmDataView { user_address: t.5.0@, custom_data: t.5.1@ },
            },
        },
    }
}

/// The proof envelope that a tuple of owned fields stands for.
pub open spec fn proof_of_parts(t: ProofParts) -> ZKPassportProofView {
    ZKPassportProofView {
        proof: t.0@,
        vkey_hash: t.1@,
        name: t.2@,
        version: t.3@,
        committed_inputs: CommittedInputsView {
            compare_age_evm: CompareAgeEvmView {
                current_date: t.4.0@,
                min_age: t.4.1,
                max_age: t.4.2,
            },
            bind_evm: BindEvmView {
                data: BindEvmDataView { user_address: t.5.0@, custom_data: t.5.1@ },
            },
        },
    }
}

/// `borsh::to_vec` on a list of records, each a tuple of its five fields.
/// It returns the registry's bytes, and an error exactly where a length in
/// the list does not fit in 32 bits.
#[verifier::external_body]
pub(crate) fn borsh_encode_records(records: &Vec<RecordRefs<'_>>) -> (r: Result<
    Vec<u8>,
    std::io::Error,
>)
    ensures
        r is Ok <==> registry_fits(records_of_refs(records@)),
        r is Ok ==> r->Ok_0@ == registry_bytes(records_of_refs(records@)),
{
    borsh::to_vec(records)
}

/// `borsh::from_slice` for a list of records, each a tuple of its five
/// fields. It returns the one list whose bytes these are, and an error
/// exactly where they are the bytes of no list.
#[verifier::external_body]
pub(crate) fn borsh_decode_records(bytes: &[u8]) -> (r: Result<Vec<RecordParts>, std::io::Error>)
    ensures
        r is Ok ==> registry_fits(records_of_parts(r->Ok_0@)),
        r is Ok ==> registry_bytes(records_of_parts(r->Ok_0@)) == bytes@,
        r is Err ==> !is_registry_bytes(bytes@),
{
    borsh::from_slice(bytes)
}

/// `borsh::to_vec` on the two fields of a request to verify an identity: the
/// proof envelope and the caller's identity. It returns their bytes, and an
/// error exactly where the length of one of the strings does not fit in 32
/// bits.
#[verifier::external_body]
pub(crate) fn borsh_encode_verify_fields(fields: &(ProofRefs<'_>, &str)) -> (r: Result<
    Vec<u8>,
    std::io::Error,
>)
    ensures
        r is Ok <==> verify_fields_fit(proof_of_refs(fields.0), fields.1@),
        r is Ok ==> r->Ok_0@ == verify_fields_bytes(proof_of_refs(fields.0), fields.1@),
{
    borsh::to_vec(fields)
}

/// `borsh::from_slice` for the two fields of a request to verify an identity.
/// It returns the one pair whose bytes these are, and an error exactly where
/// they are the bytes of no pair.
#[verifier::external_body]
pub(crate) fn borsh_decode_verify_fields(bytes: &[u8]) -> (r: Result<
    (ProofParts, String),
    std::io::Error,
>)
    ensures
        r is Ok ==> verify_fields_fit(proof_of_parts(r->Ok_0.0), r->Ok_0.1@),
        r is Ok ==> verify_fields_bytes(proof_of_parts(r->Ok_0.0), r->Ok_0.1@) == bytes@,
        r is Err ==> !is_verify_fields_bytes(bytes@),
{
    borsh::from_slice(bytes)
}

/// `borsh::to_vec` on one string. It returns the length of the string's
/// UTF-8 bytes in four bytes and then those bytes, and an error exactly where
/// that length does not fit in 32 bits.
#[verifier::external_body]
pub(crate) fn borsh_encode_text(text: &str) -> (r: Result<Vec<u8>, std::io::Error>)
    ensures
        r is Ok <==> text_fits(text@),
        r is Ok ==> r->Ok_0@ == text_bytes(text@),
{
    borsh::to_vec(text)
}

/// `borsh::from_slice` for one string. It returns the one string whose bytes
/// these are, and an error exactly where they are the bytes of no string.
#[verifier::external_body]
pub(crate) fn borsh_decode_text(bytes: &[u8]) -> (r: Result<String, std::io::Error>)
    ensures
        r is Ok ==> text_fits(r->Ok_0@),
        r is Ok ==> text_bytes(r->Ok_0@) == bytes@,
        r is Err ==> !is_text_bytes(bytes@),
{
    borsh::from_slice(bytes)
}

} // verus!
