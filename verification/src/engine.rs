//! The transition engine: call data in, an answer and two commitments out.

use vstd::prelude::*;
use vstd::slice::slice_subrange;
use crate::codec::{
    borsh_decode_text,
    borsh_decode_verify_fields,
    borsh_encode_text,
    borsh_encode_verify_fields,
    proof_of_parts,
    proof_of_refs,
    ProofRefs,
};
use crate::model::{
    BindEvm,
    BindEvmData,
    CommittedInputs,
    CompareAgeEvm,
    ZKPassportAction,
    ZKPassportActionView,
    ZKPassportProof,
};
use crate::registry::{DecodeError, EncodeError, StateCommitment, ZKPassport};
use crate::rules::{call_reply, users_after_call, ExecuteErrorView};
use crate::wire::{
    action_bytes,
    action_fits,
    action_tag,
    decoded_action,
    is_action_bytes,
    is_text_bytes,
    is_verify_fields_bytes,
    lemma_decoded_action,
    payload_bytes,
    registry_bytes,
    registry_fits,
};

verus! {

/// An action as it travels: the name of the contract it is for, and its bytes.
#[derive(Debug, Clone, PartialEq, Eq)]
pub struct Blob {
    pub contract_name: String,
    pub data: Vec<u8>,
}

/// Why a call failed.
#[derive(Debug)]
pub enum ExecuteError {
    /// The call data encode no action.
    MalformedInput,
    /// The action was refused, with these words.
    Rejected(String),
}

impl View for ExecuteError {
    type V = ExecuteErrorView;

    open spec fn view(&self) -> ExecuteErrorView {
        match self {
            ExecuteError::MalformedInput => ExecuteErrorView::MalformedInput,
            ExecuteError::Rejected(reason) => ExecuteErrorView::Rejected(reason@),
        }
    }
}

/// The result of a call as contracts see it.
pub open spec fn result_view(r: Result<Vec<u8>, ExecuteError>) -> Result<
    Seq<u8>,
    ExecuteErrorView,
> {
    match r {
        Ok(bytes) => Ok(bytes@),
        Err(e) => Err(e@),
    }
}

/// What one call hands to the host: the commitment before, the commitment
/// after, and the answer.
#[derive(Debug)]
pub struct Transition {
    pub initial_state: StateCommitment,
    pub next_state: StateCommitment,
    pub result: Result<Vec<u8>, ExecuteError>,
}

impl ZKPassportAction {
    /// The bytes of the action: the variant byte, then the fields. An error
    /// where the length of a string in it does not fit in 32 bits.
    pub fn to_bytes(&self) -> (r: Result<Vec<u8>, EncodeError>)
        ensures
            r is Ok <==> action_fits(self@),
            r is Ok ==> r->Ok_0@ == action_bytes(self@),
    {
        let mut data: Vec<u8> = Vec::new();
        let fields = match self {
            ZKPassportAction::VerifyIdentity { proof, hyli_identity } => {
                data.push(0);
                let refs: ProofRefs<'_> = (
                    proof.proof.as_str(),
                    proof.vkey_hash.as_str(),
                    proof.name.as_str(),
                    proof.version.as_str(),
                    (
                        proof.committed_inputs.compare_age_evm.current_date.as_str(),
                        proof.committed_inputs.compare_age_evm.min_age,
                        proof.committed_inputs.compare_age_evm.max_age,
                    ),
                    (
                        proof.committed_inputs.bind_evm.data.user_address.as_str(),
                        proof.committed_inputs.bind_evm.data.custom_data.as_str(),
                    ),
                );
                assert(proof_of_refs(refs) == proof@);
                borsh_encode_verify_fields(&(refs, hyli_identity.as_str()))
            },
            ZKPassportAction::CheckVerification { user_address } => {
                data.push(1);
                borsh_encode_text(user_address.as_str())
            },
        };
        match fields {
            Ok(mut bytes) => {
                data.append(&mut bytes);
                assert(data@ =~= action_bytes(self@));
                Ok(data)
            },
            Err(_) => Err(EncodeError),
        }
    }

    /// The action that `data` encode, or an error where they encode none:
    /// no variant byte, a variant byte above 1, or fields that cannot be
    /// read to the end of the data and no further.
    pub fn from_bytes(data: &[u8]) -> (r: Result<ZKPassportAction, DecodeError>)
        ensures
            match r {
                Ok(action) => decoded_action(data@) == Some(action@),
                Err(_) => decoded_action(data@) is None,
            },
            r is Ok ==> action_fits(r->Ok_0@) && action_bytes(r->Ok_0@) == data@,
    {
        if data.len() == 0 {
            proof {
                lemma_action_bytes_framing(data@);
            }
            return Err(DecodeError);
        }
        let tag = data[0];
        let fields = slice_subrange(data, 1, data.len());
        proof {
            lemma_action_bytes_framing(data@);
            assert(data@ =~= seq![tag] + fields@);
        }
        if tag == 0 {
            match borsh_decode_verify_fields(fields) {
                Ok((parts, hyli_identity)) => {
                    let ghost p = proof_of_parts(parts);
                    let (proof, vkey_hash, name, version, age, bind) = parts;
                    let (current_date, min_age, max_age) = age;
                    let (user_address, custom_data) = bind;
                    let action = ZKPassportAction::VerifyIdentity {
                        proof: ZKPassportProof {
                            proof,
                            vkey_hash,
                            name,
                            version,
                            committed_inputs: CommittedInputs {
                                compare_age_evm: CompareAgeEvm { current_date, min_age, max_age },
                                bind_evm: BindEvm {
                                    data: BindEvmData { user_address, custom_data },
                                },
                            },
                        },
                        hyli_identity,
                    };
                    assert(action@ == (ZKPassportActionView::VerifyIdentity {
                        proof: p,
                        hyli_identity: hyli_identity@,
                    }));
                    assert(action_fits(action@) && action_bytes(action@) == data@);
                    proof {
                        lemma_decoded_action(action@);
                    }
                    Ok(action)
                },
                Err(_) => Err(DecodeError),
            }
        } else if tag == 1 {
            match borsh_decode_text(fields) {
                Ok(user_address) => {
                    let action = ZKPassportAction::CheckVerification { user_address };
                    assert(action_fits(action@) && action_bytes(action@) == data@);
                    proof {
                        lemma_decoded_action(action@);
                    }
                    Ok(action)
                },
                Err(_) => Err(DecodeError),
            }
        } else {
            Err(DecodeError)
        }
    }

    /// The blob that carries this action to the contract `contract_name`.
    pub fn as_blob(&self, contract_name: String) -> (blob: Blob)
        requires
            action_fits(self@),
        ensures
            blob.contract_name@ == contract_name@,
            blob.data@ == action_bytes(self@),
    {
        Blob { contract_name, data: self.to_bytes().expect("Failed to encode ZKPassportAction") }
    }
}

/// How the bytes of an action are framed: they are not empty, the first is 0
/// or 1, and the rest is the encoding of the fields of that variant.
proof fn lemma_action_bytes_framing(data: Seq<u8>)
    ensures
        is_action_bytes(data) ==> {
            &&& data.len() >= 1
            &&& data[0] == 0 ==> is_verify_fields_bytes(data.subrange(1, data.len() as int))
            &&& data[0] == 1 ==> is_text_bytes(data.subrange(1, data.len() as int))
            &&& data[0] <= 1
        },
{
    if is_action_bytes(data) {
        let a = choose|a: ZKPassportActionView| action_fits(a) && action_bytes(a) == data;
        assert(data.subrange(1, data.len() as int) =~= payload_bytes(a));
        assert(data[0] == action_tag(a));
        match a {
            ZKPassportActionView::VerifyIdentity { proof, hyli_identity } => {
                assert(crate::wire::verify_fields_fit(proof, hyli_identity));
            },
            ZKPassportActionView::CheckVerification { user_address } => {
                assert(crate::wire::text_fits(user_address));
            },
        }
    }
}

impl ZKPassport {
    /// Runs one call: reads the action from `data` and does what it asks.
    ///
    /// Data that encode no action fail the call and leave the registry as
    /// it is. A request to verify is answered as `verify_identity` answers
    /// it, a request to check as `check_verification` does.
    pub fn execute(&mut self, data: &[u8]) -> (r: Result<Vec<u8>, ExecuteError>)
        ensures
            final(self)@ == users_after_call(old(self)@, data@),
            result_view(r) == call_reply(old(self)@, data@),
            r is Err ==> final(self)@ == old(self)@,
            old(self).well_formed() ==> final(self).well_formed(),
    {
        let action = match ZKPassportAction::from_bytes(data) {
            Ok(action) => action,
            Err(_) => {
                return Err(ExecuteError::MalformedInput);
            },
        };
        let res = match action {
            ZKPassportAction::VerifyIdentity { proof, hyli_identity } => self.verify_identity(
                proof,
                hyli_identity,
            ),
            ZKPassportAction::CheckVerification { user_address } => self.check_verification(
                user_address,
            ),
        };
        match res {
            Ok(bytes) => Ok(bytes),
            Err(reason) => Err(ExecuteError::Rejected(reason)),
        }
    }

    /// Runs one call and commits to the registry before and after it.
    pub fn handle(&mut self, data: &[u8]) -> (out: Transition)
        requires
            registry_fits(old(self)@),
            registry_fits(users_after_call(old(self)@, data@)),
        ensures
            final(self)@ == users_after_call(old(self)@, data@),
            out.initial_state.0@ == registry_bytes(old(self)@),
            out.next_state.0@ == registry_bytes(final(self)@),
            result_view(out.result) == call_reply(old(self)@, data@),
            out.result is Err ==> final(self)@ == old(self)@ && out.next_state.0@ == out.initial_state.0@,
            old(self).well_formed() ==> final(self).well_formed(),
    {
        let initial_state = self.commit();
        let result = self.execute(data);
        let next_state = self.commit();
        Transition { initial_state, next_state, result }
    }
}

} // verus!
