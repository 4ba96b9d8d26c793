//! The registry of verified users: lookup, the two requests, and the bytes
//! that commit to a registry value.

use vstd::prelude::*;
use vstd::string::{StrSliceExecFns, StringExecFns};
use crate::codec::{
    borsh_decode_records,
    borsh_encode_records,
    record_of_parts,
    record_of_refs,
    records_of_parts,
    records_of_refs,
    RecordRefs,
};
use crate::model::{VerifiedUser, VerifiedUserView, ZKPassportProof};
use crate::rules::{
    check_reply,
    contains_address,
    find_user,
    is_first_match,
    lemma_find_user_at,
    lemma_verify_keeps_valid,
    new_record,
    not_verified_text,
    registry_valid,
    status_text,
    unique_id_text,
    users_after_verify,
    verify_reply,
    EXPECTED_PROOF_NAME,
    MINIMUM_AGE,
};
use crate::text::{hex16, starts_with_hex_prefix, str_eq};
use crate::wire::{decoded_registry, lemma_decoded_registry, registry_bytes, registry_fits};

verus! {

/// The state of the ledger: the verified users in the order in which they
/// were verified.
#[derive(Debug)]
pub struct ZKPassport {
    pub verified_users: Vec<VerifiedUser>,
}

impl View for ZKPassport {
    type V = Seq<VerifiedUserView>;

    open spec fn view(&self) -> Seq<VerifiedUserView> {
        Seq::new(self.verified_users@.len(), |i: int| self.verified_users@[i]@)
    }
}

/// The bytes that bind a registry value: its canonical encoding.
#[derive(Debug, Clone, PartialEq, Eq)]
pub struct StateCommitment(pub Vec<u8>);

/// The registry cannot be encoded: a length in it does not fit in 32 bits.
#[derive(Debug, Clone, Copy, PartialEq, Eq, Structural)]
pub struct EncodeError;

/// The bytes are the encoding of no value.
#[derive(Debug, Clone, Copy, PartialEq, Eq, Structural)]
pub struct DecodeError;

/// An answer as contracts see it: the bytes of a reply, or the words of a
/// refusal.
pub open spec fn reply_view(r: Result<Vec<u8>, String>) -> Result<Seq<u8>, Seq<char>> {
    match r {
        Ok(bytes) => Ok(bytes@),
        Err(reason) => Err(reason@),
    }
}

/// The identifier for an address.
pub fn unique_id_for(address: &str) -> (r: String)
    ensures
        r@ == unique_id_text(address@),
{
    let digits = hex16(address.as_bytes().len() as u64);
    let mut id = String::from_str("zkp_");
    id.append(digits.as_str());
    id
}

impl Default for ZKPassport {
    /// The registry at genesis: no record.
    fn default() -> (r: Self)
        ensures
            r@ == Seq::<VerifiedUserView>::empty(),
            r.well_formed(),
    {
        let r = ZKPassport { verified_users: Vec::new() };
        assert(r@ =~= Seq::<VerifiedUserView>::empty());
        r
    }
}

impl Clone for ZKPassport {
    fn clone(&self) -> (res: Self)
        ensures
            res@ == self@,
    {
        let mut users: Vec<VerifiedUser> = Vec::new();
        let mut i: usize = 0;
        while i < self.verified_users.len()
            invariant
                i <= self.verified_users.len(),
                users@.len() == i,
                forall|j: int| 0 <= j < i ==> (#[trigger] users@[j])@ == self@[j],
            decreases self.verified_users.len() - i,
        {
            users.push(self.verified_users[i].clone());
            i = i + 1;
        }
        let res = ZKPassport { verified_users: users };
        assert(res@ =~= self@);
        res
    }
}

impl ZKPassport {
    /// Whether this registry is one that the ledger can have built: each
    /// record valid, no address twice.
    pub open spec fn well_formed(&self) -> bool {
        registry_valid(self@)
    }

    /// The record of `user_address`: the first one with that address, found
    /// by going through the records in order.
    pub fn get_verified_user(&self, user_address: &str) -> (r: Option<&VerifiedUser>)
        ensures
            match r {
                Some(u) => find_user(self@, user_address@) == Some(u@),
                None => find_user(self@, user_address@) is None,
            },
            r is Some <==> contains_address(self@, user_address@),
            r is Some ==> exists|i: int|
                is_first_match(self@, user_address@, i) && *r->Some_0 == self.verified_users@[i],
    {
        let mut i: usize = 0;
        while i < self.verified_users.len()
            invariant
                i <= self.verified_users.len(),
                forall|j: int| 0 <= j < i ==> (#[trigger] self@[j]).user_address != user_address@,
            decreases self.verified_users.len() - i,
        {
            let u = &self.verified_users[i];
            if str_eq(u.user_address.as_str(), user_address) {
                proof {
                    assert(self@[i as int] == u@);
                    assert(is_first_match(self@, user_address@, i as int));
                    lemma_find_user_at(self@, user_address@, i as int);
                }
                return Some(u);
            }
            i = i + 1;
        }
        None
    }

    /// Admits the user that `proof` is bound to.
    ///
    /// The proof is refused, and the registry left as it is, where its name
    /// is not the expected one, where the lower age bound it claims is under
    /// 18, or where its address does not start with `0x`: the three are
    /// looked at in this order and the first failure is the one reported.
    /// An address that has a record already is answered with a fixed
    /// sentence, and the registry is left as it is. Otherwise one record is
    /// appended and the answer names the address and its identifier.
    pub fn verify_identity(&mut self, proof: ZKPassportProof, _hyli_identity: String) -> (r:
        Result<Vec<u8>, String>)
        ensures
            final(self)@ == users_after_verify(old(self)@, proof@),
            reply_view(r) == verify_reply(old(self)@, proof@),
            r is Err ==> final(self)@ == old(self)@,
            old(self).well_formed() ==> final(self).well_formed(),
    {
        if !str_eq(proof.name.as_str(), EXPECTED_PROOF_NAME) {
            return Err(String::from_str("Invalid proof name"));
        }
        if proof.committed_inputs.compare_age_evm.min_age < MINIMUM_AGE {
            return Err(String::from_str("Age requirement not met"));
        }
        if !starts_with_hex_prefix(proof.committed_inputs.bind_evm.data.user_address.as_str()) {
            return Err(String::from_str("Invalid user address format"));
        }
        let ghost p = proof@;
        let user_address = proof.committed_inputs.bind_evm.data.user_address;
        if self.get_verified_user(user_address.as_str()).is_some() {
            return Ok("User already verified".as_bytes_vec());
        }
        let unique_id = unique_id_for(user_address.as_str());
        let mut message = String::from_str("Successfully verified user ");
        message.append(user_address.as_str());
        message.append(" with ID ");
        message.append(unique_id.as_str());
        let verified_user = VerifiedUser {
            unique_id,
            user_address,
            verified_at: proof.committed_inputs.compare_age_evm.current_date,
            age_verified: true,
            custom_data: proof.committed_inputs.bind_evm.data.custom_data,
        };
        assert(verified_user@ == new_record(p));
        self.verified_users.push(verified_user);
        proof {
            assert(self@ =~= old(self)@.push(new_record(p)));
            if old(self).well_formed() {
                lemma_verify_keeps_valid(old(self)@, p);
            }
        }
        Ok(message.as_str().as_bytes_vec())
    }

    /// Reports whether `user_address` has a record. The answer is never a
    /// refusal, and the registry is not touched.
    pub fn check_verification(&self, user_address: String) -> (r: Result<Vec<u8>, String>)
        ensures
            reply_view(r) == check_reply(self@, user_address@),
    {
        match self.get_verified_user(user_address.as_str()) {
            Some(user) => {
                let mut message = String::from_str("User ");
                message.append(user.user_address.as_str());
                message.append(" is verified. ID: ");
                message.append(user.unique_id.as_str());
                message.append(", Verified at: ");
                message.append(user.verified_at.as_str());
                assert(message@ == status_text(user@));
                Ok(message.as_str().as_bytes_vec())
            },
            None => {
                let mut message = String::from_str("User ");
                message.append(user_address.as_str());
                message.append(" is not verified");
                assert(message@ == not_verified_text(user_address@));
                Ok(message.as_str().as_bytes_vec())
            },
        }
    }

    /// The canonical bytes of the registry, or an error where a length in it
    /// does not fit in 32 bits.
    pub fn as_bytes(&self) -> (r: Result<Vec<u8>, EncodeError>)
        ensures
            r is Ok <==> registry_fits(self@),
            r is Ok ==> r->Ok_0@ == registry_bytes(self@),
    {
        let mut plain: Vec<RecordRefs<'_>> = Vec::new();
        let mut i: usize = 0;
        while i < self.verified_users.len()
            invariant
                i <= self.verified_users.len(),
                plain@.len() == i,
                forall|j: int| 0 <= j < i ==> record_of_refs(#[trigger] plain@[j]) == self@[j],
            decreases self.verified_users.len() - i,
        {
            let u = &self.verified_users[i];
            plain.push(
                (
                    u.unique_id.as_str(),
                    u.user_address.as_str(),
                    u.verified_at.as_str(),
                    u.age_verified,
                    u.custom_data.as_str(),
                ),
            );
            i = i + 1;
        }
        assert(records_of_refs(plain@) =~= self@);
        match borsh_encode_records(&plain) {
            Ok(bytes) => Ok(bytes),
            Err(_) => Err(EncodeError),
        }
    }

    /// The commitment to the registry: its canonical bytes.
    pub fn commit(&self) -> (c: StateCommitment)
        requires
            registry_fits(self@),
        ensures
            c.0@ == registry_bytes(self@),
    {
        StateCommitment(self.as_bytes().expect("Failed to encode ZKPassport"))
    }

    /// The registry that `commitment` binds, or an error where its bytes are
    /// the encoding of no registry.
    pub fn from_commitment(commitment: &StateCommitment) -> (r: Result<ZKPassport, DecodeError>)
        ensures
            match r {
                Ok(state) => decoded_registry(commitment.0@) == Some(state@),
                Err(_) => decoded_registry(commitment.0@) is None,
            },
            r is Ok ==> registry_fits(r->Ok_0@) && registry_bytes(r->Ok_0@) == commitment.0@,
    {
        match borsh_decode_records(commitment.0.as_slice()) {
            Ok(plain) => {
                let ghost parts = plain@;
                let mut users: Vec<VerifiedUser> = Vec::new();
                for t in it: plain
                    invariant
                        users@.len() == it.index(),
                        it.seq() == parts,
                        forall|j: int|
                            0 <= j < users@.len() ==> (#[trigger] users@[j])@ == record_of_parts(
                                parts[j],
                            ),
                {
                    users.push(
                        VerifiedUser {
                            unique_id: t.0,
                            user_address: t.1,
                            verified_at: t.2,
                            age_verified: t.3,
                            custom_data: t.4,
                        },
                    );
                }
                let state = ZKPassport { verified_users: users };
                proof {
                    assert(state@ =~= records_of_parts(parts));
                    lemma_decoded_registry(state@);
                }
                Ok(state)
            },
            Err(_) => Err(DecodeError),
        }
    }
}

} // verus!
