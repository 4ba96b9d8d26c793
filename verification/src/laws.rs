//! What holds of the ledger whatever its state and whatever it is asked.

use vstd::prelude::*;
use vstd::utf8::{encode_utf8, is_ascii_chars, is_ascii_chars_encode_utf8};
use crate::model::{VerifiedUserView, ZKPassportActionView, ZKPassportProofView};
use crate::registry::ZKPassport;
use crate::rules::{
    check_reply,
    contains_address,
    find_user,
    is_first_match,
    lemma_find_user_at,
    lemma_find_user_iff_contains,
    lemma_verify_keeps_valid,
    new_record,
    not_verified_text,
    registry_valid,
    rejection,
    status_text,
    unique_id_text,
    users_after,
    users_after_call,
    users_after_verify,
    verify_reply,
    EXPECTED_PROOF_NAME,
    MINIMUM_AGE,
};
use crate::text::{has_hex_prefix, hex_fixed};
use crate::wire::{
    action_fits,
    decoded_action,
    decoded_registry,
    lemma_decoded_registry,
    record_fits,
    registry_bytes,
    registry_fits,
};

verus! {

/// Verifying twice is verifying once: after a proof that is not refused has
/// been handled, handling it again leaves the registry as it is and is
/// answered with the fixed sentence for an address that is verified already.
pub proof fn law_verify_idempotent(users: Seq<VerifiedUserView>, p: ZKPassportProofView)
    requires
        rejection(p) is None,
    ensures
        users_after_verify(users_after_verify(users, p), p) == users_after_verify(users, p),
        verify_reply(users_after_verify(users, p), p) == Ok::<Seq<u8>, Seq<char>>(
            encode_utf8("User already verified"@),
        ),
{
    lemma_verified_address_is_contained(users, p);
}

/// After a proof that is not refused has been handled, its address has a
/// record.
pub proof fn lemma_verified_address_is_contained(
    users: Seq<VerifiedUserView>,
    p: ZKPassportProofView,
)
    requires
        rejection(p) is None,
    ensures
        contains_address(users_after_verify(users, p), p.user_address()),
{
    if !contains_address(users, p.user_address()) {
        let once = users.push(new_record(p));
        assert(once[users.len() as int].user_address == p.user_address());
    }
}

/// Two registries with the same records in the same order have the same
/// commitment, and either both can be committed to or neither can.
pub proof fn law_commitment_deterministic(a: ZKPassport, b: ZKPassport)
    requires
        a@ == b@,
    ensures
        registry_fits(a@) == registry_fits(b@),
        registry_bytes(a@) == registry_bytes(b@),
{
}

/// Reading back a commitment gives the registry that was committed to.
pub proof fn law_commitment_round_trip(users: Seq<VerifiedUserView>)
    requires
        registry_fits(users),
    ensures
        decoded_registry(registry_bytes(users)) == Some(users),
{
    lemma_decoded_registry(users);
}

/// A refused proof changes nothing: where the name of the proof is not the
/// expected one, or the lower age bound it claims is under the minimum, or
/// its address does not start with `0x`, the call fails, and the registry,
/// and so its commitment, is after the call what it was before.
pub proof fn law_refusal_changes_nothing(users: Seq<VerifiedUserView>, p: ZKPassportProofView)
    requires
        p.name != EXPECTED_PROOF_NAME@ || p.min_age() < MINIMUM_AGE || !has_hex_prefix(
            p.user_address(),
        ),
    ensures
        verify_reply(users, p) is Err,
        verify_reply(users, p) == Err::<Seq<u8>, Seq<char>>(rejection(p)->Some_0),
        users_after_verify(users, p) == users,
        registry_bytes(users_after_verify(users, p)) == registry_bytes(users),
{
}

/// Data that encode no action change nothing either.
pub proof fn law_malformed_call_changes_nothing(users: Seq<VerifiedUserView>, data: Seq<u8>)
    requires
        decoded_action(data) is None,
    ensures
        users_after_call(users, data) == users,
        registry_bytes(users_after_call(users, data)) == registry_bytes(users),
{
}

/// After a proof that is not refused has been handled, checking its address
/// reports a record with that address; where the address was new, the record
/// is the one made from the proof.
pub proof fn law_lookup_after_verify(users: Seq<VerifiedUserView>, p: ZKPassportProofView)
    requires
        rejection(p) is None,
    ensures
        ({
            let after = users_after_verify(users, p);
            let found = find_user(after, p.user_address());
            &&& found is Some
            &&& found->Some_0.user_address == p.user_address()
            &&& !contains_address(users, p.user_address()) ==> found == Some(new_record(p))
            &&& check_reply(after, p.user_address()) == Ok::<Seq<u8>, Seq<char>>(
                encode_utf8(status_text(found->Some_0)),
            )
        }),
{
    let after = users_after_verify(users, p);
    lemma_verified_address_is_contained(users, p);
    lemma_find_user_iff_contains(after, p.user_address());
    if !contains_address(users, p.user_address()) {
        let n = users.len() as int;
        assert forall|j: int| 0 <= j < n implies (#[trigger] after[j]).user_address
            != p.user_address() by {
            assert(after[j] == users[j]);
        }
        assert(is_first_match(after, p.user_address(), n));
        lemma_find_user_at(after, p.user_address(), n);
    }
}

/// Checking an address that has no record says so.
pub proof fn law_lookup_unverified(users: Seq<VerifiedUserView>, address: Seq<char>)
    requires
        !contains_address(users, address),
    ensures
        check_reply(users, address) == Ok::<Seq<u8>, Seq<char>>(
            encode_utf8(not_verified_text(address)),
        ),
{
    lemma_find_user_iff_contains(users, address);
}

/// The registry only grows, and by one record at most: what was there stays
/// where it was.
pub proof fn law_append_only(users: Seq<VerifiedUserView>, a: ZKPassportActionView)
    ensures
        users.len() <= users_after(users, a).len() <= users.len() + 1,
        users_after(users, a).subrange(0, users.len() as int) == users,
{
    assert(users_after(users, a).subrange(0, users.len() as int) =~= users);
}

/// The same of a call: whatever the call data, the registry keeps what it
/// had and gains one record at most.
pub proof fn law_call_appends_only(users: Seq<VerifiedUserView>, data: Seq<u8>)
    ensures
        users.len() <= users_after_call(users, data).len() <= users.len() + 1,
        users_after_call(users, data).subrange(0, users.len() as int) == users,
{
    match decoded_action(data) {
        Some(a) => law_append_only(users, a),
        None => {
            assert(users.subrange(0, users.len() as int) =~= users);
        },
    }
}

/// No action breaks a valid registry: afterwards each record is still valid
/// and no address occurs twice.
pub proof fn law_validity_preserved(users: Seq<VerifiedUserView>, a: ZKPassportActionView)
    requires
        registry_valid(users),
    ensures
        registry_valid(users_after(users, a)),
{
    match a {
        ZKPassportActionView::VerifyIdentity { proof, .. } => lemma_verify_keeps_valid(users, proof),
        ZKPassportActionView::CheckVerification { .. } => {},
    }
}

/// In a valid registry an address has one record at most, so the record
/// found for an address is the only one with it.
pub proof fn law_one_record_per_address(users: Seq<VerifiedUserView>, i: int)
    requires
        registry_valid(users),
        0 <= i < users.len(),
    ensures
        find_user(users, users[i].user_address) == Some(users[i]),
{
    let address = users[i].user_address;
    assert forall|j: int| 0 <= j < i implies (#[trigger] users[j]).user_address != address by {}
    assert(is_first_match(users, address, i));
    lemma_find_user_at(users, address, i);
}

/// The identifier of any address is twenty ASCII characters.
pub proof fn lemma_unique_id_is_short(address: Seq<char>)
    ensures
        unique_id_text(address).len() == 20,
        is_ascii_chars(unique_id_text(address)),
        encode_utf8(unique_id_text(address)).len() == 20,
{
    reveal_strlit("zkp_");
    let id = unique_id_text(address);
    let digits = hex_fixed(encode_utf8(address).len(), 16);
    assert(id.len() == 20);
    assert forall|i: int| 0 <= i < id.len() implies '\0' <= #[trigger] id[i] <= '\u{7f}' by {
        if i >= 4 {
            assert(id[i] == digits[i - 4]);
        }
    }
    is_ascii_chars_encode_utf8(id);
}

/// A registry that can be committed to and has room for one more record can
/// be committed to after any call.
pub proof fn law_room_for_call(users: Seq<VerifiedUserView>, data: Seq<u8>)
    requires
        registry_fits(users),
        users.len() < u32::MAX,
    ensures
        registry_fits(users_after_call(users, data)),
{
    let after = users_after_call(users, data);
    if after != users {
        let a = decoded_action(data)->Some_0;
        assert(action_fits(a));
        let p = a->VerifyIdentity_proof;
        assert(after == users.push(new_record(p)));
        lemma_unique_id_is_short(p.user_address());
        assert(record_fits(new_record(p)));
        assert forall|i: int| 0 <= i < after.len() implies record_fits(#[trigger] after[i]) by {
            if i < users.len() {
                assert(after[i] == users[i]);
            }
        }
    }
}

} // verus!
