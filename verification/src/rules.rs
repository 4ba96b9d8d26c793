//! The rules of the ledger as mathematics: which proofs are refused and with
//! what words, what a new record holds, how the registry changes, and what
//! each request is answered with.

use vstd::prelude::*;
use vstd::utf8::encode_utf8;
use crate::model::{VerifiedUserView, ZKPassportActionView, ZKPassportProofView};
use crate::wire::decoded_action;
use crate::text::{has_hex_prefix, hex_fixed};

verus! {

/// The only proof name that the ledger takes.
pub const EXPECTED_PROOF_NAME: &'static str = "outer_evm_count_5";

/// The least lower age bound that a proof may claim.
pub const MINIMUM_AGE: u8 = 18;

/// Why a proof is refused, in the words that the caller is given; `None`
/// where it is not refused. The name is looked at first, then the age bound,
/// then the address.
pub open spec fn rejection(p: ZKPassportProofView) -> Option<Seq<char>> {
    if p.name != EXPECTED_PROOF_NAME@ {
        Some("Invalid proof name"@)
    } else if p.min_age() < MINIMUM_AGE {
        Some("Age requirement not met"@)
    } else if !has_hex_prefix(p.user_address()) {
        Some("Invalid user address format"@)
    } else {
        None
    }
}

/// Whether some record has this address.
pub open spec fn contains_address(users: Seq<VerifiedUserView>, address: Seq<char>) -> bool {
    exists|i: int| 0 <= i < users.len() && (#[trigger] users[i]).user_address == address
}

/// Whether record `i` is the first one with this address.
pub open spec fn is_first_match(users: Seq<VerifiedUserView>, address: Seq<char>, i: int) -> bool {
    &&& 0 <= i < users.len()
    &&& users[i].user_address == address
    &&& forall|j: int| 0 <= j < i ==> (#[trigger] users[j]).user_address != address
}

/// The first record with this address, if there is one.
pub open spec fn find_user(users: Seq<VerifiedUserView>, address: Seq<char>) -> Option<
    VerifiedUserView,
> {
    if exists|i: int| is_first_match(users, address, i) {
        Some(users[choose|i: int| is_first_match(users, address, i)])
    } else {
        None
    }
}

/// The identifier given to an address: `zkp_` and the length of the address
/// in bytes as sixteen hexadecimal digits. Two addresses of one length get
/// one identifier.
pub open spec fn unique_id_text(address: Seq<char>) -> Seq<char> {
    "zkp_"@ + hex_fixed(encode_utf8(address).len(), 16)
}

/// The record that a proof is admitted as.
pub open spec fn new_record(p: ZKPassportProofView) -> VerifiedUserView {
    VerifiedUserView {
        unique_id: unique_id_text(p.user_address()),
        user_address: p.user_address(),
        verified_at: p.current_date(),
        age_verified: true,
        custom_data: p.custom_data(),
    }
}

/// The registry after a request to verify: one record longer where the proof
/// is not refused and its address is new, unchanged otherwise.
pub open spec fn users_after_verify(users: Seq<VerifiedUserView>, p: ZKPassportProofView) -> Seq<
    VerifiedUserView,
> {
    if rejection(p) is None && !contains_address(users, p.user_address()) {
        users.push(new_record(p))
    } else {
        users
    }
}

/// The words that confirm a new record.
pub open spec fn verified_text(address: Seq<char>, unique_id: Seq<char>) -> Seq<char> {
    "Successfully verified user "@ + address + " with ID "@ + unique_id
}

/// The answer to a request to verify: the refusal, or the UTF-8 bytes of
/// the confirmation, which for an address that is verified already is a
/// fixed sentence.
pub open spec fn verify_reply(users: Seq<VerifiedUserView>, p: ZKPassportProofView) -> Result<
    Seq<u8>,
    Seq<char>,
> {
    match rejection(p) {
        Some(reason) => Err(reason),
        None => if contains_address(users, p.user_address()) {
            Ok(encode_utf8("User already verified"@))
        } else {
            Ok(encode_utf8(verified_text(p.user_address(), unique_id_text(p.user_address()))))
        },
    }
}

/// The words that report a record.
pub open spec fn status_text(u: VerifiedUserView) -> Seq<char> {
    "User "@ + u.user_address + " is verified. ID: "@ + u.unique_id + ", Verified at: "@
        + u.verified_at
}

/// The words that report that an address has no record.
pub open spec fn not_verified_text(address: Seq<char>) -> Seq<char> {
    "User "@ + address + " is not verified"@
}

/// The answer to a request to check an address, as UTF-8 bytes. It is
/// never a refusal.
pub open spec fn check_reply(users: Seq<VerifiedUserView>, address: Seq<char>) -> Result<
    Seq<u8>,
    Seq<char>,
> {
    match find_user(users, address) {
        Some(u) => Ok(encode_utf8(status_text(u))),
        None => Ok(encode_utf8(not_verified_text(address))),
    }
}

/// The registry after an action.
pub open spec fn users_after(users: Seq<VerifiedUserView>, a: ZKPassportActionView) -> Seq<
    VerifiedUserView,
> {
    match a {
        ZKPassportActionView::VerifyIdentity { proof, .. } => users_after_verify(users, proof),
        ZKPassportActionView::CheckVerification { .. } => users,
    }
}

/// The answer to an action.
pub open spec fn action_reply(users: Seq<VerifiedUserView>, a: ZKPassportActionView) -> Result<
    Seq<u8>,
    Seq<char>,
> {
    match a {
        ZKPassportActionView::VerifyIdentity { proof, .. } => verify_reply(users, proof),
        ZKPassportActionView::CheckVerification { user_address } => check_reply(
            users,
            user_address,
        ),
    }
}

/// Why a call failed, as contracts see it.
pub enum ExecuteErrorView {
    MalformedInput,
    Rejected(Seq<char>),
}

/// The registry after a call with this call data: unchanged where the data
/// encode no action.
pub open spec fn users_after_call(users: Seq<VerifiedUserView>, data: Seq<u8>) -> Seq<
    VerifiedUserView,
> {
    match decoded_action(data) {
        Some(a) => users_after(users, a),
        None => users,
    }
}

/// The answer to a call with this call data.
pub open spec fn call_reply(users: Seq<VerifiedUserView>, data: Seq<u8>) -> Result<
    Seq<u8>,
    ExecuteErrorView,
> {
    match decoded_action(data) {
        None => Err(ExecuteErrorView::MalformedInput),
        Some(a) => match action_reply(users, a) {
            Ok(bytes) => Ok(bytes),
            Err(reason) => Err(ExecuteErrorView::Rejected(reason)),
        },
    }
}

/// What holds of every record that the ledger has written: the address
/// starts with `0x`, the identifier is the one derived from the address, and
/// the age is marked as verified.
pub open spec fn record_valid(u: VerifiedUserView) -> bool {
    &&& has_hex_prefix(u.user_address)
    &&& u.unique_id == unique_id_text(u.user_address)
    &&& u.age_verified
}

/// What holds of every registry that the ledger has built: each record is
/// valid, and no address occurs twice.
pub open spec fn registry_valid(users: Seq<VerifiedUserView>) -> bool {
    &&& forall|i: int| 0 <= i < users.len() ==> record_valid(#[trigger] users[i])
    &&& forall|i: int, j: int|
        0 <= i < j < users.len() ==> (#[trigger] users[i]).user_address != (
        #[trigger] users[j]).user_address
}

/// Handling a proof keeps a valid registry valid.
pub proof fn lemma_verify_keeps_valid(users: Seq<VerifiedUserView>, p: ZKPassportProofView)
    requires
        registry_valid(users),
    ensures
        registry_valid(users_after_verify(users, p)),
{
    let after = users_after_verify(users, p);
    if after != users {
        let n = users.len() as int;
        assert forall|i: int| 0 <= i < after.len() implies record_valid(#[trigger] after[i]) by {
            if i < n {
                assert(after[i] == users[i]);
            }
        }
        assert forall|i: int, j: int| 0 <= i < j < after.len() implies (
        #[trigger] after[i]).user_address != (#[trigger] after[j]).user_address by {
            if j == n {
                assert(users[i].user_address != p.user_address());
            } else {
                assert(after[i] == users[i]);
                assert(after[j] == users[j]);
            }
        }
    }
}

/// A first match is the only first match.
pub proof fn lemma_first_match_unique(
    users: Seq<VerifiedUserView>,
    address: Seq<char>,
    i: int,
    j: int,
)
    requires
        is_first_match(users, address, i),
        is_first_match(users, address, j),
    ensures
        i == j,
{
    if i < j {
        assert(users[i].user_address != address);
    } else if j < i {
        assert(users[j].user_address != address);
    }
}

/// Where record `i` is the first with the address, it is the one found.
pub proof fn lemma_find_user_at(users: Seq<VerifiedUserView>, address: Seq<char>, i: int)
    requires
        is_first_match(users, address, i),
    ensures
        find_user(users, address) == Some(users[i]),
{
    let k = choose|k: int| is_first_match(users, address, k);
    lemma_first_match_unique(users, address, i, k);
}

/// A record is found for an address exactly where some record has it, and
/// the record found has that address.
pub proof fn lemma_find_user_iff_contains(users: Seq<VerifiedUserView>, address: Seq<char>)
    ensures
        find_user(users, address) is Some <==> contains_address(users, address),
        find_user(users, address) is Some ==> find_user(users, address)->Some_0.user_address
            == address,
{
    if contains_address(users, address) {
        let i = choose|i: int| 0 <= i < users.len() && (#[trigger] users[i]).user_address == address;
        lemma_first_match_exists(users, address, i);
    }
}

/// Below any record with the address there is a first one.
proof fn lemma_first_match_exists(users: Seq<VerifiedUserView>, address: Seq<char>, i: int)
    requires
        0 <= i < users.len(),
        users[i].user_address == address,
    ensures
        exists|k: int| is_first_match(users, address, k),
    decreases i,
{
    if exists|j: int| 0 <= j < i && (#[trigger] users[j]).user_address == address {
        let j = choose|j: int| 0 <= j < i && (#[trigger] users[j]).user_address == address;
        lemma_first_match_exists(users, address, j);
    } else {
        assert(is_first_match(users, address, i));
    }
}

} // verus!
