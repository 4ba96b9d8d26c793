//! The byte layout of the registry and of an action.
//!
//! A length is four bytes, least significant first. A string is the length of
//! its UTF-8 bytes, then those bytes. A boolean is one byte, 0 or 1. A struct
//! is its fields one after the other, a list is its length and then its
//! items, an enum is one byte for the variant and then that variant's fields.
//! Nothing is padded, so a value has exactly one encoding, and the lemmas
//! below show that an encoding has at most one value.

use vstd::prelude::*;
use vstd::utf8::encode_utf8;
use crate::model::{VerifiedUserView, ZKPassportActionView, ZKPassportProofView};
use crate::text::lemma_utf8_injective;

verus! {

/// The four bytes of `n`, least significant first.
pub open spec fn u32_le(n: u32) -> Seq<u8> {
    seq![
        (n % 256) as u8,
        ((n / 256) % 256) as u8,
        ((n / 65536) % 256) as u8,
        (n / 16777216) as u8,
    ]
}

/// A string can be encoded when the length of its UTF-8 bytes fits in 32 bits.
pub open spec fn text_fits(s: Seq<char>) -> bool {
    encode_utf8(s).len() <= u32::MAX
}

/// A string: the length of its UTF-8 bytes, then the bytes.
pub open spec fn text_bytes(s: Seq<char>) -> Seq<u8> {
    u32_le(encode_utf8(s).len() as u32) + encode_utf8(s)
}

/// A boolean: one byte, 1 for true.
pub open spec fn flag_bytes(b: bool) -> Seq<u8> {
    seq![if b { 1u8 } else { 0u8 }]
}

/// A record can be encoded when each of its strings can.
pub open spec fn record_fits(u: VerifiedUserView) -> bool {
    &&& text_fits(u.unique_id)
    &&& text_fits(u.user_address)
    &&& text_fits(u.verified_at)
    &&& text_fits(u.custom_data)
}

/// One record: its five fields in the order of declaration.
pub open spec fn record_bytes(u: VerifiedUserView) -> Seq<u8> {
    text_bytes(u.unique_id) + text_bytes(u.user_address) + text_bytes(u.verified_at) + flag_bytes(
        u.age_verified,
    ) + text_bytes(u.custom_data)
}

/// The records one after the other, first record first.
pub open spec fn records_bytes(users: Seq<VerifiedUserView>) -> Seq<u8>
    decreases users.len(),
{
    if users.len() == 0 {
        Seq::empty()
    } else {
        record_bytes(users.first()) + records_bytes(users.drop_first())
    }
}

/// A registry can be encoded when the number of its records fits in 32 bits
/// and each record can be encoded.
pub open spec fn registry_fits(users: Seq<VerifiedUserView>) -> bool {
    &&& users.len() <= u32::MAX
    &&& forall|i: int| 0 <= i < users.len() ==> record_fits(#[trigger] users[i])
}

/// The registry: the number of records, then the records.
pub open spec fn registry_bytes(users: Seq<VerifiedUserView>) -> Seq<u8> {
    u32_le(users.len() as u32) + records_bytes(users)
}

/// Whether `bytes` is the encoding of some registry.
pub open spec fn is_registry_bytes(bytes: Seq<u8>) -> bool {
    exists|users: Seq<VerifiedUserView>| registry_fits(users) && registry_bytes(users) == bytes
}

/// A proof envelope can be encoded when each of its strings can.
pub open spec fn proof_fits(p: ZKPassportProofView) -> bool {
    &&& text_fits(p.proof)
    &&& text_fits(p.vkey_hash)
    &&& text_fits(p.name)
    &&& text_fits(p.version)
    &&& text_fits(p.current_date())
    &&& text_fits(p.user_address())
    &&& text_fits(p.custom_data())
}

/// A proof envelope: its fields in the order of declaration, the nested
/// structs in place.
pub open spec fn proof_bytes(p: ZKPassportProofView) -> Seq<u8> {
    text_bytes(p.proof) + text_bytes(p.vkey_hash) + text_bytes(p.name) + text_bytes(p.version)
        + text_bytes(p.current_date()) + seq![p.committed_inputs.compare_age_evm.min_age]
        + seq![p.committed_inputs.compare_age_evm.max_age] + text_bytes(p.user_address())
        + text_bytes(p.custom_data())
}

/// Both fields of a request to verify an identity can be encoded.
pub open spec fn verify_fields_fit(proof: ZKPassportProofView, hyli_identity: Seq<char>) -> bool {
    proof_fits(proof) && text_fits(hyli_identity)
}

/// The two fields of a request to verify an identity: the proof envelope,
/// then the caller's identity.
pub open spec fn verify_fields_bytes(proof: ZKPassportProofView, hyli_identity: Seq<char>) -> Seq<
    u8,
> {
    proof_bytes(proof) + text_bytes(hyli_identity)
}

/// Whether `bytes` is the encoding of some string.
pub open spec fn is_text_bytes(bytes: Seq<u8>) -> bool {
    exists|s: Seq<char>| text_fits(s) && text_bytes(s) == bytes
}

/// Whether `bytes` is the encoding of the two fields of some request to
/// verify an identity.
pub open spec fn is_verify_fields_bytes(bytes: Seq<u8>) -> bool {
    exists|proof: ZKPassportProofView, hyli_identity: Seq<char>|
        verify_fields_fit(proof, hyli_identity) && verify_fields_bytes(proof, hyli_identity)
            == bytes
}

/// An action can be encoded when its fields can.
pub open spec fn action_fits(a: ZKPassportActionView) -> bool {
    match a {
        ZKPassportActionView::VerifyIdentity { proof, hyli_identity } => verify_fields_fit(
            proof,
            hyli_identity,
        ),
        ZKPassportActionView::CheckVerification { user_address } => text_fits(user_address),
    }
}

/// What follows the variant byte of an action.
pub open spec fn payload_bytes(a: ZKPassportActionView) -> Seq<u8> {
    match a {
        ZKPassportActionView::VerifyIdentity { proof, hyli_identity } => verify_fields_bytes(
            proof,
            hyli_identity,
        ),
        ZKPassportActionView::CheckVerification { user_address } => text_bytes(user_address),
    }
}

/// The variant byte: 0 to verify an identity, 1 to check one.
pub open spec fn action_tag(a: ZKPassportActionView) -> u8 {
    match a {
        ZKPassportActionView::VerifyIdentity { .. } => 0,
        ZKPassportActionView::CheckVerification { .. } => 1,
    }
}

/// An action: the variant byte, then the variant's fields.
pub open spec fn action_bytes(a: ZKPassportActionView) -> Seq<u8> {
    seq![action_tag(a)] + payload_bytes(a)
}

/// Whether `bytes` is the encoding of some action.
pub open spec fn is_action_bytes(bytes: Seq<u8>) -> bool {
    exists|a: ZKPassportActionView| action_fits(a) && action_bytes(a) == bytes
}

/// The action that `bytes` encodes, if they encode one.
pub open spec fn decoded_action(bytes: Seq<u8>) -> Option<ZKPassportActionView> {
    if is_action_bytes(bytes) {
        Some(choose|a: ZKPassportActionView| action_fits(a) && action_bytes(a) == bytes)
    } else {
        None
    }
}

/// The registry that `bytes` encode, if they encode one.
pub open spec fn decoded_registry(bytes: Seq<u8>) -> Option<Seq<VerifiedUserView>> {
    if is_registry_bytes(bytes) {
        Some(choose|users: Seq<VerifiedUserView>| registry_fits(users) && registry_bytes(users) == bytes)
    } else {
        None
    }
}

/// Where two sequences of one length are each followed by a rest and the
/// wholes are equal, the sequences are equal and the rests are equal.
pub proof fn lemma_split_equal_len(a: Seq<u8>, ra: Seq<u8>, b: Seq<u8>, rb: Seq<u8>)
    requires
        a + ra == b + rb,
        a.len() == b.len(),
    ensures
        a == b,
        ra == rb,
{
    assert(a =~= (a + ra).subrange(0, a.len() as int));
    assert(b =~= (b + rb).subrange(0, b.len() as int));
    assert(ra =~= (a + ra).subrange(a.len() as int, (a + ra).len() as int));
    assert(rb =~= (b + rb).subrange(b.len() as int, (b + rb).len() as int));
}

/// Concatenation may be bracketed either way.
pub proof fn lemma_concat_assoc(a: Seq<u8>, b: Seq<u8>, c: Seq<u8>)
    ensures
        (a + b) + c == a + (b + c),
{
    assert((a + b) + c =~= a + (b + c));
}

/// The four bytes of a length say which length it is.
pub proof fn lemma_u32_le_injective(m: u32, n: u32)
    requires
        u32_le(m) == u32_le(n),
    ensures
        m == n,
{
    assert(u32_le(m)[0] == u32_le(n)[0]);
    assert(u32_le(m)[1] == u32_le(n)[1]);
    assert(u32_le(m)[2] == u32_le(n)[2]);
    assert(u32_le(m)[3] == u32_le(n)[3]);
}

/// An encoded string followed by anything can be read back in one way only.
pub proof fn lemma_text_split(s: Seq<char>, rs: Seq<u8>, t: Seq<char>, rt: Seq<u8>)
    requires
        text_fits(s),
        text_fits(t),
        text_bytes(s) + rs == text_bytes(t) + rt,
    ensures
        s == t,
        rs == rt,
{
    let m = encode_utf8(s).len() as u32;
    let n = encode_utf8(t).len() as u32;
    assert(text_bytes(s) + rs =~= u32_le(m) + (encode_utf8(s) + rs));
    assert(text_bytes(t) + rt =~= u32_le(n) + (encode_utf8(t) + rt));
    lemma_split_equal_len(u32_le(m), encode_utf8(s) + rs, u32_le(n), encode_utf8(t) + rt);
    lemma_u32_le_injective(m, n);
    lemma_split_equal_len(encode_utf8(s), rs, encode_utf8(t), rt);
    lemma_utf8_injective(s, t);
}

/// A record and a rest, bracketed from the right: each field is followed by
/// all that comes after it.
proof fn lemma_record_bracketed(u: VerifiedUserView, r: Seq<u8>)
    ensures
        record_bytes(u) + r == text_bytes(u.unique_id) + (text_bytes(u.user_address) + (text_bytes(
            u.verified_at,
        ) + (flag_bytes(u.age_verified) + (text_bytes(u.custom_data) + r)))),
{
    let a = text_bytes(u.unique_id);
    let b = text_bytes(u.user_address);
    let c = text_bytes(u.verified_at);
    let d = flag_bytes(u.age_verified);
    let e = text_bytes(u.custom_data);
    lemma_concat_assoc(a + b + c + d, e, r);
    lemma_concat_assoc(a + b + c, d, e + r);
    lemma_concat_assoc(a + b, c, d + (e + r));
    lemma_concat_assoc(a, b, c + (d + (e + r)));
}

/// An encoded record followed by anything can be read back in one way only.
pub proof fn lemma_record_split(u: VerifiedUserView, ru: Seq<u8>, v: VerifiedUserView, rv: Seq<u8>)
    requires
        record_fits(u),
        record_fits(v),
        record_bytes(u) + ru == record_bytes(v) + rv,
    ensures
        u == v,
        ru == rv,
{
    let u_d = text_bytes(u.custom_data) + ru;
    let v_d = text_bytes(v.custom_data) + rv;
    let u_c = flag_bytes(u.age_verified) + u_d;
    let v_c = flag_bytes(v.age_verified) + v_d;
    let u_b = text_bytes(u.verified_at) + u_c;
    let v_b = text_bytes(v.verified_at) + v_c;
    let u_a = text_bytes(u.user_address) + u_b;
    let v_a = text_bytes(v.user_address) + v_b;
    lemma_record_bracketed(u, ru);
    lemma_record_bracketed(v, rv);
    lemma_text_split(u.unique_id, u_a, v.unique_id, v_a);
    lemma_text_split(u.user_address, u_b, v.user_address, v_b);
    lemma_text_split(u.verified_at, u_c, v.verified_at, v_c);
    lemma_split_equal_len(flag_bytes(u.age_verified), u_d, flag_bytes(v.age_verified), v_d);
    assert(flag_bytes(u.age_verified)[0] == flag_bytes(v.age_verified)[0]);
    lemma_text_split(u.custom_data, ru, v.custom_data, rv);
}

/// Two lists of as many records with the same bytes are the same list.
pub proof fn lemma_records_bytes_injective(a: Seq<VerifiedUserView>, b: Seq<VerifiedUserView>)
    requires
        a.len() == b.len(),
        forall|i: int| 0 <= i < a.len() ==> record_fits(#[trigger] a[i]),
        forall|i: int| 0 <= i < b.len() ==> record_fits(#[trigger] b[i]),
        records_bytes(a) == records_bytes(b),
    ensures
        a == b,
    decreases a.len(),
{
    if a.len() > 0 {
        let ra = a.drop_first();
        let rb = b.drop_first();
        assert(record_fits(a[0]));
        assert(record_fits(b[0]));
        lemma_record_split(a.first(), records_bytes(ra), b.first(), records_bytes(rb));
        assert forall|i: int| 0 <= i < ra.len() implies record_fits(#[trigger] ra[i]) by {
            assert(ra[i] == a[i + 1]);
        }
        assert forall|i: int| 0 <= i < rb.len() implies record_fits(#[trigger] rb[i]) by {
            assert(rb[i] == b[i + 1]);
        }
        lemma_records_bytes_injective(ra, rb);
        assert(a =~= seq![a.first()] + ra);
        assert(b =~= seq![b.first()] + rb);
    } else {
        assert(a =~= b);
    }
}

/// Two registries with the same bytes are the same registry.
pub proof fn lemma_registry_bytes_injective(a: Seq<VerifiedUserView>, b: Seq<VerifiedUserView>)
    requires
        registry_fits(a),
        registry_fits(b),
        registry_bytes(a) == registry_bytes(b),
    ensures
        a == b,
{
    lemma_split_equal_len(
        u32_le(a.len() as u32),
        records_bytes(a),
        u32_le(b.len() as u32),
        records_bytes(b),
    );
    lemma_u32_le_injective(a.len() as u32, b.len() as u32);
    lemma_records_bytes_injective(a, b);
}

/// A proof envelope and a rest, bracketed from the right.
proof fn lemma_proof_bracketed(p: ZKPassportProofView, r: Seq<u8>)
    ensures
        proof_bytes(p) + r == text_bytes(p.proof) + (text_bytes(p.vkey_hash) + (text_bytes(p.name)
            + (text_bytes(p.version) + (text_bytes(p.current_date()) + (seq![
            p.committed_inputs.compare_age_evm.min_age,
        ] + (seq![p.committed_inputs.compare_age_evm.max_age] + (text_bytes(p.user_address()) + (
        text_bytes(p.custom_data()) + r)))))))),
{
    let a = text_bytes(p.proof);
    let b = text_bytes(p.vkey_hash);
    let c = text_bytes(p.name);
    let d = text_bytes(p.version);
    let e = text_bytes(p.current_date());
    let f = seq![p.committed_inputs.compare_age_evm.min_age];
    let g = seq![p.committed_inputs.compare_age_evm.max_age];
    let h = text_bytes(p.user_address());
    let i = text_bytes(p.custom_data());
    lemma_concat_assoc(a + b + c + d + e + f + g + h, i, r);
    lemma_concat_assoc(a + b + c + d + e + f + g, h, i + r);
    lemma_concat_assoc(a + b + c + d + e + f, g, h + (i + r));
    lemma_concat_assoc(a + b + c + d + e, f, g + (h + (i + r)));
    lemma_concat_assoc(a + b + c + d, e, f + (g + (h + (i + r))));
    lemma_concat_assoc(a + b + c, d, e + (f + (g + (h + (i + r)))));
    lemma_concat_assoc(a + b, c, d + (e + (f + (g + (h + (i + r))))));
    lemma_concat_assoc(a, b, c + (d + (e + (f + (g + (h + (i + r)))))));
}

/// An encoded proof envelope followed by anything can be read back in one
/// way only.
pub proof fn lemma_proof_split(
    p: ZKPassportProofView,
    rp: Seq<u8>,
    q: ZKPassportProofView,
    rq: Seq<u8>,
)
    requires
        proof_fits(p),
        proof_fits(q),
        proof_bytes(p) + rp == proof_bytes(q) + rq,
    ensures
        p == q,
        rp == rq,
{
    let p_h = text_bytes(p.custom_data()) + rp;
    let q_h = text_bytes(q.custom_data()) + rq;
    let p_g = text_bytes(p.user_address()) + p_h;
    let q_g = text_bytes(q.user_address()) + q_h;
    let p_f = seq![p.committed_inputs.compare_age_evm.max_age] + p_g;
    let q_f = seq![q.committed_inputs.compare_age_evm.max_age] + q_g;
    let p_e = seq![p.committed_inputs.compare_age_evm.min_age] + p_f;
    let q_e = seq![q.committed_inputs.compare_age_evm.min_age] + q_f;
    let p_d = text_bytes(p.current_date()) + p_e;
    let q_d = text_bytes(q.current_date()) + q_e;
    let p_c = text_bytes(p.version) + p_d;
    let q_c = text_bytes(q.version) + q_d;
    let p_b = text_bytes(p.name) + p_c;
    let q_b = text_bytes(q.name) + q_c;
    let p_a = text_bytes(p.vkey_hash) + p_b;
    let q_a = text_bytes(q.vkey_hash) + q_b;
    lemma_proof_bracketed(p, rp);
    lemma_proof_bracketed(q, rq);
    lemma_text_split(p.proof, p_a, q.proof, q_a);
    lemma_text_split(p.vkey_hash, p_b, q.vkey_hash, q_b);
    lemma_text_split(p.name, p_c, q.name, q_c);
    lemma_text_split(p.version, p_d, q.version, q_d);
    lemma_text_split(p.current_date(), p_e, q.current_date(), q_e);
    lemma_split_equal_len(
        seq![p.committed_inputs.compare_age_evm.min_age],
        p_f,
        seq![q.committed_inputs.compare_age_evm.min_age],
        q_f,
    );
    assert(seq![p.committed_inputs.compare_age_evm.min_age][0] == seq![
        q.committed_inputs.compare_age_evm.min_age,
    ][0]);
    lemma_split_equal_len(
        seq![p.committed_inputs.compare_age_evm.max_age],
        p_g,
        seq![q.committed_inputs.compare_age_evm.max_age],
        q_g,
    );
    assert(seq![p.committed_inputs.compare_age_evm.max_age][0] == seq![
        q.committed_inputs.compare_age_evm.max_age,
    ][0]);
    lemma_text_split(p.user_address(), p_h, q.user_address(), q_h);
    lemma_text_split(p.custom_data(), rp, q.custom_data(), rq);
}

/// Two actions with the same bytes are the same action.
pub proof fn lemma_action_bytes_injective(a: ZKPassportActionView, b: ZKPassportActionView)
    requires
        action_fits(a),
        action_fits(b),
        action_bytes(a) == action_bytes(b),
    ensures
        a == b,
{
    lemma_split_equal_len(seq![action_tag(a)], payload_bytes(a), seq![action_tag(b)], payload_bytes(b));
    assert(seq![action_tag(a)][0] == seq![action_tag(b)][0]);
    match a {
        ZKPassportActionView::VerifyIdentity { proof: p, hyli_identity: s } => {
            let q = b->VerifyIdentity_proof;
            let t = b->VerifyIdentity_hyli_identity;
            lemma_proof_split(p, text_bytes(s), q, text_bytes(t));
            assert(text_bytes(s) + Seq::<u8>::empty() =~= text_bytes(s));
            assert(text_bytes(t) + Seq::<u8>::empty() =~= text_bytes(t));
            lemma_text_split(s, Seq::empty(), t, Seq::empty());
        },
        ZKPassportActionView::CheckVerification { user_address: s } => {
            let t = b->CheckVerification_user_address;
            assert(text_bytes(s) + Seq::<u8>::empty() =~= text_bytes(s));
            assert(text_bytes(t) + Seq::<u8>::empty() =~= text_bytes(t));
            lemma_text_split(s, Seq::empty(), t, Seq::empty());
        },
    }
}

/// The bytes of an action decode to that action.
pub proof fn lemma_decoded_action(a: ZKPassportActionView)
    requires
        action_fits(a),
    ensures
        decoded_action(action_bytes(a)) == Some(a),
{
    let b = choose|b: ZKPassportActionView| action_fits(b) && action_bytes(b) == action_bytes(a);
    lemma_action_bytes_injective(a, b);
}

/// The bytes of a registry decode to that registry.
pub proof fn lemma_decoded_registry(users: Seq<VerifiedUserView>)
    requires
        registry_fits(users),
    ensures
        decoded_registry(registry_bytes(users)) == Some(users),
{
    let other = choose|other: Seq<VerifiedUserView>|
        registry_fits(other) && registry_bytes(other) == registry_bytes(users);
    lemma_registry_bytes_injective(users, other);
}

} // verus!
