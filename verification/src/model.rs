//! The data of the ledger: the proof envelope that comes in, the record that
//! is kept, the two actions, and the mathematical view of each.
//!
//! Every type with a `String` inside has a view in which the string is the
//! sequence of its characters. Contracts speak of views only.

use vstd::prelude::*;

verus! {

/// The age bound that the proof claims to have enforced.
#[derive(Debug)]
pub struct CompareAgeEvm {
    pub current_date: String,
    pub min_age: u8,
    pub max_age: u8,
}

/// A `CompareAgeEvm` as contracts see it.
pub struct CompareAgeEvmView {
    pub current_date: Seq<char>,
    pub min_age: u8,
    pub max_age: u8,
}

impl View for CompareAgeEvm {
    type V = CompareAgeEvmView;

    open spec fn view(&self) -> CompareAgeEvmView {
        CompareAgeEvmView {
            current_date: self.current_date@,
            min_age: self.min_age,
            max_age: self.max_age,
        }
    }
}

impl Clone for CompareAgeEvm {
    fn clone(&self) -> (res: Self)
        ensures
            res@ == self@,
    {
        CompareAgeEvm {
            current_date: self.current_date.clone(),
            min_age: self.min_age,
            max_age: self.max_age,
        }
    }
}

impl PartialEq for CompareAgeEvm {
    fn eq(&self, other: &Self) -> (res: bool) {
        self.current_date == other.current_date && self.min_age == other.min_age && self.max_age
            == other.max_age
    }
}

impl vstd::std_specs::cmp::PartialEqSpecImpl for CompareAgeEvm {
    open spec fn obeys_eq_spec() -> bool {
        true
    }

    open spec fn eq_spec(&self, other: &Self) -> bool {
        self@ == other@
    }
}

/// The address and the payload that the proof is bound to.
#[derive(Debug)]
pub struct BindEvmData {
    pub user_address: String,
    pub custom_data: String,
}

/// A `BindEvmData` as contracts see it.
pub struct BindEvmDataView {
    pub user_address: Seq<char>,
    pub custom_data: Seq<char>,
}

impl View for BindEvmData {
    type V = BindEvmDataView;

    open spec fn view(&self) -> BindEvmDataView {
        BindEvmDataView { user_address: self.user_address@, custom_data: self.custom_data@ }
    }
}

impl Clone for BindEvmData {
    fn clone(&self) -> (res: Self)
        ensures
            res@ == self@,
    {
        BindEvmData {
            user_address: self.user_address.clone(),
            custom_data: self.custom_data.clone(),
        }
    }
}

impl PartialEq for BindEvmData {
    fn eq(&self, other: &Self) -> (res: bool) {
        self.user_address == other.user_address && self.custom_data == other.custom_data
    }
}

impl vstd::std_specs::cmp::PartialEqSpecImpl for BindEvmData {
    open spec fn obeys_eq_spec() -> bool {
        true
    }

    open spec fn eq_spec(&self, other: &Self) -> bool {
        self@ == other@
    }
}

/// The binding of a proof, as the proof system wraps it.
#[derive(Debug)]
pub struct BindEvm {
    pub data: BindEvmData,
}

/// A `BindEvm` as contracts see it.
pub struct BindEvmView {
    pub data: BindEvmDataView,
}

impl View for BindEvm {
    type V = BindEvmView;

    open spec fn view(&self) -> BindEvmView {
        BindEvmView { data: self.data@ }
    }
}

impl Clone for BindEvm {
    fn clone(&self) -> (res: Self)
        ensures
            res@ == self@,
    {
        BindEvm { data: self.data.clone() }
    }
}

impl PartialEq for BindEvm {
    fn eq(&self, other: &Self) -> (res: bool) {
        self.data == other.data
    }
}

impl vstd::std_specs::cmp::PartialEqSpecImpl for BindEvm {
    open spec fn obeys_eq_spec() -> bool {
        true
    }

    open spec fn eq_spec(&self, other: &Self) -> bool {
        self@ == other@
    }
}

/// What the proof commits to: the age bound and the binding.
#[derive(Debug)]
pub struct CommittedInputs {
    pub compare_age_evm: CompareAgeEvm,
    pub bind_evm: BindEvm,
}

/// A `CommittedInputs` as contracts see it.
pub struct CommittedInputsView {
    pub compare_age_evm: CompareAgeEvmView,
    pub bind_evm: BindEvmView,
}

impl View for CommittedInputs {
    type V = CommittedInputsView;

    open spec fn view(&self) -> CommittedInputsView {
        CommittedInputsView { compare_age_evm: self.compare_age_evm@, bind_evm: self.bind_evm@ }
    }
}

impl Clone for CommittedInputs {
    fn clone(&self) -> (res: Self)
        ensures
            res@ == self@,
    {
        CommittedInputs {
            compare_age_evm: self.compare_age_evm.clone(),
            bind_evm: self.bind_evm.clone(),
        }
    }
}

impl PartialEq for CommittedInputs {
    fn eq(&self, other: &Self) -> (res: bool) {
        self.compare_age_evm == other.compare_age_evm && self.bind_evm == other.bind_evm
    }
}

impl vstd::std_specs::cmp::PartialEqSpecImpl for CommittedInputs {
    open spec fn obeys_eq_spec() -> bool {
        true
    }

    open spec fn eq_spec(&self, other: &Self) -> bool {
        self@ == other@
    }
}

/// The proof envelope. The proof bytes themselves are carried, never checked:
/// only `name` and the committed inputs are read.
#[derive(Debug)]
pub struct ZKPassportProof {
    pub proof: String,
    pub vkey_hash: String,
    pub name: String,
    pub version: String,
    pub committed_inputs: CommittedInputs,
}

/// A `ZKPassportProof` as contracts see it.
pub struct ZKPassportProofView {
    pub proof: Seq<char>,
    pub vkey_hash: Seq<char>,
    pub name: Seq<char>,
    pub version: Seq<char>,
    pub committed_inputs: CommittedInputsView,
}

impl ZKPassportProofView {
    /// The address that the proof is bound to.
    pub open spec fn user_address(self) -> Seq<char> {
        self.committed_inputs.bind_evm.data.user_address
    }

    /// The payload that the proof is bound to.
    pub open spec fn custom_data(self) -> Seq<char> {
        self.committed_inputs.bind_evm.data.custom_data
    }

    /// The date that the proof claims.
    pub open spec fn current_date(self) -> Seq<char> {
        self.committed_inputs.compare_age_evm.current_date
    }

    /// The lower age bound that the proof claims.
    pub open spec fn min_age(self) -> u8 {
        self.committed_inputs.compare_age_evm.min_age
    }
}

impl View for ZKPassportProof {
    type V = ZKPassportProofView;

    open spec fn view(&self) -> ZKPassportProofView {
        ZKPassportProofView {
            proof: self.proof@,
            vkey_hash: self.vkey_hash@,
            name: self.name@,
            version: self.version@,
            committed_inputs: self.committed_inputs@,
        }
    }
}

impl Clone for ZKPassportProof {
    fn clone(&self) -> (res: Self)
        ensures
            res@ == self@,
    {
        ZKPassportProof {
            proof: self.proof.clone(),
            vkey_hash: self.vkey_hash.clone(),
            name: self.name.clone(),
            version: self.version.clone(),
            committed_inputs: self.committed_inputs.clone(),
        }
    }
}

impl PartialEq for ZKPassportProof {
    fn eq(&self, other: &Self) -> (res: bool) {
        self.proof == other.proof && self.vkey_hash == other.vkey_hash && self.name == other.name
            && self.version == other.version && self.committed_inputs == other.committed_inputs
    }
}

impl vstd::std_specs::cmp::PartialEqSpecImpl for ZKPassportProof {
    open spec fn obeys_eq_spec() -> bool {
        true
    }

    open spec fn eq_spec(&self, other: &Self) -> bool {
        self@ == other@
    }
}

/// One verified identity. A record is written once and never changed.
#[derive(Debug)]
pub struct VerifiedUser {
    pub unique_id: String,
    pub user_address: String,
    pub verified_at: String,
    pub age_verified: bool,
    pub custom_data: String,
}

/// A `VerifiedUser` as contracts see it.
pub struct VerifiedUserView {
    pub unique_id: Seq<char>,
    pub user_address: Seq<char>,
    pub verified_at: Seq<char>,
    pub age_verified: bool,
    pub custom_data: Seq<char>,
}

impl View for VerifiedUser {
    type V = VerifiedUserView;

    open spec fn view(&self) -> VerifiedUserView {
        VerifiedUserView {
            unique_id: self.unique_id@,
            user_address: self.user_address@,
            verified_at: self.verified_at@,
            age_verified: self.age_verified,
            custom_data: self.custom_data@,
        }
    }
}

impl Clone for VerifiedUser {
    fn clone(&self) -> (res: Self)
        ensures
            res@ == self@,
    {
        VerifiedUser {
            unique_id: self.unique_id.clone(),
            user_address: self.user_address.clone(),
            verified_at: self.verified_at.clone(),
            age_verified: self.age_verified,
            custom_data: self.custom_data.clone(),
        }
    }
}

impl PartialEq for VerifiedUser {
    fn eq(&self, other: &Self) -> (res: bool) {
        self.unique_id == other.unique_id && self.user_address == other.user_address
            && self.verified_at == other.verified_at && self.age_verified == other.age_verified
            && self.custom_data == other.custom_data
    }
}

impl vstd::std_specs::cmp::PartialEqSpecImpl for VerifiedUser {
    open spec fn obeys_eq_spec() -> bool {
        true
    }

    open spec fn eq_spec(&self, other: &Self) -> bool {
        self@ == other@
    }
}

/// The two requests that the ledger answers. Nothing else reads or changes it.
#[derive(Debug)]
pub enum ZKPassportAction {
    VerifyIdentity { proof: ZKPassportProof, hyli_identity: String },
    CheckVerification { user_address: String },
}

/// A `ZKPassportAction` as contracts see it.
pub enum ZKPassportActionView {
    VerifyIdentity { proof: ZKPassportProofView, hyli_identity: Seq<char> },
    CheckVerification { user_address: Seq<char> },
}

impl View for ZKPassportAction {
    type V = ZKPassportActionView;

    open spec fn view(&self) -> ZKPassportActionView {
        match self {
            ZKPassportAction::VerifyIdentity { proof, hyli_identity } => {
                ZKPassportActionView::VerifyIdentity {
                    proof: proof@,
                    hyli_identity: hyli_identity@,
                }
            },
            ZKPassportAction::CheckVerification { user_address } => {
                ZKPassportActionView::CheckVerification { user_address: user_address@ }
            },
        }
    }
}

impl Clone for ZKPassportAction {
    fn clone(&self) -> (res: Self)
        ensures
            res@ == self@,
    {
        match self {
            ZKPassportAction::VerifyIdentity { proof, hyli_identity } => {
                ZKPassportAction::VerifyIdentity {
                    proof: proof.clone(),
                    hyli_identity: hyli_identity.clone(),
                }
            },
            ZKPassportAction::CheckVerification { user_address } => {
                ZKPassportAction::CheckVerification { user_address: user_address.clone() }
            },
        }
    }
}

impl PartialEq for ZKPassportAction {
    fn eq(&self, other: &Self) -> (res: bool) {
        match self {
            ZKPassportAction::VerifyIdentity { proof, hyli_identity } => match other {
                ZKPassportAction::VerifyIdentity { proof: other_proof, hyli_identity: other_identity } => {
                    *proof == *other_proof && *hyli_identity == *other_identity
                },
                ZKPassportAction::CheckVerification { .. } => false,
            },
            ZKPassportAction::CheckVerification { user_address } => match other {
                ZKPassportAction::VerifyIdentity { .. } => false,
                ZKPassportAction::CheckVerification { user_address: other_address } => {
                    *user_address == *other_address
                },
            },
        }
    }
}

impl vstd::std_specs::cmp::PartialEqSpecImpl for ZKPassportAction {
    open spec fn obeys_eq_spec() -> bool {
        true
    }

    open spec fn eq_spec(&self, other: &Self) -> bool {
        self@ == other@
    }
}

} // verus!
