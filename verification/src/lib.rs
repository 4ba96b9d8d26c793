//! An identity-verification ledger as a deterministic state-transition
//! function.
//!
//! The state is a registry of verified users. A call hands in the bytes of
//! one action; the ledger reads the action, answers it, and commits to the
//! registry before and after. Every function states in its contract what it
//! returns and how it changes the registry, over the views in `model`, the
//! rules in `rules` and the byte layout in `wire`. The module `laws` proves
//! what follows for every state and every request.
//!
//! The bytes are written and read by the `borsh` crate; the calls are in
//! `codec`, and they are the only part that is taken on trust.

mod codec;
pub mod engine;
pub mod laws;
pub mod model;
pub mod registry;
pub mod rules;
pub mod text;
pub mod wire;

pub use engine::{Blob, ExecuteError, Transition};
pub use model::{
    BindEvm, BindEvmData, CommittedInputs, CompareAgeEvm, VerifiedUser, ZKPassportAction,
    ZKPassportProof,
};
pub use registry::{DecodeError, EncodeError, StateCommitment, ZKPassport};
