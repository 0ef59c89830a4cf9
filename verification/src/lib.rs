//! A verified resolver protocol for an attestation registry.
//!
//! A resolver is a policy and side-effect hook that the registry invokes at
//! each lifecycle transition of an attestation: creation (`onattest`),
//! revocation (`onrevoke`) and settlement (`onresolve`). Two variants are
//! provided behind one four-operation interface: a reward resolver, which
//! pays a fixed token reward per settled attestation out of a funded pool,
//! and a fee resolver, which collects a fixed token fee per created
//! attestation into a per-recipient accrued ledger.
//!
//! The host environment is modelled explicitly: persistent contract state is
//! an ordinary struct handed to each operation, the host's identity proofs
//! are `auth::Capability` values, and the token collaborator is the
//! `token::TokenLedger` state machine. Every operation carries a contract
//! that pins down its exact effect, and `laws` states and proves the
//! protocol-wide properties: idempotent replay, token conservation,
//! monotone accounting.

pub mod auth;
pub mod fee;
pub mod interface;
pub mod laws;
pub mod ledger;
pub mod resolver;
pub mod reward;
pub mod token;
