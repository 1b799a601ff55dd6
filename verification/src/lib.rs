//! Passkey-authenticated smart-wallet authorization engine.
//!
//! A smart wallet is an account whose spending authority is proven by a
//! WebAuthn passkey. Every action of a wallet is authorised by a
//! signature over a challenge that commits to the exact instruction
//! data and accounts of the action, and is vetted by the policy program
//! of the wallet.
//!
//! The engine decides; the runtime acts. Each entry point is a sequence
//! of steps. A step takes the accounts as plain values, together with
//! what the runtime found or how the work handed to it ended, and
//! returns what the runtime has to do next: instructions to invoke,
//! records to store, lamports to move.
//!
//! - [`message`], [`client_data`]: the signed challenge and its envelope.
//! - [`secp256r1`]: the verification record of the signature precompile.
//! - [`hash`]: commitments to instruction data and account sets.
//! - [`auth`]: authorization of an action, composed of the above.
//! - [`pda`], [`cpi`]: derived addresses and prepared invocations.
//! - [`instructions`]: the entry points.
//! - [`state`], [`account`]: persisted records and the model of accounts.
//! - [`security`]: limits on inputs.
//! - [`laws`]: what holds of the engine as a whole.

pub mod account;
pub mod auth;
pub mod bytes;
pub mod client_data;
pub mod cpi;
pub mod error;
pub mod hash;
pub mod instructions;
pub mod laws;
pub mod message;
pub mod pda;
pub mod pubkey;
pub mod secp256r1;
pub mod security;
pub mod state;
