//! Request and response values for a swap-quoting API, with the encoding of
//! each value as a JSON document and the decoding back, both verified.
//!
//! - [`quote`]: what is asked of the quoting service and what it answers.
//! - [`transaction_config`]: the policy for building a swap transaction,
//!   with the two unions that have several shapes on the wire.
//! - [`wire`]: how single values stand in a document.
//! - [`json`]: the documents themselves.
//! - [`amount`], [`pubkey`], [`decimal`]: amounts, identifiers and decimal
//!   numbers as text.
//! - [`error`]: what a decoder reports of a document that it rejects.

pub mod amount;
pub mod decimal;
pub mod error;
pub mod json;
pub mod pubkey;
pub mod quote;
pub mod transaction_config;
pub mod wire;
