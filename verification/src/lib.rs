//! Core of a contract-method framework: a method-signature classifier,
//! a generic return-normalization and schema-derivation protocol, an
//! error envelope with a symmetric structured-text codec, and the
//! dispatch policy that decides whether state is persisted after a
//! call.

pub mod contract_error;
pub mod dispatch;
pub mod envelope;
pub mod error_handling;
pub mod method_info;
pub mod nft_utils;
pub mod schema;
pub mod standard_errors;
pub mod token;
