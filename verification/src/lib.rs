//! Request building and response shaping for a small proxy in front of the
//! Etherscan API.
//!
//! The proxy serves three read-only endpoints, each keyed by an account
//! address: the balance, the transactions, and the internal transactions.
//! This library holds what the endpoints decide: whether an address is
//! worth asking upstream about, which URL asks for it, and what to answer
//! from what came back. Performing the request, parsing its body and
//! writing the answer are left to the server around it.

pub mod config;
pub mod handlers;
pub mod json;
pub mod models;
pub mod text;
pub mod utils;
