//! Tokens: their claims, the decoder bound to one signing key, and the store
//! that finds the decoder for a token.

pub mod cache;
pub mod claims;
pub mod compact;
pub mod decoder;
pub mod header;
pub mod store;
