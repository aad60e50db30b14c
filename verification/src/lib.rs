//! Verification of bearer tokens issued by the realms of a multi-tenant
//! identity provider.
//!
//! A token names its signing key in its header and its realm in its issuer
//! claim.  The store reads both before anything is trusted, asks the realm
//! for its public key, verifies the token against that key and remembers the
//! decoder under the key's identifier.

pub mod error;
pub mod json;
pub mod kc;
pub mod text;
pub mod token;
pub use token::store::JwtStore;
