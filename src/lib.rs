//! Identity and key-value persistence for a small link and review service:
//! credential hashing, session tokens, and the storage key layout.

pub mod credentials;
pub mod error;
pub mod handler;
pub mod header;
pub mod keys;
pub mod model;
pub mod redict;
pub mod store;
pub mod token;
pub mod toot;
