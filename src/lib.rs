//! An out-of-band attribute provider: it hands out a browser URL that carries
//! the requested attributes and the continuation target, and later routes the
//! sealed authentication result back to the relying party, inline in the
//! redirect or pushed to a callback URL.

pub mod assembler;
pub mod codec;
pub mod delivery;
pub mod error;
mod foreign;
pub mod policy;
pub mod routes;
pub mod start;
