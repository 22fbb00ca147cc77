//! Client-side orchestration for an options exchange on Solana: deterministic
//! sub-account addresses, fixed-point price scaling, order-book decoding and
//! the ordered instruction sequences that trading actions submit.

pub mod address;
pub mod scaling;
pub mod book;
pub mod market;
pub mod compose;
pub mod session;
pub mod token;
