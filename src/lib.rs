//! Building blocks of a small Solana HTTP service: a fixed-width binary codec,
//! key and signature helpers, and the request handling that turns requests
//! into unsigned instructions, each with a verified contract.

pub mod instructions;
pub mod responses;
pub mod routes;
pub mod solana;
pub mod swap;
